//! Preview replies, the seed entries made from them, and the registry of
//! validated seeds with its merge rule.

use vstd::prelude::*;
use crate::clock::utc_now_rfc3339;
use crate::json::{
    JsonValue, field, bool_of, str_of, u64_of, string_map, pair_views, get_bool, get_str,
    get_u64, get_string_map, take_field,
};
use crate::model::{ProcessOutcome, opt_view, views, push_owned};

verus! {

/// What a preview produced: the would-be files (path, content), the resolved
/// stack and the seed.
#[derive(Debug, PartialEq, Eq)]
pub struct PreviewResult {
    pub files: Vec<(String, String)>,
    pub stack: Option<JsonValue>,
    pub seed: Option<u64>,
}

/// A validated seed as the registry records it.
#[derive(Debug, PartialEq, Eq)]
pub struct SeedEntry {
    pub seed: u64,
    pub stack: JsonValue,
    pub files: Vec<String>,
    pub validated_at: String,
    pub tags: Vec<String>,
}

/// The registry document.
#[derive(Debug, PartialEq, Eq)]
pub struct RegistryData {
    pub version: String,
    pub generated_at: String,
    pub total_entries: u32,
    pub entries: Vec<SeedEntry>,
}

/// The `data` member of a preview reply.
pub open spec fn reply_data(doc: JsonValue) -> Option<JsonValue> {
    field(doc, "data"@)
}

/// A preview `data` member has the expected shape: an object with an unsigned
/// `seed`, a `stack`, and a `files` object whose members all hold strings.
pub open spec fn preview_data_ok(data: Option<JsonValue>) -> bool {
    &&& data is Some
    &&& u64_of(field(data->0, "seed"@)) is Some
    &&& field(data->0, "stack"@) is Some
    &&& string_map(field(data->0, "files"@)) is Some
}

/// A preview run is accepted: the process succeeded, stdout held a JSON reply
/// reporting success, and its data has the expected shape.
pub open spec fn preview_accepted(outcome: ProcessOutcome, reply: Option<JsonValue>) -> bool {
    &&& outcome.success
    &&& reply is Some
    &&& bool_of(field(reply->0, "success"@)) == Some(true)
    &&& preview_data_ok(reply_data(reply->0))
}

/// Why a preview run was not accepted.
pub open spec fn preview_error(outcome: ProcessOutcome, reply: Option<JsonValue>) -> Seq<char> {
    if !outcome.success {
        "Preview failed: "@ + outcome.stderr@
    } else {
        match reply {
            None => "Failed to parse CLI output. stdout: "@ + outcome.stdout@,
            Some(doc) => match bool_of(field(doc, "success"@)) {
                None => "Failed to parse CLI output. stdout: "@ + outcome.stdout@,
                Some(true) => "Missing data in successful response"@,
                Some(false) => match str_of(field(doc, "error"@)) {
                    Some(e) => e,
                    None => "Unknown error"@,
                },
            },
        }
    }
}

fn parse_failure(outcome: &ProcessOutcome) -> (r: String)
    ensures
        r@ == "Failed to parse CLI output. stdout: "@ + outcome.stdout@,
{
    let mut m = String::from_str("Failed to parse CLI output. stdout: ");
    m.append(outcome.stdout.as_str());
    m
}

/// Interprets a preview run. `reply` is the JSON document on stdout, `None`
/// when stdout is not JSON.
pub fn interpret_preview(outcome: &ProcessOutcome, reply: Option<JsonValue>) -> (r: Result<
    PreviewResult,
    String,
>)
    ensures
        r is Ok <==> preview_accepted(*outcome, reply),
        r matches Ok(p) ==> {
            let data = reply_data(reply->0)->0;
            &&& Some(pair_views(p.files@)) == string_map(field(data, "files"@))
            &&& p.stack == field(data, "stack"@)
            &&& p.seed == u64_of(field(data, "seed"@))
        },
        r matches Err(e) ==> e@ == preview_error(*outcome, reply),
{
    if !outcome.success {
        let mut m = String::from_str("Preview failed: ");
        m.append(outcome.stderr.as_str());
        return Err(m);
    }
    match reply {
        None => Err(parse_failure(outcome)),
        Some(doc) => match get_bool(&doc, "success") {
            None => Err(parse_failure(outcome)),
            Some(false) => match get_str(&doc, "error") {
                Some(e) => Err(e),
                None => Err(String::from_str("Unknown error")),
            },
            Some(true) => {
                let missing = String::from_str("Missing data in successful response");
                match take_field(doc, "data") {
                    None => Err(missing),
                    Some(data) => {
                        let seed = get_u64(&data, "seed");
                        let files = get_string_map(&data, "files");
                        match (seed, files) {
                            (Some(seed), Some(files)) => match take_field(data, "stack") {
                                Some(stack) => Ok(
                                    PreviewResult { files, stack: Some(stack), seed: Some(seed) },
                                ),
                                None => Err(missing),
                            },
                            _ => Err(missing),
                        }
                    },
                }
            },
        },
    }
}

/// A one-element sequence for a present value, an empty one otherwise.
pub open spec fn present(v: Option<Seq<char>>) -> Seq<Seq<char>> {
    match v {
        Some(x) => seq![x],
        None => seq![],
    }
}

/// The tags of a stack: its `language`, `framework` and `archetype` strings,
/// in that order, each only where present.
pub open spec fn stack_tags(stack: JsonValue) -> Seq<Seq<char>> {
    present(str_of(field(stack, "language"@))) + present(str_of(field(stack, "framework"@)))
        + present(str_of(field(stack, "archetype"@)))
}

/// The names of (name, text) pairs.
pub open spec fn names_of(ps: Seq<(Seq<char>, Seq<char>)>) -> Seq<Seq<char>> {
    ps.map_values(|p: (Seq<char>, Seq<char>)| p.0)
}

fn push_present(v: &mut Vec<String>, s: Option<String>)
    ensures
        views(final(v)@) == views(old(v)@) + present(opt_view(s)),
{
    match s {
        Some(x) => push_owned(v, x),
        None => {},
    }
    assert(views(v@) =~= views(old(v)@) + present(opt_view(s)));
}

/// The tags of a stack.
pub fn tags_of(stack: &JsonValue) -> (r: Vec<String>)
    ensures
        views(r@) == stack_tags(*stack),
{
    let mut r: Vec<String> = Vec::new();
    push_present(&mut r, get_str(stack, "language"));
    push_present(&mut r, get_str(stack, "framework"));
    push_present(&mut r, get_str(stack, "archetype"));
    assert(views(r@) =~= stack_tags(*stack));
    r
}

/// The names of a list of (name, text) pairs, in order.
pub fn names(pairs: &Vec<(String, String)>) -> (r: Vec<String>)
    ensures
        views(r@) == names_of(pair_views(pairs@)),
{
    let mut r: Vec<String> = Vec::new();
    let mut i: usize = 0;
    while i < pairs.len()
        invariant
            i <= pairs.len(),
            views(r@) == names_of(pair_views(pairs@.subrange(0, i as int))),
        decreases pairs.len() - i,
    {
        let ghost sub = pairs@.subrange(0, i as int);
        let ghost longer = pairs@.subrange(0, i + 1);
        assert(pair_views(longer) =~= pair_views(sub).push((pairs@[i as int].0@, pairs@[i as int].1@)));
        assert(names_of(pair_views(longer)) =~= names_of(pair_views(sub)).push(pairs@[i as int].0@));
        push_owned(&mut r, pairs[i].0.clone());
        i = i + 1;
    }
    assert(pairs@.subrange(0, pairs.len() as int) =~= pairs@);
    r
}

/// The registry entry of an accepted preview of `seed`, stamped `validated_at`;
/// `None` for a preview that was not accepted.
pub fn sweep_entry(seed: u64, outcome: &ProcessOutcome, reply: Option<JsonValue>, validated_at: String) -> (r:
    Option<SeedEntry>)
    ensures
        r is Some <==> preview_accepted(*outcome, reply),
        r matches Some(e) ==> {
            let data = reply_data(reply->0)->0;
            &&& e.seed == seed
            &&& e.stack == field(data, "stack"@)->0
            &&& views(e.files@) == names_of(string_map(field(data, "files"@))->0)
            &&& e.validated_at@ == validated_at@
            &&& views(e.tags@) == stack_tags(e.stack)
        },
{
    match interpret_preview(outcome, reply) {
        Ok(preview) => {
            let files = names(&preview.files);
            match preview.stack {
                Some(stack) => {
                    let tags = tags_of(&stack);
                    Some(SeedEntry { seed, stack, files, validated_at, tags })
                },
                None => None,
            }
        },
        Err(_) => None,
    }
}

/// The registry entry of an accepted preview of `seed`, stamped with the
/// current time; `None` for a preview that was not accepted.
pub fn record_preview(seed: u64, outcome: &ProcessOutcome, reply: Option<JsonValue>) -> (r: Option<
    SeedEntry,
>)
    ensures
        r is Some <==> preview_accepted(*outcome, reply),
        r matches Some(e) ==> {
            let data = reply_data(reply->0)->0;
            &&& e.seed == seed
            &&& e.stack == field(data, "stack"@)->0
            &&& views(e.files@) == names_of(string_map(field(data, "files"@))->0)
            &&& views(e.tags@) == stack_tags(e.stack)
        },
{
    sweep_entry(seed, outcome, reply, utc_now_rfc3339())
}

/// Some entry holds seed `s`.
pub open spec fn has_seed(es: Seq<SeedEntry>, s: u64) -> bool {
    exists|i: int| 0 <= i < es.len() && #[trigger] es[i].seed == s
}

/// No two entries hold the same seed.
pub open spec fn unique_seeds(es: Seq<SeedEntry>) -> bool {
    forall|i: int, j: int|
        0 <= i < es.len() && 0 <= j < es.len() && i != j ==> #[trigger] es[i].seed != #[trigger] es[j].seed
}

/// The entries after merging `new` into `existing`, in order: an entry is
/// appended only when no entry so far holds its seed.
pub open spec fn merged(existing: Seq<SeedEntry>, new: Seq<SeedEntry>) -> Seq<SeedEntry>
    decreases new.len(),
{
    if new.len() == 0 {
        existing
    } else {
        let m = merged(existing, new.drop_last());
        if has_seed(m, new.last().seed) {
            m
        } else {
            m.push(new.last())
        }
    }
}

/// A well-formed registry: one entry per seed, and a count that matches.
pub open spec fn registry_wf(r: RegistryData) -> bool {
    &&& unique_seeds(r.entries@)
    &&& r.total_entries == r.entries.len()
}

/// Whether some entry holds `seed`.
pub fn contains_seed(entries: &Vec<SeedEntry>, seed: u64) -> (r: bool)
    ensures
        r == has_seed(entries@, seed),
{
    let mut i: usize = 0;
    while i < entries.len()
        invariant
            i <= entries.len(),
            forall|j: int| 0 <= j < i ==> entries@[j].seed != seed,
        decreases entries.len() - i,
    {
        if entries[i].seed == seed {
            return true;
        }
        i = i + 1;
    }
    false
}

/// An empty registry, version 1.0.0, stamped `now`.
pub fn new_registry(now: String) -> (r: RegistryData)
    ensures
        r.version@ == "1.0.0"@,
        r.generated_at@ == now@,
        r.entries@.len() == 0,
        registry_wf(r),
{
    RegistryData {
        version: String::from_str("1.0.0"),
        generated_at: now,
        total_entries: 0,
        entries: Vec::new(),
    }
}

/// The registry that was loaded, or an empty one where none could be.
pub fn registry_or_new(loaded: Option<RegistryData>, now: String) -> (r: RegistryData)
    ensures
        match loaded {
            Some(l) => r == l,
            None => r.version@ == "1.0.0"@ && r.generated_at@ == now@ && r.entries@.len() == 0
                && registry_wf(r),
        },
{
    match loaded {
        Some(l) => l,
        None => new_registry(now),
    }
}

/// Merges `new_entries` into the registry: each is appended only when no
/// entry holds its seed yet (the first one stays), the count is recomputed,
/// and the registry is stamped `now`.
pub fn merge_entries(registry: RegistryData, new_entries: Vec<SeedEntry>, now: String) -> (r: RegistryData)
    requires
        registry.entries.len() + new_entries.len() <= u32::MAX,
    ensures
        r.version == registry.version,
        r.generated_at@ == now@,
        r.entries@ == merged(registry.entries@, new_entries@),
        r.total_entries == r.entries.len(),
        registry_wf(registry) ==> registry_wf(r),
{
    proof {
        lemma_merged_facts(registry.entries@, new_entries@);
    }
    let RegistryData { version, generated_at: _, total_entries: _, entries } = registry;
    let mut entries = entries;
    let ghost existing = entries@;
    let ghost new = new_entries@;
    let n = new_entries.len();
    let mut pending = new_entries;
    let mut stack: Vec<SeedEntry> = Vec::new();
    while pending.len() > 0
        invariant
            n == new.len(),
            pending.len() <= n,
            pending@ == new.subrange(0, pending.len() as int),
            stack.len() == n - pending.len(),
            forall|j: int| 0 <= j < stack.len() ==> stack@[j] == new[n - 1 - j],
        decreases pending.len(),
    {
        let e = pending.pop().unwrap();
        stack.push(e);
        assert(pending@ =~= new.subrange(0, pending.len() as int));
    }
    let mut k: usize = 0;
    assert(new.subrange(0, 0) =~= Seq::<SeedEntry>::empty());
    while stack.len() > 0
        invariant
            n == new.len(),
            k <= n,
            stack.len() == n - k,
            forall|j: int| 0 <= j < stack.len() ==> stack@[j] == new[n - 1 - j],
            entries@ == merged(existing, new.subrange(0, k as int)),
            entries.len() <= existing.len() + k,
            existing.len() + n <= u32::MAX,
        decreases stack.len(),
    {
        let e = stack.pop().unwrap();
        assert(e == new[k as int]);
        let ghost prefix = new.subrange(0, k + 1);
        assert(prefix.drop_last() =~= new.subrange(0, k as int));
        assert(prefix.last() == new[k as int]);
        if !contains_seed(&entries, e.seed) {
            entries.push(e);
        }
        k = k + 1;
    }
    assert(new.subrange(0, n as int) =~= new);
    let total = entries.len() as u32;
    RegistryData { version, generated_at: now, total_entries: total, entries }
}

/// Merges `new_entries` into the registry and stamps it with the current time.
pub fn record_entries(registry: RegistryData, new_entries: Vec<SeedEntry>) -> (r: RegistryData)
    requires
        registry.entries.len() + new_entries.len() <= u32::MAX,
    ensures
        r.version == registry.version,
        r.entries@ == merged(registry.entries@, new_entries@),
        r.total_entries == r.entries.len(),
{
    merge_entries(registry, new_entries, utc_now_rfc3339())
}

proof fn lemma_merged_facts(existing: Seq<SeedEntry>, new: Seq<SeedEntry>)
    ensures
        forall|s: u64| #[trigger]
            has_seed(merged(existing, new), s) <==> (has_seed(existing, s) || has_seed(new, s)),
        unique_seeds(existing) ==> unique_seeds(merged(existing, new)),
        merged(existing, new).len() >= existing.len(),
        merged(existing, new).subrange(0, existing.len() as int) == existing,
    decreases new.len(),
{
    if new.len() == 0 {
        assert(existing.subrange(0, existing.len() as int) =~= existing);
    } else {
        let init = new.drop_last();
        let m = merged(existing, init);
        let e = new.last();
        lemma_merged_facts(existing, init);
        assert forall|s: u64| has_seed(new, s) <==> (has_seed(init, s) || e.seed == s) by {
            if has_seed(new, s) {
                let i = choose|i: int| 0 <= i < new.len() && #[trigger] new[i].seed == s;
                if i < new.len() - 1 {
                    assert(init[i].seed == s);
                }
            }
            if has_seed(init, s) {
                let i = choose|i: int| 0 <= i < init.len() && #[trigger] init[i].seed == s;
                assert(new[i].seed == s);
            }
            if e.seed == s {
                assert(new[new.len() - 1].seed == s);
            }
        }
        if !has_seed(m, e.seed) {
            let m2 = m.push(e);
            assert forall|s: u64| has_seed(m2, s) <==> (has_seed(m, s) || e.seed == s) by {
                if has_seed(m2, s) {
                    let i = choose|i: int| 0 <= i < m2.len() && #[trigger] m2[i].seed == s;
                    if i < m.len() {
                        assert(m[i].seed == s);
                    }
                }
                if has_seed(m, s) {
                    let i = choose|i: int| 0 <= i < m.len() && #[trigger] m[i].seed == s;
                    assert(m2[i].seed == s);
                }
                if e.seed == s {
                    assert(m2[m.len() as int].seed == s);
                }
            }
            if unique_seeds(existing) {
                assert forall|i: int, j: int|
                    0 <= i < m2.len() && 0 <= j < m2.len() && i != j implies #[trigger] m2[i].seed
                    != #[trigger] m2[j].seed by {
                    if i < m.len() && j < m.len() {
                        assert(m[i].seed != m[j].seed);
                    } else if i < m.len() {
                        assert(m[i].seed == m2[i].seed);
                    } else {
                        assert(m[j].seed == m2[j].seed);
                    }
                }
            }
            assert(m2.subrange(0, existing.len() as int) =~= m.subrange(0, existing.len() as int));
        }
    }
}

proof fn lemma_merged_covered(m: Seq<SeedEntry>, new: Seq<SeedEntry>)
    requires
        forall|s: u64| has_seed(new, s) ==> has_seed(m, s),
    ensures
        merged(m, new) == m,
    decreases new.len(),
{
    if new.len() > 0 {
        let init = new.drop_last();
        assert forall|s: u64| has_seed(init, s) implies has_seed(m, s) by {
            let i = choose|i: int| 0 <= i < init.len() && #[trigger] init[i].seed == s;
            assert(new[i].seed == s);
        }
        lemma_merged_covered(m, init);
        assert(new[new.len() - 1].seed == new.last().seed);
    }
}

/// Merging keeps every entry that was there, in place, keeps one entry per
/// seed, and leaves the registry holding exactly the seeds that were there or
/// were merged in.
pub proof fn lemma_merge_keeps_existing(existing: Seq<SeedEntry>, new: Seq<SeedEntry>)
    requires
        unique_seeds(existing),
    ensures
        merged(existing, new).subrange(0, existing.len() as int) == existing,
        unique_seeds(merged(existing, new)),
        forall|s: u64| #[trigger]
            has_seed(merged(existing, new), s) <==> (has_seed(existing, s) || has_seed(new, s)),
{
    lemma_merged_facts(existing, new);
}

/// Merging is idempotent and, as to which seeds are held, commutative. After
/// two merges into a registry with one entry per seed, every seed of either
/// batch is held by exactly one entry (it is held, and no two entries share a
/// seed); merging the same batch again changes nothing; and merging the two
/// batches in the other order leaves the same seeds.
pub proof fn lemma_merge_twice(existing: Seq<SeedEntry>, a: Seq<SeedEntry>, b: Seq<SeedEntry>)
    requires
        unique_seeds(existing),
    ensures
        unique_seeds(merged(merged(existing, a), b)),
        forall|s: u64|
            has_seed(a, s) || has_seed(b, s) ==> #[trigger] has_seed(merged(merged(existing, a), b), s),
        merged(merged(existing, a), a) == merged(existing, a),
        forall|s: u64| #[trigger]
            has_seed(merged(merged(existing, a), b), s) == has_seed(merged(merged(existing, b), a), s),
{
    let ma = merged(existing, a);
    let mb = merged(existing, b);
    lemma_merged_facts(existing, a);
    lemma_merged_facts(existing, b);
    lemma_merged_facts(ma, b);
    lemma_merged_facts(mb, a);
    lemma_merged_covered(ma, a);
}

/// A registry with one entry per seed keeps that property, and a count that
/// matches, through a merge.
pub proof fn lemma_merge_preserves_wf(registry: RegistryData, new_entries: Seq<SeedEntry>, r: RegistryData)
    requires
        registry_wf(registry),
        r.entries@ == merged(registry.entries@, new_entries),
        r.total_entries == r.entries.len(),
    ensures
        registry_wf(r),
{
    lemma_merged_facts(registry.entries@, new_entries);
}

} // verus!
