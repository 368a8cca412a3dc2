//! The argument vector handed to the external generator.

use vstd::prelude::*;
use crate::model::{EnrichmentConfig, TechStackConfig, opt_view, views, push_owned, push_text};
use crate::text::{decimal, decimal_string};

verus! {

/// The generator subcommand to run.
#[derive(Debug, Clone, Copy, PartialEq, Eq)]
pub enum GeneratorAction {
    /// Writes a project to disk.
    Seed,
    /// Prints the would-be files without touching disk.
    Preview,
}

/// The word that names an action on the generator's command line.
pub open spec fn action_word(a: GeneratorAction) -> Seq<char> {
    match a {
        GeneratorAction::Seed => "seed"@,
        GeneratorAction::Preview => "preview"@,
    }
}

/// A flag followed by its value when the value is present; nothing otherwise.
pub open spec fn flag_pair(flag: Seq<char>, v: Option<String>) -> Seq<Seq<char>> {
    match v {
        Some(s) => seq![flag, s@],
        None => seq![],
    }
}

/// The flag/value pairs of the present stack constraints, in field order.
pub open spec fn stack_tokens(c: TechStackConfig) -> Seq<Seq<char>> {
    flag_pair("--archetype"@, c.archetype) + flag_pair("--language"@, c.language) + flag_pair(
        "--framework"@,
        c.framework,
    ) + flag_pair("--database"@, c.database) + flag_pair("--packaging"@, c.packaging)
        + flag_pair("--cicd"@, c.cicd)
}

pub open spec fn stack_args(stack: Option<TechStackConfig>) -> Seq<Seq<char>> {
    match stack {
        Some(c) => stack_tokens(c),
        None => seq![],
    }
}

/// A negation flag, present only when the sub-flag is explicitly `false`.
pub open spec fn negation(flag: Seq<char>, v: Option<bool>) -> Seq<Seq<char>> {
    if v == Some(false) {
        seq![flag]
    } else {
        seq![]
    }
}

/// The negation flags of an enrichment configuration, in sub-flag order.
pub open spec fn negation_tokens(e: EnrichmentConfig) -> Seq<Seq<char>> {
    negation("--no-enrich-cicd"@, e.cicd) + negation("--no-enrich-release"@, e.release)
        + negation("--no-enrich-logic"@, e.fill_logic) + negation("--no-enrich-tests"@, e.tests)
        + negation("--no-enrich-docker-prod"@, e.docker_prod) + negation(
        "--no-enrich-linting"@,
        e.linting,
    ) + negation("--no-enrich-env"@, e.env_files) + negation("--no-enrich-docs"@, e.docs)
}

/// The enrichment part of the argument vector: nothing unless enabled.
pub open spec fn enrichment_args(e: Option<EnrichmentConfig>) -> Seq<Seq<char>> {
    match e {
        Some(c) => if c.enabled {
            seq!["--enrich"@, "--enrich-depth"@, c.depth@] + negation_tokens(c)
        } else {
            seq![]
        },
        None => seq![],
    }
}

/// The destination part: only generation names an output and asks for JSON.
pub open spec fn destination_args(action: GeneratorAction, output: Seq<char>) -> Seq<Seq<char>> {
    match action {
        GeneratorAction::Seed => seq!["--output"@, output, "--json"@],
        GeneratorAction::Preview => seq![],
    }
}

/// The full argument vector for an action.
pub open spec fn generator_args(
    action: GeneratorAction,
    seed: u64,
    output: Seq<char>,
    stack: Option<TechStackConfig>,
    enrichment: Option<EnrichmentConfig>,
) -> Seq<Seq<char>> {
    seq![action_word(action), decimal(seed as nat)] + destination_args(action, output)
        + stack_args(stack) + enrichment_args(enrichment)
}

/// The depth used when a configuration names none.
pub fn default_enrichment_depth() -> (r: String)
    ensures
        r@ == "standard"@,
{
    String::from_str("standard")
}

fn push_flag_value(args: &mut Vec<String>, flag: &str, value: &Option<String>)
    ensures
        views(final(args)@) == views(old(args)@) + flag_pair(flag@, *value),
{
    match value {
        Some(v) => {
            args.push(String::from_str(flag));
            args.push(v.clone());
        },
        None => {},
    }
    assert(views(args@) =~= views(old(args)@) + flag_pair(flag@, *value));
}

fn push_negation(args: &mut Vec<String>, flag: &str, value: Option<bool>)
    ensures
        views(final(args)@) == views(old(args)@) + negation(flag@, value),
{
    if value == Some(false) {
        push_text(args, flag);
    }
    assert(views(args@) =~= views(old(args)@) + negation(flag@, value));
}

fn push_stack(args: &mut Vec<String>, stack: &Option<TechStackConfig>)
    ensures
        views(final(args)@) == views(old(args)@) + stack_args(*stack),
{
    if let Some(c) = stack {
        push_flag_value(args, "--archetype", &c.archetype);
        push_flag_value(args, "--language", &c.language);
        push_flag_value(args, "--framework", &c.framework);
        push_flag_value(args, "--database", &c.database);
        push_flag_value(args, "--packaging", &c.packaging);
        push_flag_value(args, "--cicd", &c.cicd);
    }
    assert(views(args@) =~= views(old(args)@) + stack_args(*stack));
}

fn push_enrichment(args: &mut Vec<String>, enrichment: &Option<EnrichmentConfig>)
    ensures
        views(final(args)@) == views(old(args)@) + enrichment_args(*enrichment),
{
    if let Some(e) = enrichment {
        if e.enabled {
            push_text(args, "--enrich");
            push_text(args, "--enrich-depth");
            push_text(args, e.depth.as_str());
            push_negation(args, "--no-enrich-cicd", e.cicd);
            push_negation(args, "--no-enrich-release", e.release);
            push_negation(args, "--no-enrich-logic", e.fill_logic);
            push_negation(args, "--no-enrich-tests", e.tests);
            push_negation(args, "--no-enrich-docker-prod", e.docker_prod);
            push_negation(args, "--no-enrich-linting", e.linting);
            push_negation(args, "--no-enrich-env", e.env_files);
            push_negation(args, "--no-enrich-docs", e.docs);
        }
    }
    assert(views(args@) =~= views(old(args)@) + enrichment_args(*enrichment));
}

/// The generator's argument vector for `action` on `seed`: action and seed,
/// then (generation only) `--output <path> --json`, then the present stack
/// constraints, then the enrichment flags.
pub fn build_generator_args(
    action: GeneratorAction,
    seed: u64,
    output_path: &str,
    stack: &Option<TechStackConfig>,
    enrichment: &Option<EnrichmentConfig>,
) -> (r: Vec<String>)
    ensures
        views(r@) == generator_args(action, seed, output_path@, *stack, *enrichment),
{
    let mut args: Vec<String> = Vec::new();
    match action {
        GeneratorAction::Seed => push_text(&mut args, "seed"),
        GeneratorAction::Preview => push_text(&mut args, "preview"),
    }
    push_owned(&mut args, decimal_string(seed));
    assert(views(args@) =~= seq![action_word(action), decimal(seed as nat)]);
    match action {
        GeneratorAction::Seed => {
            push_text(&mut args, "--output");
            push_text(&mut args, output_path);
            push_text(&mut args, "--json");
        },
        GeneratorAction::Preview => {},
    }
    assert(views(args@) =~= seq![action_word(action), decimal(seed as nat)] + destination_args(
        action,
        output_path@,
    ));
    push_stack(&mut args, stack);
    push_enrichment(&mut args, enrichment);
    assert(views(args@) =~= generator_args(action, seed, output_path@, *stack, *enrichment));
    args
}

/// The argument vector of the generation command:
/// `seed <seed> --output <path> --json [stack] [enrichment]`.
pub fn build_cli_args(
    seed: u64,
    output_path: &str,
    stack: &Option<TechStackConfig>,
    enrichment: &Option<EnrichmentConfig>,
) -> (r: Vec<String>)
    ensures
        views(r@) == generator_args(GeneratorAction::Seed, seed, output_path@, *stack, *enrichment),
{
    build_generator_args(GeneratorAction::Seed, seed, output_path, stack, enrichment)
}

/// The argument vector of the preview command: `preview <seed> [stack] [enrichment]`.
pub fn build_preview_args(
    seed: u64,
    stack: &Option<TechStackConfig>,
    enrichment: &Option<EnrichmentConfig>,
) -> (r: Vec<String>)
    ensures
        views(r@) == generator_args(GeneratorAction::Preview, seed, ""@, *stack, *enrichment),
{
    build_generator_args(GeneratorAction::Preview, seed, "", stack, enrichment)
}

/// The flag of a constraint, when the constraint is present.
pub open spec fn flag_if(flag: Seq<char>, v: Option<String>) -> Seq<Seq<char>> {
    if v is Some {
        seq![flag]
    } else {
        seq![]
    }
}

/// The value of a constraint, when present.
pub open spec fn value_if(v: Option<String>) -> Seq<Seq<char>> {
    match v {
        Some(s) => seq![s@],
        None => seq![],
    }
}

/// The flags of the present constraints, in field order.
pub open spec fn present_flags(c: TechStackConfig) -> Seq<Seq<char>> {
    flag_if("--archetype"@, c.archetype) + flag_if("--language"@, c.language) + flag_if(
        "--framework"@,
        c.framework,
    ) + flag_if("--database"@, c.database) + flag_if("--packaging"@, c.packaging) + flag_if(
        "--cicd"@,
        c.cicd,
    )
}

/// The values of the present constraints, in field order.
pub open spec fn present_values(c: TechStackConfig) -> Seq<Seq<char>> {
    value_if(c.archetype) + value_if(c.language) + value_if(c.framework) + value_if(c.database)
        + value_if(c.packaging) + value_if(c.cicd)
}

pub open spec fn one_if(b: bool) -> nat {
    if b {
        1
    } else {
        0
    }
}

/// How many stack constraints are present.
pub open spec fn present_count(c: TechStackConfig) -> nat {
    one_if(c.archetype is Some) + one_if(c.language is Some) + one_if(c.framework is Some)
        + one_if(c.database is Some) + one_if(c.packaging is Some) + one_if(c.cicd is Some)
}

/// `tokens` is the flags interleaved with their values: flag, value, flag, value, ...
pub open spec fn interleaves(tokens: Seq<Seq<char>>, flags: Seq<Seq<char>>, values: Seq<Seq<char>>) -> bool {
    &&& flags.len() == values.len()
    &&& tokens.len() == 2 * flags.len()
    &&& forall|k: int|
        0 <= k < flags.len() ==> tokens[2 * k] == flags[k] && tokens[2 * k + 1] == values[k]
}

proof fn lemma_interleaves_concat(
    t1: Seq<Seq<char>>,
    f1: Seq<Seq<char>>,
    v1: Seq<Seq<char>>,
    t2: Seq<Seq<char>>,
    f2: Seq<Seq<char>>,
    v2: Seq<Seq<char>>,
)
    requires
        interleaves(t1, f1, v1),
        interleaves(t2, f2, v2),
    ensures
        interleaves(t1 + t2, f1 + f2, v1 + v2),
{
    let t = t1 + t2;
    let f = f1 + f2;
    let v = v1 + v2;
    assert forall|k: int| 0 <= k < f.len() implies t[2 * k] == f[k] && t[2 * k + 1] == v[k] by {
        if k >= f1.len() {
            let j = k - f1.len();
            assert(2 * k - t1.len() == 2 * j);
            assert(t[2 * k] == t2[2 * j]);
            assert(t[2 * k + 1] == t2[2 * j + 1]);
        }
    }
}

proof fn lemma_pair_interleaves(flag: Seq<char>, v: Option<String>)
    ensures
        interleaves(flag_pair(flag, v), flag_if(flag, v), value_if(v)),
        flag_if(flag, v).len() == one_if(v is Some),
{
}

/// Each present stack constraint contributes exactly one `--<field> <value>`
/// pair, in the fixed field order (archetype, language, framework, database,
/// packaging, cicd), and an absent one contributes none. In the whole argument
/// vector these pairs stand right after the action, the seed and the
/// destination flags.
pub proof fn lemma_stack_pairs(
    action: GeneratorAction,
    seed: u64,
    output: Seq<char>,
    c: TechStackConfig,
    enrichment: Option<EnrichmentConfig>,
)
    ensures
        interleaves(stack_tokens(c), present_flags(c), present_values(c)),
        present_flags(c).len() == present_count(c),
        ({
            let args = generator_args(action, seed, output, Some(c), enrichment);
            let start = 2 + destination_args(action, output).len() as int;
            args.subrange(start, start + stack_tokens(c).len() as int) == stack_tokens(c)
        }),
{
    lemma_pair_interleaves("--archetype"@, c.archetype);
    lemma_pair_interleaves("--language"@, c.language);
    lemma_pair_interleaves("--framework"@, c.framework);
    lemma_pair_interleaves("--database"@, c.database);
    lemma_pair_interleaves("--packaging"@, c.packaging);
    lemma_pair_interleaves("--cicd"@, c.cicd);
    let t1 = flag_pair("--archetype"@, c.archetype);
    let f1 = flag_if("--archetype"@, c.archetype);
    let v1 = value_if(c.archetype);
    let t2 = t1 + flag_pair("--language"@, c.language);
    let f2 = f1 + flag_if("--language"@, c.language);
    let v2 = v1 + value_if(c.language);
    lemma_interleaves_concat(
        t1,
        f1,
        v1,
        flag_pair("--language"@, c.language),
        flag_if("--language"@, c.language),
        value_if(c.language),
    );
    let t3 = t2 + flag_pair("--framework"@, c.framework);
    let f3 = f2 + flag_if("--framework"@, c.framework);
    let v3 = v2 + value_if(c.framework);
    lemma_interleaves_concat(
        t2,
        f2,
        v2,
        flag_pair("--framework"@, c.framework),
        flag_if("--framework"@, c.framework),
        value_if(c.framework),
    );
    let t4 = t3 + flag_pair("--database"@, c.database);
    let f4 = f3 + flag_if("--database"@, c.database);
    let v4 = v3 + value_if(c.database);
    lemma_interleaves_concat(
        t3,
        f3,
        v3,
        flag_pair("--database"@, c.database),
        flag_if("--database"@, c.database),
        value_if(c.database),
    );
    let t5 = t4 + flag_pair("--packaging"@, c.packaging);
    let f5 = f4 + flag_if("--packaging"@, c.packaging);
    let v5 = v4 + value_if(c.packaging);
    lemma_interleaves_concat(
        t4,
        f4,
        v4,
        flag_pair("--packaging"@, c.packaging),
        flag_if("--packaging"@, c.packaging),
        value_if(c.packaging),
    );
    lemma_interleaves_concat(
        t5,
        f5,
        v5,
        flag_pair("--cicd"@, c.cicd),
        flag_if("--cicd"@, c.cicd),
        value_if(c.cicd),
    );
    let args = generator_args(action, seed, output, Some(c), enrichment);
    let head = seq![action_word(action), decimal(seed as nat)] + destination_args(action, output);
    assert(args == head + stack_tokens(c) + enrichment_args(enrichment));
    assert(args.subrange(head.len() as int, head.len() + stack_tokens(c).len() as int) =~= stack_tokens(
        c,
    ));
}

/// A disabled enrichment configuration adds nothing: the argument vector is
/// the one built with no enrichment configuration at all.
pub proof fn lemma_disabled_enrichment_adds_nothing(
    action: GeneratorAction,
    seed: u64,
    output: Seq<char>,
    stack: Option<TechStackConfig>,
    e: EnrichmentConfig,
)
    requires
        !e.enabled,
    ensures
        enrichment_args(Some(e)).len() == 0,
        generator_args(action, seed, output, stack, Some(e)) == generator_args(
            action,
            seed,
            output,
            stack,
            None,
        ),
{
}

/// How often a token occurs in a sequence of tokens.
pub open spec fn occurrences(s: Seq<Seq<char>>, t: Seq<char>) -> nat
    decreases s.len(),
{
    if s.len() == 0 {
        0
    } else {
        occurrences(s.drop_last(), t) + one_if(s.last() == t)
    }
}

proof fn lemma_occurrences_concat(a: Seq<Seq<char>>, b: Seq<Seq<char>>, t: Seq<char>)
    ensures
        occurrences(a + b, t) == occurrences(a, t) + occurrences(b, t),
    decreases b.len(),
{
    if b.len() == 0 {
        assert(a + b =~= a);
    } else {
        lemma_occurrences_concat(a, b.drop_last(), t);
        assert((a + b).drop_last() =~= a + b.drop_last());
    }
}

proof fn lemma_occurrences_negation(flag: Seq<char>, v: Option<bool>, t: Seq<char>)
    ensures
        occurrences(negation(flag, v), t) == one_if(v == Some(false) && flag == t),
{
    let s = negation(flag, v);
    if v == Some(false) {
        assert(s.drop_last() =~= Seq::<Seq<char>>::empty());
        assert(occurrences(s.drop_last(), t) == 0);
    }
}

/// The eight sub-flags of an enrichment configuration, each with the name of
/// its negation flag.
pub open spec fn sub_flags(e: EnrichmentConfig) -> Seq<(Seq<char>, Option<bool>)> {
    seq![
        ("--no-enrich-cicd"@, e.cicd),
        ("--no-enrich-release"@, e.release),
        ("--no-enrich-logic"@, e.fill_logic),
        ("--no-enrich-tests"@, e.tests),
        ("--no-enrich-docker-prod"@, e.docker_prod),
        ("--no-enrich-linting"@, e.linting),
        ("--no-enrich-env"@, e.env_files),
        ("--no-enrich-docs"@, e.docs),
    ]
}

/// With enrichment enabled, the enrichment part is `--enrich --enrich-depth
/// <depth>` followed by the negation flags; among those, the flag of a
/// sub-flag explicitly set to `false` occurs exactly once, and the flag of any
/// other sub-flag (unset or `true`) does not occur.
pub proof fn lemma_negation_flags(e: EnrichmentConfig)
    requires
        e.enabled,
    ensures
        enrichment_args(Some(e)) == seq!["--enrich"@, "--enrich-depth"@, e.depth@] + negation_tokens(e),
        forall|i: int|
            0 <= i < 8 ==> occurrences(negation_tokens(e), #[trigger] sub_flags(e)[i].0) == one_if(
                sub_flags(e)[i].1 == Some(false),
            ),
{
    let names = seq![
        "--no-enrich-cicd"@,
        "--no-enrich-release"@,
        "--no-enrich-logic"@,
        "--no-enrich-tests"@,
        "--no-enrich-docker-prod"@,
        "--no-enrich-linting"@,
        "--no-enrich-env"@,
        "--no-enrich-docs"@,
    ];
    reveal_strlit("--no-enrich-cicd");
    reveal_strlit("--no-enrich-release");
    reveal_strlit("--no-enrich-logic");
    reveal_strlit("--no-enrich-tests");
    reveal_strlit("--no-enrich-docker-prod");
    reveal_strlit("--no-enrich-linting");
    reveal_strlit("--no-enrich-env");
    reveal_strlit("--no-enrich-docs");
    assert(names[0][12] == 'c' && names[0].len() == 16);
    assert(names[1][12] == 'r' && names[1].len() == 19);
    assert(names[2][12] == 'l' && names[2].len() == 17);
    assert(names[3][12] == 't' && names[3].len() == 17);
    assert(names[4].len() == 23);
    assert(names[5][12] == 'l' && names[5].len() == 19);
    assert(names[6].len() == 15);
    assert(names[7][12] == 'd' && names[7].len() == 16);
    assert forall|i: int, j: int| 0 <= i < 8 && 0 <= j < 8 && i != j implies names[i] != names[j] by {
        if names[i] == names[j] {
            assert(names[i][12] == names[j][12]);
        }
    }
    let flags = sub_flags(e);
    assert forall|i: int|
        0 <= i < 8 implies occurrences(negation_tokens(e), #[trigger] sub_flags(e)[i].0) == one_if(
            sub_flags(e)[i].1 == Some(false),
        ) by {
        let t = flags[i].0;
        assert(t == names[i]);
        let n0 = negation(names[0], e.cicd);
        let n1 = negation(names[1], e.release);
        let n2 = negation(names[2], e.fill_logic);
        let n3 = negation(names[3], e.tests);
        let n4 = negation(names[4], e.docker_prod);
        let n5 = negation(names[5], e.linting);
        let n6 = negation(names[6], e.env_files);
        let n7 = negation(names[7], e.docs);
        lemma_occurrences_negation(names[0], e.cicd, t);
        lemma_occurrences_negation(names[1], e.release, t);
        lemma_occurrences_negation(names[2], e.fill_logic, t);
        lemma_occurrences_negation(names[3], e.tests, t);
        lemma_occurrences_negation(names[4], e.docker_prod, t);
        lemma_occurrences_negation(names[5], e.linting, t);
        lemma_occurrences_negation(names[6], e.env_files, t);
        lemma_occurrences_negation(names[7], e.docs, t);
        lemma_occurrences_concat(n0, n1, t);
        lemma_occurrences_concat(n0 + n1, n2, t);
        lemma_occurrences_concat(n0 + n1 + n2, n3, t);
        lemma_occurrences_concat(n0 + n1 + n2 + n3, n4, t);
        lemma_occurrences_concat(n0 + n1 + n2 + n3 + n4, n5, t);
        lemma_occurrences_concat(n0 + n1 + n2 + n3 + n4 + n5, n6, t);
        lemma_occurrences_concat(n0 + n1 + n2 + n3 + n4 + n5 + n6, n7, t);
        assert(negation_tokens(e) == n0 + n1 + n2 + n3 + n4 + n5 + n6 + n7);
    }
}

/// The argument vector of the template command:
/// `generate <template> --dest <path> [--data <json>] [--use-defaults] [--force]`.
pub open spec fn template_args(
    template_path: Seq<char>,
    output: Seq<char>,
    data: Option<Seq<char>>,
    use_defaults: bool,
    force: bool,
) -> Seq<Seq<char>> {
    seq!["generate"@, template_path, "--dest"@, output] + match data {
        Some(d) => seq!["--data"@, d],
        None => seq![],
    } + if use_defaults {
        seq!["--use-defaults"@]
    } else {
        seq![]
    } + if force {
        seq!["--force"@]
    } else {
        seq![]
    }
}

/// The argument vector of the template command.
pub fn build_template_args(
    template_path: &str,
    output_path: &str,
    data: &Option<String>,
    use_defaults: bool,
    force: bool,
) -> (r: Vec<String>)
    ensures
        views(r@) == template_args(
            template_path@,
            output_path@,
            opt_view(*data),
            use_defaults,
            force,
        ),
{
    let mut args: Vec<String> = Vec::new();
    push_text(&mut args, "generate");
    push_text(&mut args, template_path);
    push_text(&mut args, "--dest");
    push_text(&mut args, output_path);
    match data {
        Some(d) => {
            push_text(&mut args, "--data");
            push_text(&mut args, d.as_str());
        },
        None => {},
    }
    if use_defaults {
        push_text(&mut args, "--use-defaults");
    }
    if force {
        push_text(&mut args, "--force");
    }
    assert(views(args@) =~= template_args(
        template_path@,
        output_path@,
        opt_view(*data),
        use_defaults,
        force,
    ));
    args
}

} // verus!
