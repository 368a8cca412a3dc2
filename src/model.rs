//! The request and result types exchanged with the calling layer.

use vstd::prelude::*;

verus! {

/// How a project is produced. Only seed-driven generation is supported.
#[derive(Debug, Clone, Copy, PartialEq, Eq)]
pub enum GenerationMode {
    /// Seed -> stack -> files, driven by the external generator.
    Procedural,
}

/// Optional stack constraints; each present field is handed to the generator verbatim.
#[derive(Debug, PartialEq, Eq)]
pub struct TechStackConfig {
    pub archetype: Option<String>,
    pub language: Option<String>,
    pub framework: Option<String>,
    pub database: Option<String>,
    pub packaging: Option<String>,
    pub cicd: Option<String>,
}

/// Settings of the enrichment pass. `None` in a sub-flag defers to the depth's default.
#[derive(Debug, PartialEq, Eq)]
pub struct EnrichmentConfig {
    pub enabled: bool,
    /// One of minimal, standard, full.
    pub depth: String,
    pub cicd: Option<bool>,
    pub release: Option<bool>,
    pub fill_logic: Option<bool>,
    pub tests: Option<bool>,
    pub docker_prod: Option<bool>,
    pub linting: Option<bool>,
    pub env_files: Option<bool>,
    pub docs: Option<bool>,
}

/// A generation or preview request.
#[derive(Debug, PartialEq, Eq)]
pub struct GenerationRequest {
    pub mode: GenerationMode,
    /// Required in procedural mode.
    pub seed: Option<u64>,
    pub stack: Option<TechStackConfig>,
    pub output_path: String,
    pub enrichment: Option<EnrichmentConfig>,
}

/// What a generation request produced.
#[derive(Debug, PartialEq, Eq)]
pub struct GenerationResult {
    pub success: bool,
    pub message: String,
    pub files_generated: Vec<String>,
    pub output_path: String,
    pub duration_ms: u64,
}

/// What one run of the generator process left behind: its exit status and
/// both output streams, decoded.
#[derive(Debug, PartialEq, Eq)]
pub struct ProcessOutcome {
    pub success: bool,
    pub stdout: String,
    pub stderr: String,
    pub exit_code: Option<i32>,
}

/// A process outcome together with the time the run took, as handed to a caller
/// that runs generator commands directly.
#[derive(Debug, PartialEq, Eq)]
pub struct CLIResult {
    pub success: bool,
    pub stdout: String,
    pub stderr: String,
    pub exit_code: Option<i32>,
    pub duration_ms: u64,
}

/// What a template-driven generation produced.
#[derive(Debug, PartialEq, Eq)]
pub struct TemplateGenerationResult {
    pub success: bool,
    pub message: String,
    pub files_generated: Vec<String>,
    pub output_path: String,
    pub duration_ms: u64,
}

/// The view of an optional string.
pub open spec fn opt_view(o: Option<String>) -> Option<Seq<char>> {
    match o {
        Some(s) => Some(s@),
        None => None,
    }
}

/// The views of a sequence of strings.
pub open spec fn views(v: Seq<String>) -> Seq<Seq<char>> {
    v.map_values(|s: String| s@)
}

/// Appends `s` to `v`.
pub fn push_text(v: &mut Vec<String>, s: &str)
    ensures
        views(final(v)@) == views(old(v)@).push(s@),
{
    v.push(String::from_str(s));
    assert(views(v@) =~= views(old(v)@).push(s@));
}

/// Appends an owned string to `v`.
pub fn push_owned(v: &mut Vec<String>, s: String)
    ensures
        views(final(v)@) == views(old(v)@).push(s@),
{
    let ghost sv = s@;
    v.push(s);
    assert(views(v@) =~= views(old(v)@).push(sv));
}

/// A copy of `s`, element by element.
pub fn copy_strings(s: &Vec<String>) -> (r: Vec<String>)
    ensures
        r@ == s@,
{
    let mut r: Vec<String> = Vec::new();
    let mut i: usize = 0;
    while i < s.len()
        invariant
            i <= s.len(),
            r@ == s@.subrange(0, i as int),
        decreases s.len() - i,
    {
        r.push(s[i].clone());
        i = i + 1;
        assert(r@ =~= s@.subrange(0, i as int));
    }
    assert(r@ =~= s@);
    r
}

} // verus!
