//! Where output goes and which executable runs the generator.

use vstd::prelude::*;
use crate::model::{opt_view, views, push_owned};

verus! {

/// Whether a path is absolute, as std's `Path::is_absolute` decides it for
/// the target the crate is built for.
pub uninterp spec fn absolute_path(p: Seq<char>) -> bool;

/// `base` joined with `rel`, as std's `Path::join` forms it for the target the
/// crate is built for.
pub uninterp spec fn joined_path(base: Seq<char>, rel: Seq<char>) -> Seq<char>;

/// Relies on std's `Path::is_absolute`. Its answer depends on the text alone.
#[verifier::external_body]
fn path_is_absolute(p: &str) -> (r: bool)
    ensures
        r == absolute_path(p@),
{
    std::path::Path::new(p).is_absolute()
}

/// Relies on std's `Path::join`, read back as text (lossless here, as both
/// parts are valid UTF-8). Its result depends on the two texts alone.
#[verifier::external_body]
fn join_path(base: &str, rel: &str) -> (r: String)
    ensures
        r@ == joined_path(base@, rel@),
{
    std::path::Path::new(base).join(rel).to_string_lossy().into_owned()
}

/// `raw` without a leading "./".
pub open spec fn cleaned_path(raw: Seq<char>) -> Seq<char> {
    if raw.len() >= 2 && raw[0] == '.' && raw[1] == '/' {
        raw.subrange(2, raw.len() as int)
    } else {
        raw
    }
}

/// Where an output path lands: as given when absolute, else under the home
/// directory, else under the current directory; `None` when neither is known.
pub open spec fn resolved_path(raw: Seq<char>, home: Option<Seq<char>>, cwd: Option<Seq<char>>) -> Option<
    Seq<char>,
> {
    let c = cleaned_path(raw);
    if absolute_path(c) {
        Some(c)
    } else {
        match home {
            Some(h) => Some(joined_path(h, c)),
            None => match cwd {
                Some(d) => Some(joined_path(d, c)),
                None => None,
            },
        }
    }
}

/// The view of a result that holds a text on success.
pub open spec fn ok_view(r: Result<String, String>) -> Option<Seq<char>> {
    match r {
        Ok(s) => Some(s@),
        Err(_) => None,
    }
}

/// `raw` without a leading "./".
pub fn strip_current_dir_prefix(raw: &str) -> (r: String)
    ensures
        r@ == cleaned_path(raw@),
{
    let n = raw.unicode_len();
    if n >= 2 && raw.get_char(0) == '.' && raw.get_char(1) == '/' {
        String::from_str(raw.substring_char(2, n))
    } else {
        String::from_str(raw)
    }
}

/// Resolves an output path to an absolute location. `home_dir` is the user's
/// home directory where it could be found; `current_dir` the working
/// directory, or why it could not be found. Fails only when neither is known.
pub fn resolve_output_path(output_path: &str, home_dir: &Option<String>, current_dir: &Result<String, String>) -> (r:
    Result<String, String>)
    ensures
        ok_view(r) == resolved_path(
            output_path@,
            opt_view(*home_dir),
            ok_view(*current_dir),
        ),
        r matches Err(e) ==> current_dir matches Err(c) && e@ == "Failed to resolve output path: "@
            + c@,
{
    let cleaned = strip_current_dir_prefix(output_path);
    if path_is_absolute(cleaned.as_str()) {
        return Ok(cleaned);
    }
    match home_dir {
        Some(h) => Ok(join_path(h.as_str(), cleaned.as_str())),
        None => match current_dir {
            Ok(d) => Ok(join_path(d.as_str(), cleaned.as_str())),
            Err(c) => {
                let mut m = String::from_str("Failed to resolve output path: ");
                m.append(c.as_str());
                Err(m)
            },
        },
    }
}

/// Resolution is idempotent. An absolute path is returned unchanged (the
/// requirement is what std documents: no absolute path begins with '.'), so a
/// resolved path that is absolute resolves to itself again; and with a home
/// directory known, a path resolves to the same place whatever the current
/// directory is, on every call.
pub proof fn lemma_resolution_idempotent(
    raw: Seq<char>,
    home: Option<Seq<char>>,
    cwd: Option<Seq<char>>,
    other_cwd: Option<Seq<char>>,
)
    requires
        raw.len() > 0 && raw[0] == '.' ==> !absolute_path(raw),
    ensures
        absolute_path(raw) ==> resolved_path(raw, home, cwd) == Some(raw),
        home is Some ==> resolved_path(raw, home, cwd) == resolved_path(raw, home, other_cwd),
{
}

/// How the application runs: from the source workspace, or as a packaged bundle.
#[derive(Debug, Clone, Copy, PartialEq, Eq)]
pub enum DeploymentMode {
    Development,
    Packaged,
}

/// The operating system the application runs on.
#[derive(Debug, Clone, Copy, PartialEq, Eq)]
pub enum HostOs {
    Linux,
    MacOs,
    Windows,
}

/// The processor architecture the application runs on.
#[derive(Debug, Clone, Copy, PartialEq, Eq)]
pub enum HostArch {
    X86_64,
    Aarch64,
}

/// The target triple of a platform.
pub open spec fn target_triple(os: HostOs, arch: HostArch) -> Seq<char> {
    match (os, arch) {
        (HostOs::Linux, HostArch::X86_64) => "x86_64-unknown-linux-gnu"@,
        (HostOs::Linux, HostArch::Aarch64) => "aarch64-unknown-linux-gnu"@,
        (HostOs::MacOs, HostArch::X86_64) => "x86_64-apple-darwin"@,
        (HostOs::MacOs, HostArch::Aarch64) => "aarch64-apple-darwin"@,
        (HostOs::Windows, HostArch::X86_64) => "x86_64-pc-windows-msvc"@,
        (HostOs::Windows, HostArch::Aarch64) => "aarch64-pc-windows-msvc"@,
    }
}

/// The file name of the bundled generator binary for a platform.
pub open spec fn binary_name(os: HostOs, arch: HostArch) -> Seq<char> {
    if os == HostOs::Windows {
        "upg-"@ + target_triple(os, arch) + ".exe"@
    } else {
        "upg-"@ + target_triple(os, arch)
    }
}

/// The locations where the generator may stand, in the order they are tried:
/// the built script under the workspace in development; the binary at the root
/// of the resource bundle, then under its `binaries` directory, when packaged.
pub open spec fn cli_candidates_at(mode: DeploymentMode, os: HostOs, arch: HostArch, root: Seq<char>) -> Seq<
    Seq<char>,
> {
    match mode {
        DeploymentMode::Development => seq![joined_path(root, "packages/cli/dist/bin/upg.js"@)],
        DeploymentMode::Packaged => seq![
            joined_path(root, binary_name(os, arch)),
            joined_path(joined_path(root, "binaries"@), binary_name(os, arch)),
        ],
    }
}

/// The target triple of a platform.
pub fn get_target_triple(os: HostOs, arch: HostArch) -> (r: &'static str)
    ensures
        r@ == target_triple(os, arch),
{
    match (os, arch) {
        (HostOs::Linux, HostArch::X86_64) => "x86_64-unknown-linux-gnu",
        (HostOs::Linux, HostArch::Aarch64) => "aarch64-unknown-linux-gnu",
        (HostOs::MacOs, HostArch::X86_64) => "x86_64-apple-darwin",
        (HostOs::MacOs, HostArch::Aarch64) => "aarch64-apple-darwin",
        (HostOs::Windows, HostArch::X86_64) => "x86_64-pc-windows-msvc",
        (HostOs::Windows, HostArch::Aarch64) => "aarch64-pc-windows-msvc",
    }
}

/// The file name of the bundled generator binary for a platform.
pub fn cli_binary_name(os: HostOs, arch: HostArch) -> (r: String)
    ensures
        r@ == binary_name(os, arch),
{
    let mut name = String::from_str("upg-");
    name.append(get_target_triple(os, arch));
    if let HostOs::Windows = os {
        name.append(".exe");
    }
    name
}

/// The locations where the generator may stand, in the order they are tried.
/// `root` is the workspace root in development and the resource directory
/// when packaged.
pub fn cli_candidates(mode: DeploymentMode, os: HostOs, arch: HostArch, root: &str) -> (r: Vec<String>)
    ensures
        views(r@) == cli_candidates_at(mode, os, arch, root@),
{
    let mut r: Vec<String> = Vec::new();
    match mode {
        DeploymentMode::Development => {
            push_owned(&mut r, join_path(root, "packages/cli/dist/bin/upg.js"));
        },
        DeploymentMode::Packaged => {
            let name = cli_binary_name(os, arch);
            push_owned(&mut r, join_path(root, name.as_str()));
            let sub = join_path(root, "binaries");
            push_owned(&mut r, join_path(sub.as_str(), name.as_str()));
        },
    }
    assert(views(r@) =~= cli_candidates_at(mode, os, arch, root@));
    r
}

/// The executable that runs the generator and the arguments that come before
/// the generator's own.
#[derive(Debug, Clone, PartialEq, Eq)]
pub struct CliCommand {
    pub program: String,
    pub base_args: Vec<String>,
}

/// The index of the first `true`, if any.
pub open spec fn first_present(present: Seq<bool>) -> Option<int>
    decreases present.len(),
{
    if present.len() == 0 {
        None
    } else {
        match first_present(present.drop_last()) {
            Some(i) => Some(i),
            None => if present.last() {
                Some(present.len() - 1)
            } else {
                None
            },
        }
    }
}

/// The command for a generator found at `path`: through node in development,
/// the binary itself when packaged.
pub open spec fn command_for(mode: DeploymentMode, path: Seq<char>) -> (Seq<char>, Seq<Seq<char>>) {
    match mode {
        DeploymentMode::Development => ("node"@, seq![path]),
        DeploymentMode::Packaged => (path, seq![]),
    }
}

/// `s` between double quotes.
pub open spec fn quoted(s: Seq<char>) -> Seq<char> {
    seq!['"'] + s + seq!['"']
}

/// Why no generator was found among the candidates.
pub open spec fn missing_cli_message(mode: DeploymentMode, candidates: Seq<Seq<char>>) -> Seq<char> {
    match mode {
        DeploymentMode::Development => "CLI not built. Run 'pnpm build' first. Expected: "@ + quoted(
            candidates[0],
        ),
        DeploymentMode::Packaged => "CLI binary not found: "@ + quoted(candidates[0]) + " or "@
            + quoted(candidates[1]) + ". This is a packaging error."@,
    }
}

proof fn lemma_first_present_step(present: Seq<bool>, i: int)
    requires
        0 <= i < present.len(),
        first_present(present.subrange(0, i)) is None,
    ensures
        first_present(present.subrange(0, i + 1)) == if present[i] {
            Some(i)
        } else {
            None::<int>
        },
{
    assert(present.subrange(0, i + 1).drop_last() =~= present.subrange(0, i));
}

proof fn lemma_first_present_extend(present: Seq<bool>, k: int, i: int)
    requires
        0 <= k <= present.len(),
        first_present(present.subrange(0, k)) == Some(i),
    ensures
        first_present(present) == Some(i),
    decreases present.len() - k,
{
    if k < present.len() {
        assert(present.subrange(0, k + 1).drop_last() =~= present.subrange(0, k));
        lemma_first_present_extend(present, k + 1, i);
    } else {
        assert(present.subrange(0, k) =~= present);
    }
}

fn quoted_text(s: &str) -> (r: String)
    ensures
        r@ == quoted(s@),
{
    proof {
        reveal_strlit("\"");
    }
    let mut r = String::from_str("\"");
    r.append(s);
    r.append("\"");
    assert(r@ =~= quoted(s@));
    r
}

/// Picks the first candidate that exists (`present[i]` tells whether
/// `candidates[i]` does) and the command that runs it; fails with a message
/// naming the candidates when none exists.
pub fn select_cli_command(mode: DeploymentMode, candidates: &Vec<String>, present: &Vec<bool>) -> (r: Result<
    CliCommand,
    String,
>)
    requires
        candidates.len() == present.len(),
        candidates.len() == match mode {
            DeploymentMode::Development => 1nat,
            DeploymentMode::Packaged => 2nat,
        },
    ensures
        r is Ok <==> first_present(present@) is Some,
        r matches Ok(c) ==> (c.program@, views(c.base_args@)) == command_for(
            mode,
            candidates@[first_present(present@)->0]@,
        ),
        r matches Err(e) ==> e@ == missing_cli_message(mode, views(candidates@)),
{
    let mut i: usize = 0;
    assert(present@.subrange(0, 0) =~= Seq::<bool>::empty());
    while i < present.len()
        invariant
            i <= present.len(),
            candidates.len() == present.len(),
            first_present(present@.subrange(0, i as int)) is None,
        decreases present.len() - i,
    {
        proof {
            lemma_first_present_step(present@, i as int);
        }
        if present[i] {
            proof {
                lemma_first_present_extend(present@, i + 1, i as int);
            }
            let path = candidates[i].clone();
            let mut base_args: Vec<String> = Vec::new();
            let program = match mode {
                DeploymentMode::Development => {
                    push_owned(&mut base_args, path);
                    String::from_str("node")
                },
                DeploymentMode::Packaged => path,
            };
            assert(views(base_args@) =~= command_for(mode, candidates@[i as int]@).1);
            return Ok(CliCommand { program, base_args });
        }
        i = i + 1;
    }
    assert(present@.subrange(0, present.len() as int) =~= present@);
    match mode {
        DeploymentMode::Development => {
            let mut m = String::from_str("CLI not built. Run 'pnpm build' first. Expected: ");
            m.append(quoted_text(candidates[0].as_str()).as_str());
            Err(m)
        },
        DeploymentMode::Packaged => {
            let mut m = String::from_str("CLI binary not found: ");
            m.append(quoted_text(candidates[0].as_str()).as_str());
            m.append(" or ");
            m.append(quoted_text(candidates[1].as_str()).as_str());
            m.append(". This is a packaging error.");
            Err(m)
        },
    }
}

} // verus!
