//! The steps of a request up to the point where the generator runs: the
//! seed, the destination, the command and its argument vector.

use vstd::prelude::*;
use crate::args::{GeneratorAction, generator_args, template_args, build_cli_args, build_preview_args, build_template_args};
use crate::model::{CLIResult, GenerationMode, GenerationRequest, ProcessOutcome, opt_view, views, copy_strings};
use crate::paths::{CliCommand, resolved_path, ok_view, resolve_output_path};

verus! {

/// A command line ready to run: the executable and all its arguments, and for
/// generation the resolved output location.
#[derive(Debug, PartialEq, Eq)]
pub struct RunPlan {
    pub program: String,
    pub args: Vec<String>,
    pub output_path: String,
    /// The seed the run is for; none for a template run.
    pub seed: Option<u64>,
}

/// `a` followed by `b`.
pub fn concat_strings(a: &Vec<String>, b: Vec<String>) -> (r: Vec<String>)
    ensures
        views(r@) == views(a@) + views(b@),
{
    let mut r = copy_strings(a);
    let mut rest = b;
    r.append(&mut rest);
    assert(views(r@) =~= views(a@) + views(b@));
    r
}

/// The seed of a request; a request without one is refused.
pub fn request_seed(request: &GenerationRequest, preview: bool) -> (r: Result<u64, String>)
    ensures
        match r {
            Ok(s) => request.seed == Some(s),
            Err(e) => request.seed is None && e@ == if preview {
                "Seed is required for procedural preview"@
            } else {
                "Seed is required for procedural generation"@
            },
        },
{
    match request.mode {
        GenerationMode::Procedural => match request.seed {
            Some(s) => Ok(s),
            None => if preview {
                Err(String::from_str("Seed is required for procedural preview"))
            } else {
                Err(String::from_str("Seed is required for procedural generation"))
            },
        },
    }
}

/// Plans a generation: takes the seed, resolves the output path (against the
/// home directory, else the current directory), and puts the command's base
/// arguments before `seed <seed> --output <path> --json [stack] [enrichment]`.
/// Fails, in this order, on a missing seed, an unresolvable path, and a
/// command that could not be found.
pub fn plan_generation(
    request: &GenerationRequest,
    home_dir: &Option<String>,
    current_dir: &Result<String, String>,
    command: Result<CliCommand, String>,
) -> (r: Result<RunPlan, String>)
    ensures
        r is Ok <==> request.seed is Some && resolved_path(
            request.output_path@,
            opt_view(*home_dir),
            ok_view(*current_dir),
        ) is Some && command is Ok,
        r matches Ok(p) ==> {
            let out = resolved_path(request.output_path@, opt_view(*home_dir), ok_view(*current_dir))->0;
            &&& p.seed == request.seed
            &&& p.output_path@ == out
            &&& p.program@ == command->Ok_0.program@
            &&& views(p.args@) == views(command->Ok_0.base_args@) + generator_args(
                GeneratorAction::Seed,
                request.seed->0,
                out,
                request.stack,
                request.enrichment,
            )
        },
        r matches Err(e) ==> if request.seed is None {
            e@ == "Seed is required for procedural generation"@
        } else if resolved_path(request.output_path@, opt_view(*home_dir), ok_view(*current_dir)) is None {
            current_dir is Err && e@ == "Failed to resolve output path: "@ + current_dir->Err_0@
        } else {
            command is Err && e == command->Err_0
        },
{
    let seed = match request_seed(request, false) {
        Ok(s) => s,
        Err(e) => return Err(e),
    };
    let out = match resolve_output_path(request.output_path.as_str(), home_dir, current_dir) {
        Ok(p) => p,
        Err(e) => return Err(e),
    };
    let command = match command {
        Ok(c) => c,
        Err(e) => return Err(e),
    };
    let cli_args = build_cli_args(seed, out.as_str(), &request.stack, &request.enrichment);
    let args = concat_strings(&command.base_args, cli_args);
    Ok(RunPlan { program: command.program, args, output_path: out, seed: Some(seed) })
}

/// Plans a preview: takes the seed and puts the command's base arguments
/// before `preview <seed> [stack] [enrichment]`. Fails, in this order, on a
/// missing seed and a command that could not be found.
pub fn plan_preview(request: &GenerationRequest, command: Result<CliCommand, String>) -> (r: Result<
    RunPlan,
    String,
>)
    ensures
        r is Ok <==> request.seed is Some && command is Ok,
        r matches Ok(p) ==> {
            &&& p.seed == request.seed
            &&& p.output_path@.len() == 0
            &&& p.program@ == command->Ok_0.program@
            &&& views(p.args@) == views(command->Ok_0.base_args@) + generator_args(
                GeneratorAction::Preview,
                request.seed->0,
                ""@,
                request.stack,
                request.enrichment,
            )
        },
        r matches Err(e) ==> if request.seed is None {
            e@ == "Seed is required for procedural preview"@
        } else {
            command is Err && e == command->Err_0
        },
{
    let seed = match request_seed(request, true) {
        Ok(s) => s,
        Err(e) => return Err(e),
    };
    let command = match command {
        Ok(c) => c,
        Err(e) => return Err(e),
    };
    let preview_args = build_preview_args(seed, &request.stack, &request.enrichment);
    let args = concat_strings(&command.base_args, preview_args);
    Ok(RunPlan { program: command.program, args, output_path: String::new(), seed: Some(seed) })
}

/// The arguments that preview one seed of a sweep: the command's base
/// arguments, then `preview <seed>`.
pub fn sweep_preview_args(command: &CliCommand, seed: u64) -> (r: Vec<String>)
    ensures
        views(r@) == views(command.base_args@) + generator_args(
            GeneratorAction::Preview,
            seed,
            ""@,
            None,
            None,
        ),
{
    concat_strings(&command.base_args, build_preview_args(seed, &None, &None))
}

/// The seeds a sweep previews, in order: `count` of them from `start_seed`
/// (1 when not given).
pub fn sweep_seeds(count: u32, start_seed: Option<u64>) -> (r: Vec<u64>)
    requires
        match start_seed {
            Some(s) => s + count <= u64::MAX + 1,
            None => 1 + count <= u64::MAX + 1,
        },
    ensures
        r@.len() == count,
        forall|i: int|
            0 <= i < count ==> r@[i] == match start_seed {
                Some(s) => s,
                None => 1,
            } + i,
{
    let start: u64 = match start_seed {
        Some(s) => s,
        None => 1,
    };
    let mut r: Vec<u64> = Vec::new();
    let mut i: u32 = 0;
    while i < count
        invariant
            i <= count,
            start + count <= u64::MAX + 1,
            r@.len() == i,
            forall|j: int| 0 <= j < i ==> r@[j] == start + j,
        decreases count - i,
    {
        r.push(start + i as u64);
        i = i + 1;
    }
    r
}

/// Plans a template run: resolves the output path and puts the command's base
/// arguments before `generate <template> --dest <path> [--data <json>]
/// [--use-defaults] [--force]`. Fails, in this order, on a command that could
/// not be found and an unresolvable path.
pub fn plan_template(
    template_path: &str,
    output_path: &str,
    data: &Option<String>,
    use_defaults: bool,
    force: bool,
    home_dir: &Option<String>,
    current_dir: &Result<String, String>,
    command: Result<CliCommand, String>,
) -> (r: Result<RunPlan, String>)
    ensures
        r is Ok <==> command is Ok && resolved_path(output_path@, opt_view(*home_dir), ok_view(*current_dir))
            is Some,
        r matches Ok(p) ==> {
            let out = resolved_path(output_path@, opt_view(*home_dir), ok_view(*current_dir))->0;
            &&& p.seed is None
            &&& p.output_path@ == out
            &&& p.program@ == command->Ok_0.program@
            &&& views(p.args@) == views(command->Ok_0.base_args@) + template_args(
                template_path@,
                out,
                opt_view(*data),
                use_defaults,
                force,
            )
        },
        r matches Err(e) ==> if command is Err {
            e == command->Err_0
        } else {
            current_dir is Err && e@ == "Failed to resolve output path: "@ + current_dir->Err_0@
        },
{
    let command = match command {
        Ok(c) => c,
        Err(e) => return Err(e),
    };
    let out = match resolve_output_path(output_path, home_dir, current_dir) {
        Ok(p) => p,
        Err(e) => return Err(e),
    };
    let cli_args = build_template_args(template_path, out.as_str(), data, use_defaults, force);
    let args = concat_strings(&command.base_args, cli_args);
    Ok(RunPlan { program: command.program, args, output_path: out, seed: None })
}

/// The full argument vector of a direct run: the command's base arguments,
/// then the caller's.
pub fn direct_run_args(command: &CliCommand, args: Vec<String>) -> (r: Vec<String>)
    ensures
        views(r@) == views(command.base_args@) + views(args@),
{
    concat_strings(&command.base_args, args)
}

/// A process outcome with the time the run took.
pub fn cli_result(outcome: ProcessOutcome, duration_ms: u64) -> (r: CLIResult)
    ensures
        r.success == outcome.success,
        r.stdout == outcome.stdout,
        r.stderr == outcome.stderr,
        r.exit_code == outcome.exit_code,
        r.duration_ms == duration_ms,
{
    CLIResult {
        success: outcome.success,
        stdout: outcome.stdout,
        stderr: outcome.stderr,
        exit_code: outcome.exit_code,
        duration_ms,
    }
}

} // verus!
