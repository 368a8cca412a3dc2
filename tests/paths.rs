use upg_desktop::model::{GenerationMode, GenerationRequest};
use upg_desktop::orchestrate::{plan_generation, plan_preview, plan_template, request_seed, direct_run_args};
use upg_desktop::paths::{
    cli_binary_name, cli_candidates, get_target_triple, resolve_output_path, select_cli_command,
    strip_current_dir_prefix, CliCommand, DeploymentMode, HostArch, HostOs,
};

fn s(v: &str) -> String {
    v.to_string()
}

#[test]
fn strip_prefix_only_at_start() {
    assert_eq!(strip_current_dir_prefix("./out"), "out");
    assert_eq!(strip_current_dir_prefix("out/./x"), "out/./x");
    assert_eq!(strip_current_dir_prefix("."), ".");
    assert_eq!(strip_current_dir_prefix("./"), "");
}

#[test]
fn absolute_path_is_unchanged() {
    let r = resolve_output_path("/srv/projects/app", &Some(s("/home/u")), &Ok(s("/tmp")));
    assert_eq!(r, Ok(s("/srv/projects/app")));
    let again = resolve_output_path(&r.unwrap(), &Some(s("/home/u")), &Ok(s("/tmp")));
    assert_eq!(again, Ok(s("/srv/projects/app")));
}

#[test]
fn relative_path_lands_under_home() {
    let a = resolve_output_path("./out", &Some(s("/home/u")), &Ok(s("/tmp")));
    let b = resolve_output_path("./out", &Some(s("/home/u")), &Ok(s("/elsewhere")));
    assert_eq!(a, Ok(s("/home/u/out")));
    assert_eq!(a, b);
    assert_eq!(resolve_output_path("a/b", &Some(s("/home/u/")), &Err(s("gone"))), Ok(s("/home/u/a/b")));
}

#[test]
fn relative_path_falls_back_to_current_dir() {
    assert_eq!(resolve_output_path("out", &None, &Ok(s("/work"))), Ok(s("/work/out")));
    assert_eq!(
        resolve_output_path("out", &None, &Err(s("No such file or directory"))),
        Err(s("Failed to resolve output path: No such file or directory"))
    );
}

#[test]
fn target_triples_and_binary_names() {
    assert_eq!(get_target_triple(HostOs::Linux, HostArch::X86_64), "x86_64-unknown-linux-gnu");
    assert_eq!(get_target_triple(HostOs::Linux, HostArch::Aarch64), "aarch64-unknown-linux-gnu");
    assert_eq!(get_target_triple(HostOs::MacOs, HostArch::X86_64), "x86_64-apple-darwin");
    assert_eq!(get_target_triple(HostOs::MacOs, HostArch::Aarch64), "aarch64-apple-darwin");
    assert_eq!(get_target_triple(HostOs::Windows, HostArch::X86_64), "x86_64-pc-windows-msvc");
    assert_eq!(get_target_triple(HostOs::Windows, HostArch::Aarch64), "aarch64-pc-windows-msvc");
    assert_eq!(cli_binary_name(HostOs::Linux, HostArch::X86_64), "upg-x86_64-unknown-linux-gnu");
    assert_eq!(cli_binary_name(HostOs::Windows, HostArch::Aarch64), "upg-aarch64-pc-windows-msvc.exe");
}

#[test]
fn candidates_per_mode() {
    assert_eq!(
        cli_candidates(DeploymentMode::Development, HostOs::Linux, HostArch::X86_64, "/repo"),
        vec![s("/repo/packages/cli/dist/bin/upg.js")]
    );
    assert_eq!(
        cli_candidates(DeploymentMode::Packaged, HostOs::MacOs, HostArch::Aarch64, "/app/res"),
        vec![s("/app/res/upg-aarch64-apple-darwin"), s("/app/res/binaries/upg-aarch64-apple-darwin")]
    );
}

#[test]
fn command_selection() {
    let dev = vec![s("/repo/packages/cli/dist/bin/upg.js")];
    let c = select_cli_command(DeploymentMode::Development, &dev, &vec![true]).unwrap();
    assert_eq!(c, CliCommand { program: s("node"), base_args: dev.clone() });
    assert_eq!(
        select_cli_command(DeploymentMode::Development, &dev, &vec![false]),
        Err(s("CLI not built. Run 'pnpm build' first. Expected: \"/repo/packages/cli/dist/bin/upg.js\""))
    );
    let packed = vec![s("/r/upg-x"), s("/r/binaries/upg-x")];
    let c = select_cli_command(DeploymentMode::Packaged, &packed, &vec![false, true]).unwrap();
    assert_eq!(c, CliCommand { program: s("/r/binaries/upg-x"), base_args: vec![] });
    let c = select_cli_command(DeploymentMode::Packaged, &packed, &vec![true, true]).unwrap();
    assert_eq!(c.program, "/r/upg-x");
    assert_eq!(
        select_cli_command(DeploymentMode::Packaged, &packed, &vec![false, false]),
        Err(s("CLI binary not found: \"/r/upg-x\" or \"/r/binaries/upg-x\". This is a packaging error."))
    );
}

fn request(seed: Option<u64>, out: &str) -> GenerationRequest {
    GenerationRequest { mode: GenerationMode::Procedural, seed, stack: None, output_path: s(out), enrichment: None }
}

#[test]
fn plans_refuse_missing_seed_first() {
    let cmd = || Ok(CliCommand { program: s("upg"), base_args: vec![] });
    assert_eq!(
        plan_generation(&request(None, "out"), &None, &Err(s("x")), Err(s("no cli"))),
        Err(s("Seed is required for procedural generation"))
    );
    assert_eq!(plan_preview(&request(None, ""), cmd()), Err(s("Seed is required for procedural preview")));
    assert_eq!(request_seed(&request(Some(4), ""), true), Ok(4));
    assert_eq!(
        plan_generation(&request(Some(1), "out"), &None, &Err(s("x")), Err(s("no cli"))),
        Err(s("Failed to resolve output path: x"))
    );
    assert_eq!(
        plan_generation(&request(Some(1), "out"), &Some(s("/h")), &Err(s("x")), Err(s("no cli"))),
        Err(s("no cli"))
    );
}

#[test]
fn plans_put_base_args_first() {
    let cmd = CliCommand { program: s("node"), base_args: vec![s("/w/upg.js")] };
    let p = plan_preview(&request(Some(8), ""), Ok(cmd)).unwrap();
    assert_eq!(p.program, "node");
    assert_eq!(p.args, vec![s("/w/upg.js"), s("preview"), s("8")]);
    let cmd = CliCommand { program: s("node"), base_args: vec![s("/w/upg.js")] };
    let t = plan_template("/t/x", "site", &None, true, false, &Some(s("/h")), &Ok(s("/c")), Ok(cmd)).unwrap();
    assert_eq!(t.output_path, "/h/site");
    assert_eq!(t.args, vec![s("/w/upg.js"), s("generate"), s("/t/x"), s("--dest"), s("/h/site"), s("--use-defaults")]);
    assert_eq!(
        plan_template("/t/x", "site", &None, false, false, &None, &Err(s("e")), Err(s("no cli"))),
        Err(s("no cli"))
    );
    let cmd = CliCommand { program: s("upg"), base_args: vec![s("--quiet")] };
    assert_eq!(direct_run_args(&cmd, vec![s("list")]), vec![s("--quiet"), s("list")]);
}
