use upg_desktop::interpret::{
    failure_message_of, interpret_exit_status, interpret_generation, interpret_reply, interpret_template_run,
    listing_needed,
};
use upg_desktop::json::{JsonNumber, JsonValue};
use upg_desktop::model::{GenerationMode, GenerationRequest, ProcessOutcome};
use upg_desktop::orchestrate::plan_generation;
use upg_desktop::paths::CliCommand;

fn s(v: &str) -> String {
    v.to_string()
}

fn obj(members: Vec<(&str, JsonValue)>) -> JsonValue {
    JsonValue::Object(members.into_iter().map(|(k, v)| (k.to_string(), v)).collect())
}

fn text(v: &str) -> JsonValue {
    JsonValue::Str(v.to_string())
}

fn outcome(success: bool, stdout: &str, stderr: &str, code: Option<i32>) -> ProcessOutcome {
    ProcessOutcome { success, stdout: s(stdout), stderr: s(stderr), exit_code: code }
}

fn request(seed: Option<u64>, out: &str) -> GenerationRequest {
    GenerationRequest { mode: GenerationMode::Procedural, seed, stack: None, output_path: s(out), enrichment: None }
}

#[test]
fn scenario_json_success() {
    let req = request(Some(42), "./out");
    let command = CliCommand { program: s("/res/upg-x86_64-unknown-linux-gnu"), base_args: vec![] };
    let plan = plan_generation(&req, &Some(s("/home/u")), &Ok(s("/tmp")), Ok(command)).unwrap();
    assert_eq!(plan.output_path, "/home/u/out");
    assert_eq!(plan.args, vec![s("seed"), s("42"), s("--output"), s("/home/u/out"), s("--json")]);
    let stdout = "{\"success\":true,\"files_generated\":[\"a.txt\",\"b.txt\"]}";
    let reply = || {
        obj(vec![
            ("success", JsonValue::Bool(true)),
            ("files_generated", JsonValue::Array(vec![text("a.txt"), text("b.txt")])),
        ])
    };
    let run = outcome(true, stdout, "", Some(0));
    assert!(!listing_needed(&run, &Some(reply())));
    let r = interpret_generation(&run, &Some(reply()), &vec![], plan.seed.unwrap(), &plan.output_path, 5);
    assert!(r.success);
    assert_eq!(r.files_generated, vec![s("a.txt"), s("b.txt")]);
    assert_eq!(r.output_path, "/home/u/out");
    assert_eq!(r.message, "Generated 2 files for seed 42 in 5ms");
    assert_eq!(r.duration_ms, 5);
}

#[test]
fn scenario_exit_failure_uses_last_stderr_line() {
    let run = outcome(false, "", "error: missing dep\nfatal: aborting", Some(1));
    assert!(!listing_needed(&run, &None));
    let r = interpret_generation(&run, &None, &vec![s("ignored")], 42, "/home/u/out", 9);
    assert!(!r.success);
    assert_eq!(r.message, "fatal: aborting");
    assert!(r.files_generated.is_empty());
    assert_eq!(r.output_path, "/home/u/out");
}

#[test]
fn json_reply_message_and_non_string_files() {
    let reply = obj(vec![
        ("success", JsonValue::Bool(true)),
        ("message", text("done")),
        (
            "files_generated",
            JsonValue::Array(vec![text("x"), JsonValue::Null, JsonValue::Number(JsonNumber { text: s("3"), as_u64: Some(3) }), text("y")]),
        ),
    ]);
    let r = interpret_generation(&outcome(false, "{}", "", Some(2)), &Some(reply), &vec![], 1, "/o", 0);
    assert!(r.success);
    assert_eq!(r.message, "done");
    assert_eq!(r.files_generated, vec![s("x"), s("y")]);
}

#[test]
fn json_reply_failure_carries_error() {
    let reply = obj(vec![("success", JsonValue::Bool(false)), ("error", text("bad seed"))]);
    let r = interpret_generation(&outcome(true, "", "", Some(0)), &Some(reply), &vec![s("a")], 1, "/o", 0);
    assert!(!r.success);
    assert_eq!(r.message, "bad seed");
    assert!(r.files_generated.is_empty());
    let no_error = obj(vec![("files_generated", JsonValue::Array(vec![text("a")]))]);
    let r = interpret_generation(&outcome(true, "", "", Some(0)), &Some(no_error), &vec![], 1, "/o", 0);
    assert!(!r.success);
    assert_eq!(r.message, "Generation failed");
}

#[test]
fn exit_success_without_json_uses_listing() {
    let run = outcome(true, "Done!\n", "", Some(0));
    assert!(listing_needed(&run, &None));
    let listing = vec![s("README.md"), s("src/main.rs")];
    let r = interpret_generation(&run, &None, &listing, 77, "/p", 120);
    assert!(r.success);
    assert_eq!(r.files_generated, listing);
    assert_eq!(r.message, "Generated 2 files for seed 77 in 120ms");
}

#[test]
fn failure_message_fallbacks() {
    assert_eq!(failure_message_of(&outcome(false, "out line\n", "", Some(3))), "out line");
    assert_eq!(failure_message_of(&outcome(false, "", "", Some(3))), "CLI exited with code Some(3)");
    assert_eq!(failure_message_of(&outcome(false, "", "", Some(-9))), "CLI exited with code Some(-9)");
    assert_eq!(failure_message_of(&outcome(false, "", "", None)), "CLI exited with code None");
    assert_eq!(failure_message_of(&outcome(false, "x", "\n\n", Some(1))), "x");
}

#[test]
fn template_run_results() {
    let ok = interpret_template_run(&outcome(true, "", "", Some(0)), &vec![s("a"), s("b/c")], "/d", 31);
    assert!(ok.success);
    assert_eq!(ok.message, "Generated 2 files from template in 31ms");
    assert_eq!(ok.files_generated, vec![s("a"), s("b/c")]);
    let bad = interpret_template_run(&outcome(false, "", "boom\n", Some(1)), &vec![s("a")], "/d", 1);
    assert!(!bad.success);
    assert_eq!(bad.message, "boom");
    assert!(bad.files_generated.is_empty());
}

#[test]
fn tiers_answer_on_their_own() {
    let doc = obj(vec![("success", JsonValue::Bool(true)), ("files_generated", JsonValue::Array(vec![text("f")]))]);
    let r = interpret_reply(&doc, 3, "/o", 4);
    assert!(r.success);
    assert_eq!(r.files_generated, vec![s("f")]);
    assert_eq!(r.message, "Generated 1 files for seed 3 in 4ms");
    let not_object = interpret_reply(&JsonValue::Bool(true), 3, "/o", 4);
    assert!(!not_object.success);
    assert_eq!(not_object.message, "Generation failed");
    let exit = interpret_exit_status(&outcome(true, "", "", Some(0)), &vec![], 3, "/o", 4);
    assert!(exit.success);
    assert!(exit.files_generated.is_empty());
    assert_eq!(exit.message, "Generated 0 files for seed 3 in 4ms");
}
