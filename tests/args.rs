use upg_desktop::args::{
    build_cli_args, build_generator_args, build_preview_args, build_template_args,
    default_enrichment_depth, GeneratorAction,
};
use upg_desktop::model::{EnrichmentConfig, TechStackConfig};

fn stack(
    archetype: Option<&str>,
    language: Option<&str>,
    framework: Option<&str>,
    database: Option<&str>,
    packaging: Option<&str>,
    cicd: Option<&str>,
) -> TechStackConfig {
    TechStackConfig {
        archetype: archetype.map(String::from),
        language: language.map(String::from),
        framework: framework.map(String::from),
        database: database.map(String::from),
        packaging: packaging.map(String::from),
        cicd: cicd.map(String::from),
    }
}

fn enrichment(enabled: bool, depth: &str) -> EnrichmentConfig {
    EnrichmentConfig {
        enabled,
        depth: depth.to_string(),
        cicd: None,
        release: None,
        fill_logic: None,
        tests: None,
        docker_prod: None,
        linting: None,
        env_files: None,
        docs: None,
    }
}

fn strs(v: &[&str]) -> Vec<String> {
    v.iter().map(|s| s.to_string()).collect()
}

#[test]
fn generation_args_without_options() {
    let args = build_cli_args(42, "/home/u/out", &None, &None);
    assert_eq!(args, strs(&["seed", "42", "--output", "/home/u/out", "--json"]));
}

#[test]
fn stack_pairs_follow_field_order() {
    let s = stack(Some("api"), Some("rust"), Some("axum"), Some("postgres"), Some("docker"), Some("github"));
    let args = build_cli_args(7, "/o", &Some(s), &None);
    assert_eq!(
        args,
        strs(&[
            "seed", "7", "--output", "/o", "--json", "--archetype", "api", "--language", "rust",
            "--framework", "axum", "--database", "postgres", "--packaging", "docker", "--cicd",
            "github",
        ])
    );
}

#[test]
fn absent_stack_fields_are_skipped() {
    let s = stack(None, Some("go"), None, None, Some("binary"), None);
    let args = build_cli_args(1, "/o", &Some(s), &None);
    assert_eq!(args, strs(&["seed", "1", "--output", "/o", "--json", "--language", "go", "--packaging", "binary"]));
    let empty = stack(None, None, None, None, None, None);
    assert_eq!(build_cli_args(1, "/o", &Some(empty), &None), build_cli_args(1, "/o", &None, &None));
}

#[test]
fn disabled_enrichment_emits_nothing() {
    let mut e = enrichment(false, "full");
    e.cicd = Some(false);
    e.docs = Some(false);
    let with = build_cli_args(3, "/o", &None, &Some(e));
    let without = build_cli_args(3, "/o", &None, &None);
    assert_eq!(with, without);
    assert!(!with.iter().any(|a| a.contains("enrich")));
}

#[test]
fn enabled_enrichment_negates_only_false_flags() {
    let mut e = enrichment(true, "minimal");
    e.cicd = Some(false);
    e.release = Some(true);
    e.fill_logic = Some(false);
    e.docker_prod = Some(false);
    e.env_files = Some(false);
    let args = build_cli_args(5, "/o", &None, &Some(e));
    assert_eq!(
        args,
        strs(&[
            "seed", "5", "--output", "/o", "--json", "--enrich", "--enrich-depth", "minimal",
            "--no-enrich-cicd", "--no-enrich-logic", "--no-enrich-docker-prod", "--no-enrich-env",
        ])
    );
    assert_eq!(args.iter().filter(|a| a.as_str() == "--no-enrich-cicd").count(), 1);
    assert_eq!(args.iter().filter(|a| a.as_str() == "--no-enrich-release").count(), 0);
    assert_eq!(args.iter().filter(|a| a.as_str() == "--no-enrich-tests").count(), 0);
}

#[test]
fn all_sub_flags_negated() {
    let mut e = enrichment(true, "full");
    e.cicd = Some(false);
    e.release = Some(false);
    e.fill_logic = Some(false);
    e.tests = Some(false);
    e.docker_prod = Some(false);
    e.linting = Some(false);
    e.env_files = Some(false);
    e.docs = Some(false);
    let args = build_preview_args(9, &None, &Some(e));
    assert_eq!(
        args,
        strs(&[
            "preview", "9", "--enrich", "--enrich-depth", "full", "--no-enrich-cicd",
            "--no-enrich-release", "--no-enrich-logic", "--no-enrich-tests",
            "--no-enrich-docker-prod", "--no-enrich-linting", "--no-enrich-env", "--no-enrich-docs",
        ])
    );
}

#[test]
fn preview_has_no_destination() {
    let s = stack(Some("cli"), None, None, Some("sqlite"), None, None);
    let args = build_preview_args(18446744073709551615, &Some(s), &None);
    assert_eq!(args, strs(&["preview", "18446744073709551615", "--archetype", "cli", "--database", "sqlite"]));
    let same = build_generator_args(GeneratorAction::Preview, 0, "/ignored", &None, &None);
    assert_eq!(same, strs(&["preview", "0"]));
}

#[test]
fn default_depth_is_standard() {
    assert_eq!(default_enrichment_depth(), "standard");
}

#[test]
fn template_args_with_all_options() {
    let args = build_template_args("/t/web", "/home/u/site", &Some("{\"a\":1}".to_string()), true, true);
    assert_eq!(
        args,
        strs(&["generate", "/t/web", "--dest", "/home/u/site", "--data", "{\"a\":1}", "--use-defaults", "--force"])
    );
    let bare = build_template_args("/t/web", "/d", &None, false, false);
    assert_eq!(bare, strs(&["generate", "/t/web", "--dest", "/d"]));
}
