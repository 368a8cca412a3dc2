use upg_desktop::json::{JsonNumber, JsonValue};
use upg_desktop::manifest::{
    check_manifest_document, default_lifecycle, default_version, precheck_manifest, template_entry,
    yaml_error_result,
};

fn s(v: &str) -> String {
    v.to_string()
}

fn obj(members: Vec<(&str, JsonValue)>) -> JsonValue {
    JsonValue::Object(members.into_iter().map(|(k, v)| (k.to_string(), v)).collect())
}

fn text(v: &str) -> JsonValue {
    JsonValue::Str(v.to_string())
}

#[test]
fn defaults() {
    assert_eq!(default_version(), "1.0.0");
    assert_eq!(default_lifecycle(), "production");
}

#[test]
fn precheck_missing_and_extension() {
    let missing = precheck_manifest("/t/upg.yaml", false).unwrap();
    assert!(!missing.valid);
    assert_eq!(missing.errors, vec![s("Manifest file not found: /t/upg.yaml")]);
    let wrong = precheck_manifest("/t/upg.txt", true).unwrap();
    assert_eq!(wrong.errors, vec![s("Invalid file extension 'txt'. Expected .yaml or .yml")]);
    let none = precheck_manifest("/t/manifest", true).unwrap();
    assert_eq!(none.errors, vec![s("Invalid file extension ''. Expected .yaml or .yml")]);
    assert!(precheck_manifest("/t/upg.yaml", true).is_none());
    assert!(precheck_manifest("/t/upg.yml", true).is_none());
}

#[test]
fn yaml_error() {
    let r = yaml_error_result("/m.yaml", "did not find expected key");
    assert!(!r.valid);
    assert_eq!(r.errors, vec![s("YAML parse error: did not find expected key")]);
    assert!(r.warnings.is_empty());
}

#[test]
fn complete_manifest_is_valid() {
    let doc = obj(vec![
        ("apiVersion", text("upg/v1")),
        ("metadata", obj(vec![("name", text("web")), ("version", text("2.0.0"))])),
        ("prompts", JsonValue::Array(vec![])),
    ]);
    let r = check_manifest_document("/t/web/upg.yaml", &doc, false);
    assert!(r.valid);
    assert!(r.errors.is_empty());
    assert!(r.warnings.is_empty());
    assert_eq!(r.path, "/t/web/upg.yaml");
}

#[test]
fn manifest_problems_are_reported() {
    let doc = obj(vec![
        ("apiVersion", text("upg/v2")),
        ("metadata", obj(vec![("title", text("x"))])),
        ("template", obj(vec![])),
    ]);
    let r = check_manifest_document("/m.yaml", &doc, false);
    assert!(!r.valid);
    assert_eq!(r.errors, vec![s("Missing required field: metadata.name")]);
    assert_eq!(
        r.warnings,
        vec![
            s("Unknown apiVersion 'upg/v2'. Expected 'upg/v1'"),
            s("Missing recommended field: metadata.version"),
            s("Template directory not found: \"template\""),
        ]
    );
    let empty = check_manifest_document("/m.yaml", &obj(vec![]), true);
    assert_eq!(
        empty.errors,
        vec![s("Missing required field: apiVersion"), s("Missing required field: metadata")]
    );
    assert_eq!(empty.warnings, vec![s("Manifest has no prompts or template section")]);
    let with_dir = check_manifest_document("/m.yaml", &obj(vec![("actions", JsonValue::Null)]), true);
    assert_eq!(with_dir.warnings, vec![s("Manifest has no prompts or template section")]);
}

#[test]
fn template_entry_defaults_and_values() {
    let doc = obj(vec![("metadata", obj(vec![("name", text("web"))]))]);
    let e = template_entry(&doc, "/t/web").unwrap();
    assert_eq!(e.name, "web");
    assert_eq!(e.version, "1.0.0");
    assert_eq!(e.title, "web");
    assert_eq!(e.description, "");
    assert!(e.tags.is_empty());
    assert_eq!(e.icon, None);
    assert_eq!(e.lifecycle, "production");
    assert_eq!(e.path, "/t/web");
    let full = obj(vec![(
        "metadata",
        obj(vec![
            ("name", text("api")),
            ("version", text("0.3.0")),
            ("title", text("REST API")),
            ("description", text("An API")),
            ("tags", JsonValue::Array(vec![text("rust"), text("http")])),
            ("icon", text("api.svg")),
            ("author", JsonValue::Null),
            ("lifecycle", text("beta")),
        ]),
    )]);
    let e = template_entry(&full, "/t/api").unwrap();
    assert_eq!(e.title, "REST API");
    assert_eq!(e.description, "An API");
    assert_eq!(e.tags, vec![s("rust"), s("http")]);
    assert_eq!(e.icon, Some(s("api.svg")));
    assert_eq!(e.author, None);
    assert_eq!(e.lifecycle, "beta");
}

#[test]
fn template_entry_rejects_malformed_metadata() {
    assert!(template_entry(&obj(vec![]), "/t").is_none());
    assert!(template_entry(&obj(vec![("metadata", obj(vec![("title", text("x"))]))]), "/t").is_none());
    let bad_tags = obj(vec![("metadata", obj(vec![("name", text("n")), ("tags", JsonValue::Array(vec![text("a"), JsonValue::Bool(true)]))]))]);
    assert!(template_entry(&bad_tags, "/t").is_none());
    let bad_version = obj(vec![(
        "metadata",
        obj(vec![("name", text("n")), ("version", JsonValue::Number(JsonNumber { text: s("1"), as_u64: Some(1) }))]),
    )]);
    assert!(template_entry(&bad_version, "/t").is_none());
}
