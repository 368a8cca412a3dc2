//! Template manifests: the checks a manifest must pass and the catalogue
//! entry a template's manifest yields.

use vstd::prelude::*;
use crate::json::{JsonValue, field, str_of, strings_in, get_str};
use crate::model::{views, opt_view, push_owned, push_text};

verus! {

/// A template as the catalogue lists it.
#[derive(Debug, PartialEq, Eq)]
pub struct TemplateEntry {
    pub name: String,
    pub version: String,
    pub title: String,
    pub description: String,
    pub tags: Vec<String>,
    pub icon: Option<String>,
    pub author: Option<String>,
    pub lifecycle: String,
    pub path: String,
}

/// The outcome of checking a manifest file.
#[derive(Debug, PartialEq, Eq)]
pub struct ValidationResult {
    pub valid: bool,
    pub path: String,
    pub errors: Vec<String>,
    pub warnings: Vec<String>,
}

/// The version of a template whose manifest names none.
pub fn default_version() -> (r: String)
    ensures
        r@ == "1.0.0"@,
{
    String::from_str("1.0.0")
}

/// The lifecycle of a template whose manifest names none.
pub fn default_lifecycle() -> (r: String)
    ensures
        r@ == "production"@,
{
    String::from_str("production")
}

/// The extension of a path's file name, as std's `Path::extension` gives it
/// for the target the crate is built for.
pub uninterp spec fn path_extension(p: Seq<char>) -> Option<Seq<char>>;

/// Relies on std's `Path::extension`, read as UTF-8 text (`None` where it is
/// not). Its result depends on the text alone.
#[verifier::external_body]
fn extension_of(p: &str) -> (r: Option<String>)
    ensures
        match r {
            Some(e) => path_extension(p@) == Some(e@),
            None => path_extension(p@) is None,
        },
{
    match std::path::Path::new(p).extension() {
        Some(e) => match e.to_str() {
            Some(t) => Some(t.to_string()),
            None => None,
        },
        None => None,
    }
}

/// A one-element sequence when `b` holds, an empty one otherwise.
pub open spec fn when(b: bool, s: Seq<char>) -> Seq<Seq<char>> {
    if b {
        seq![s]
    } else {
        seq![]
    }
}

/// The extension a manifest path has, empty when it has none.
pub open spec fn manifest_extension(p: Seq<char>) -> Seq<char> {
    match path_extension(p) {
        Some(e) => e,
        None => seq![],
    }
}

/// The extension is one a manifest may have.
pub open spec fn yaml_extension(e: Seq<char>) -> bool {
    e == "yaml"@ || e == "yml"@
}

/// The mathematical content of a validation result.
pub struct ValidationView {
    pub valid: bool,
    pub path: Seq<char>,
    pub errors: Seq<Seq<char>>,
    pub warnings: Seq<Seq<char>>,
}

impl View for ValidationResult {
    type V = ValidationView;

    open spec fn view(&self) -> ValidationView {
        ValidationView {
            valid: self.valid,
            path: self.path@,
            errors: views(self.errors@),
            warnings: views(self.warnings@),
        }
    }
}

/// The check of a manifest file that stops before its content is read: a
/// missing file, or one without a YAML extension.
pub open spec fn precheck(path: Seq<char>, exists: bool) -> Option<ValidationView> {
    if !exists {
        Some(
            ValidationView {
                valid: false,
                path,
                errors: seq!["Manifest file not found: "@ + path],
                warnings: seq![],
            },
        )
    } else if !yaml_extension(manifest_extension(path)) {
        Some(
            ValidationView {
                valid: false,
                path,
                errors: seq![
                    "Invalid file extension '"@ + manifest_extension(path)
                        + "'. Expected .yaml or .yml"@,
                ],
                warnings: seq![],
            },
        )
    } else {
        None
    }
}

/// The errors of a parsed manifest: required fields that are missing.
pub open spec fn manifest_errors(doc: JsonValue) -> Seq<Seq<char>> {
    when(field(doc, "apiVersion"@) is None, "Missing required field: apiVersion"@) + match field(
        doc,
        "metadata"@,
    ) {
        None => seq!["Missing required field: metadata"@],
        Some(m) => when(field(m, "name"@) is None, "Missing required field: metadata.name"@),
    }
}

/// The warnings of a parsed manifest: an unknown API version, a missing
/// metadata version, no prompts nor template, and a template section whose
/// directory is missing.
pub open spec fn manifest_warnings(doc: JsonValue, template_dir_exists: bool) -> Seq<Seq<char>> {
    api_warning(doc) + version_warning(doc) + when(
        field(doc, "prompts"@) is None && field(doc, "template"@) is None,
        "Manifest has no prompts or template section"@,
    ) + when(
        (field(doc, "template"@) is Some || field(doc, "actions"@) is Some) && !template_dir_exists,
        "Template directory not found: \"template\""@,
    )
}

/// A warning for an API version other than upg/v1.
pub open spec fn api_warning(doc: JsonValue) -> Seq<Seq<char>> {
    match str_of(field(doc, "apiVersion"@)) {
        Some(v) => when(v != "upg/v1"@, "Unknown apiVersion '"@ + v + "'. Expected 'upg/v1'"@),
        None => seq![],
    }
}

/// A warning for metadata without a version.
pub open spec fn version_warning(doc: JsonValue) -> Seq<Seq<char>> {
    match field(doc, "metadata"@) {
        Some(m) => when(field(m, "version"@) is None, "Missing recommended field: metadata.version"@),
        None => seq![],
    }
}

/// The check of a parsed manifest. `template_dir_exists` tells whether the
/// `template` directory beside the manifest exists.
pub open spec fn document_check(path: Seq<char>, doc: JsonValue, template_dir_exists: bool) -> ValidationView {
    ValidationView {
        valid: manifest_errors(doc).len() == 0,
        path,
        errors: manifest_errors(doc),
        warnings: manifest_warnings(doc, template_dir_exists),
    }
}

/// Checks a manifest path before its content is read: `Some` with the failed
/// check when the file is missing or lacks a YAML extension, `None` otherwise.
pub fn precheck_manifest(path: &str, exists: bool) -> (r: Option<ValidationResult>)
    ensures
        match r {
            Some(v) => precheck(path@, exists) == Some(v@),
            None => precheck(path@, exists) is None,
        },
{
    if !exists {
        let mut m = String::from_str("Manifest file not found: ");
        m.append(path);
        let mut errors: Vec<String> = Vec::new();
        push_owned(&mut errors, m);
        let r = ValidationResult {
            valid: false,
            path: String::from_str(path),
            errors,
            warnings: Vec::new(),
        };
        assert(r@.warnings =~= seq![]);
        assert(r@.errors =~= precheck(path@, exists)->0.errors);
        return Some(r);
    }
    let ext = match extension_of(path) {
        Some(e) => e,
        None => String::new(),
    };
    let yaml = String::from_str("yaml");
    let yml = String::from_str("yml");
    if ext == yaml || ext == yml {
        None
    } else {
        let mut m = String::from_str("Invalid file extension '");
        m.append(ext.as_str());
        m.append("'. Expected .yaml or .yml");
        let mut errors: Vec<String> = Vec::new();
        push_owned(&mut errors, m);
        let r = ValidationResult {
            valid: false,
            path: String::from_str(path),
            errors,
            warnings: Vec::new(),
        };
        assert(r@.warnings =~= seq![]);
        assert(r@.errors =~= precheck(path@, exists)->0.errors);
        Some(r)
    }
}

/// The result for a manifest whose content is not YAML.
pub fn yaml_error_result(path: &str, error: &str) -> (r: ValidationResult)
    ensures
        !r.valid,
        r.path@ == path@,
        views(r.errors@) == seq!["YAML parse error: "@ + error@],
        r.warnings@.len() == 0,
{
    let mut m = String::from_str("YAML parse error: ");
    m.append(error);
    let mut errors: Vec<String> = Vec::new();
    push_owned(&mut errors, m);
    ValidationResult { valid: false, path: String::from_str(path), errors, warnings: Vec::new() }
}

fn push_when(v: &mut Vec<String>, b: bool, s: &str)
    ensures
        views(final(v)@) == views(old(v)@) + when(b, s@),
{
    if b {
        push_text(v, s);
    }
    assert(views(v@) =~= views(old(v)@) + when(b, s@));
}

/// Checks a parsed manifest: its required and recommended fields, and the
/// template directory its template section needs.
pub fn check_manifest_document(path: &str, doc: &JsonValue, template_dir_exists: bool) -> (r:
    ValidationResult)
    ensures
        r@ == document_check(path@, *doc, template_dir_exists),
{
    let mut errors: Vec<String> = Vec::new();
    let mut warnings: Vec<String> = Vec::new();
    let api = doc.get("apiVersion");
    push_when(&mut errors, api.is_none(), "Missing required field: apiVersion");
    let metadata = doc.get("metadata");
    match metadata {
        None => push_text(&mut errors, "Missing required field: metadata"),
        Some(m) => push_when(&mut errors, m.get("name").is_none(), "Missing required field: metadata.name"),
    }
    assert(views(errors@) =~= manifest_errors(*doc));
    match get_str(doc, "apiVersion") {
        Some(v) => {
            let expected = String::from_str("upg/v1");
            if !(v == expected) {
                let mut m = String::from_str("Unknown apiVersion '");
                m.append(v.as_str());
                m.append("'. Expected 'upg/v1'");
                push_owned(&mut warnings, m);
            }
        },
        None => {},
    }
    match metadata {
        Some(m) => push_when(&mut warnings, m.get("version").is_none(), "Missing recommended field: metadata.version"),
        None => {},
    }
    let prompts = doc.get("prompts");
    let template = doc.get("template");
    push_when(
        &mut warnings,
        prompts.is_none() && template.is_none(),
        "Manifest has no prompts or template section",
    );
    let actions = doc.get("actions");
    push_when(
        &mut warnings,
        (template.is_some() || actions.is_some()) && !template_dir_exists,
        "Template directory not found: \"template\"",
    );
    assert(views(warnings@) =~= manifest_warnings(*doc, template_dir_exists));
    let valid = errors.len() == 0;
    ValidationResult { valid, path: String::from_str(path), errors, warnings }
}

/// A member that may be missing or null, else must hold a string. The outer
/// `None` marks a value of another kind.
pub open spec fn optional_text(v: Option<JsonValue>) -> Option<Option<Seq<char>>> {
    match v {
        None => Some(None),
        Some(JsonValue::Null) => Some(None),
        Some(JsonValue::Str(s)) => Some(Some(s@)),
        _ => None,
    }
}

/// A member with a default: missing gives the default, a string gives itself,
/// anything else fails.
pub open spec fn text_or(v: Option<JsonValue>, d: Seq<char>) -> Option<Seq<char>> {
    match v {
        None => Some(d),
        Some(JsonValue::Str(s)) => Some(s@),
        _ => None,
    }
}

/// Every item is a string.
pub open spec fn all_strings(items: Seq<JsonValue>) -> bool {
    forall|i: int| 0 <= i < items.len() ==> #[trigger] items[i] is Str
}

/// A list of strings that may be missing (empty then); anything else fails.
pub open spec fn text_list(v: Option<JsonValue>) -> Option<Seq<Seq<char>>> {
    match v {
        None => Some(seq![]),
        Some(JsonValue::Array(items)) => if all_strings(items@) {
            Some(strings_in(items@))
        } else {
            None
        },
        _ => None,
    }
}

/// The mathematical content of a catalogue entry.
pub struct TemplateView {
    pub name: Seq<char>,
    pub version: Seq<char>,
    pub title: Seq<char>,
    pub description: Seq<char>,
    pub tags: Seq<Seq<char>>,
    pub icon: Option<Seq<char>>,
    pub author: Option<Seq<char>>,
    pub lifecycle: Seq<char>,
    pub path: Seq<char>,
}

impl View for TemplateEntry {
    type V = TemplateView;

    open spec fn view(&self) -> TemplateView {
        TemplateView {
            name: self.name@,
            version: self.version@,
            title: self.title@,
            description: self.description@,
            tags: views(self.tags@),
            icon: opt_view(self.icon),
            author: opt_view(self.author),
            lifecycle: self.lifecycle@,
            path: self.path@,
        }
    }
}

/// The metadata of a manifest has the shape a catalogue entry needs: a
/// string `name`; `version` and `lifecycle` strings where present; `title`,
/// `description`, `icon` and `author` strings or null where present; `tags`
/// a list of strings where present.
pub open spec fn metadata_ok(m: JsonValue) -> bool {
    &&& str_of(field(m, "name"@)) is Some
    &&& text_or(field(m, "version"@), "1.0.0"@) is Some
    &&& optional_text(field(m, "title"@)) is Some
    &&& optional_text(field(m, "description"@)) is Some
    &&& text_list(field(m, "tags"@)) is Some
    &&& optional_text(field(m, "icon"@)) is Some
    &&& optional_text(field(m, "author"@)) is Some
    &&& text_or(field(m, "lifecycle"@), "production"@) is Some
}

/// The catalogue entry of a template whose manifest is `doc`, found at
/// `path`: defaults fill the version (1.0.0), lifecycle (production), title
/// (the name) and description (empty).
pub open spec fn template_view_of(doc: JsonValue, path: Seq<char>) -> Option<TemplateView> {
    match field(doc, "metadata"@) {
        Some(m) => if metadata_ok(m) {
            let name = str_of(field(m, "name"@))->0;
            Some(
                TemplateView {
                    name,
                    version: text_or(field(m, "version"@), "1.0.0"@)->0,
                    title: match optional_text(field(m, "title"@))->0 {
                        Some(t) => t,
                        None => name,
                    },
                    description: match optional_text(field(m, "description"@))->0 {
                        Some(d) => d,
                        None => seq![],
                    },
                    tags: text_list(field(m, "tags"@))->0,
                    icon: optional_text(field(m, "icon"@))->0,
                    author: optional_text(field(m, "author"@))->0,
                    lifecycle: text_or(field(m, "lifecycle"@), "production"@)->0,
                    path,
                },
            )
        } else {
            None
        },
        None => None,
    }
}

fn optional_text_of(v: &JsonValue, key: &str) -> (r: Option<Option<String>>)
    ensures
        match r {
            Some(t) => optional_text(field(*v, key@)) == Some(opt_view(t)),
            None => optional_text(field(*v, key@)) is None,
        },
{
    match v.get(key) {
        None => Some(None),
        Some(JsonValue::Null) => Some(None),
        Some(JsonValue::Str(s)) => Some(Some(s.clone())),
        _ => None,
    }
}

fn text_or_of(v: &JsonValue, key: &str, default: String) -> (r: Option<String>)
    ensures
        match r {
            Some(t) => text_or(field(*v, key@), default@) == Some(t@),
            None => text_or(field(*v, key@), default@) is None,
        },
{
    match v.get(key) {
        None => Some(default),
        Some(JsonValue::Str(s)) => Some(s.clone()),
        _ => None,
    }
}

fn text_list_of(v: &JsonValue, key: &str) -> (r: Option<Vec<String>>)
    ensures
        match r {
            Some(t) => text_list(field(*v, key@)) == Some(views(t@)),
            None => text_list(field(*v, key@)) is None,
        },
{
    match v.get(key) {
        None => {
            let r: Vec<String> = Vec::new();
            assert(views(r@) =~= seq![]);
            Some(r)
        },
        Some(JsonValue::Array(items)) => {
            let mut r: Vec<String> = Vec::new();
            let mut i: usize = 0;
            while i < items.len()
                invariant
                    i <= items.len(),
                    text_list(field(*v, key@)) == if all_strings(items@) {
                        Some(strings_in(items@))
                    } else {
                        None
                    },
                    all_strings(items@.subrange(0, i as int)),
                    views(r@) == strings_in(items@.subrange(0, i as int)),
                decreases items.len() - i,
            {
                let ghost before = items@.subrange(0, i as int);
                assert(items@.subrange(0, i + 1).drop_last() =~= before);
                match &items[i] {
                    JsonValue::Str(s) => push_text(&mut r, s.as_str()),
                    _ => {
                        assert(!all_strings(items@));
                        return None;
                    },
                }
                i = i + 1;
                assert(all_strings(items@.subrange(0, i as int)));
            }
            assert(items@.subrange(0, items.len() as int) =~= items@);
            Some(r)
        },
        _ => None,
    }
}

/// The catalogue entry of a template whose manifest is `doc`, found at
/// `path`; `None` where the metadata lacks the shape an entry needs.
pub fn template_entry(doc: &JsonValue, path: &str) -> (r: Option<TemplateEntry>)
    ensures
        match r {
            Some(t) => template_view_of(*doc, path@) == Some(t@),
            None => template_view_of(*doc, path@) is None,
        },
{
    let m = match doc.get("metadata") {
        Some(m) => m,
        None => return None,
    };
    let name = match get_str(m, "name") {
        Some(n) => n,
        None => return None,
    };
    let version = match text_or_of(m, "version", default_version()) {
        Some(v) => v,
        None => return None,
    };
    let title = match optional_text_of(m, "title") {
        Some(t) => t,
        None => return None,
    };
    let description = match optional_text_of(m, "description") {
        Some(d) => d,
        None => return None,
    };
    let tags = match text_list_of(m, "tags") {
        Some(t) => t,
        None => return None,
    };
    let icon = match optional_text_of(m, "icon") {
        Some(i) => i,
        None => return None,
    };
    let author = match optional_text_of(m, "author") {
        Some(a) => a,
        None => return None,
    };
    let lifecycle = match text_or_of(m, "lifecycle", default_lifecycle()) {
        Some(l) => l,
        None => return None,
    };
    let title = match title {
        Some(t) => t,
        None => name.clone(),
    };
    let description = match description {
        Some(d) => d,
        None => String::new(),
    };
    Some(
        TemplateEntry {
            name,
            version,
            title,
            description,
            tags,
            icon,
            author,
            lifecycle,
            path: String::from_str(path),
        },
    )
}

} // verus!
