//! Turning what the generator process left behind into a result: first the
//! JSON reply on stdout, then the exit status (with the files found on disk),
//! then the last line of text the process wrote.

use vstd::prelude::*;
use crate::json::{JsonValue, field, bool_of, str_of, string_items, get_bool, get_str, get_string_items};
use crate::model::{GenerationResult, ProcessOutcome, TemplateGenerationResult, views, copy_strings};
use crate::text::{decimal, decimal_string, signed_decimal, signed_decimal_string, last_nonempty_line, last_nonempty_line_of};

verus! {

/// The mathematical content of a generation or template result.
pub struct ResultView {
    pub success: bool,
    pub message: Seq<char>,
    pub files_generated: Seq<Seq<char>>,
    pub output_path: Seq<char>,
    pub duration_ms: u64,
}

impl View for GenerationResult {
    type V = ResultView;

    open spec fn view(&self) -> ResultView {
        ResultView {
            success: self.success,
            message: self.message@,
            files_generated: views(self.files_generated@),
            output_path: self.output_path@,
            duration_ms: self.duration_ms,
        }
    }
}

impl View for TemplateGenerationResult {
    type V = ResultView;

    open spec fn view(&self) -> ResultView {
        ResultView {
            success: self.success,
            message: self.message@,
            files_generated: views(self.files_generated@),
            output_path: self.output_path@,
            duration_ms: self.duration_ms,
        }
    }
}

/// "Generated <n> files for seed <seed> in <d>ms".
pub open spec fn generated_message(n: nat, seed: u64, duration_ms: u64) -> Seq<char> {
    "Generated "@ + decimal(n) + " files for seed "@ + decimal(seed as nat) + " in "@ + decimal(
        duration_ms as nat,
    ) + "ms"@
}

/// "Generated <n> files from template in <d>ms".
pub open spec fn template_message(n: nat, duration_ms: u64) -> Seq<char> {
    "Generated "@ + decimal(n) + " files from template in "@ + decimal(duration_ms as nat) + "ms"@
}

/// "CLI exited with code Some(<code>)", or "... None" when the process had no exit code.
pub open spec fn exit_code_message(code: Option<i32>) -> Seq<char> {
    "CLI exited with code "@ + match code {
        Some(c) => "Some("@ + signed_decimal(c as int) + ")"@,
        None => "None"@,
    }
}

/// The message of a failed run without a JSON reply: the last non-empty line
/// of stderr, else that of stdout, else one made from the exit code.
pub open spec fn failure_message(outcome: ProcessOutcome) -> Seq<char> {
    match last_nonempty_line(outcome.stderr@) {
        Some(l) => l,
        None => match last_nonempty_line(outcome.stdout@) {
            Some(l) => l,
            None => exit_code_message(outcome.exit_code),
        },
    }
}

/// Whether a JSON reply reports success.
pub open spec fn reply_succeeded(doc: JsonValue) -> bool {
    bool_of(field(doc, "success"@)) == Some(true)
}

/// The files a JSON reply lists.
pub open spec fn reply_files(doc: JsonValue) -> Seq<Seq<char>> {
    string_items(field(doc, "files_generated"@))
}

/// The message of a successful JSON reply: its own, or a default one.
pub open spec fn reply_message(doc: JsonValue, seed: u64, duration_ms: u64) -> Seq<char> {
    match str_of(field(doc, "message"@)) {
        Some(m) => m,
        None => generated_message(reply_files(doc).len(), seed, duration_ms),
    }
}

/// The error of a failed JSON reply, or "Generation failed".
pub open spec fn reply_error(doc: JsonValue) -> Seq<char> {
    match str_of(field(doc, "error"@)) {
        Some(e) => e,
        None => "Generation failed"@,
    }
}

/// Whether the files on disk decide the result: no JSON reply, and the process succeeded.
pub open spec fn needs_listing(outcome: ProcessOutcome, reply: Option<JsonValue>) -> bool {
    reply is None && outcome.success
}

/// The result a JSON reply gives: its own files and message when it reports
/// success, its error otherwise.
pub open spec fn reply_view(doc: JsonValue, seed: u64, output_path: Seq<char>, duration_ms: u64) -> ResultView {
    if reply_succeeded(doc) {
        ResultView {
            success: true,
            message: reply_message(doc, seed, duration_ms),
            files_generated: reply_files(doc),
            output_path,
            duration_ms,
        }
    } else {
        ResultView {
            success: false,
            message: reply_error(doc),
            files_generated: seq![],
            output_path,
            duration_ms,
        }
    }
}

/// The result the exit status gives when stdout held no JSON reply: the
/// listed files on success, the last line of text written on failure.
pub open spec fn exit_view(
    outcome: ProcessOutcome,
    listing: Seq<Seq<char>>,
    seed: u64,
    output_path: Seq<char>,
    duration_ms: u64,
) -> ResultView {
    if outcome.success {
        ResultView {
            success: true,
            message: generated_message(listing.len(), seed, duration_ms),
            files_generated: listing,
            output_path,
            duration_ms,
        }
    } else {
        ResultView {
            success: false,
            message: failure_message(outcome),
            files_generated: seq![],
            output_path,
            duration_ms,
        }
    }
}

/// The result of a generation run. `reply` is the JSON document on stdout
/// (`None` when stdout is not JSON); `listing` the files found under the
/// output directory, consulted only when `needs_listing` holds.
pub open spec fn generation_view(
    outcome: ProcessOutcome,
    reply: Option<JsonValue>,
    listing: Seq<Seq<char>>,
    seed: u64,
    output_path: Seq<char>,
    duration_ms: u64,
) -> ResultView {
    match reply {
        Some(doc) => reply_view(doc, seed, output_path, duration_ms),
        None => exit_view(outcome, listing, seed, output_path, duration_ms),
    }
}

/// The result of a template run, which has no JSON reply.
pub open spec fn template_view(
    outcome: ProcessOutcome,
    listing: Seq<Seq<char>>,
    output_path: Seq<char>,
    duration_ms: u64,
) -> ResultView {
    if outcome.success {
        ResultView {
            success: true,
            message: template_message(listing.len(), duration_ms),
            files_generated: listing,
            output_path,
            duration_ms,
        }
    } else {
        ResultView {
            success: false,
            message: failure_message(outcome),
            files_generated: seq![],
            output_path,
            duration_ms,
        }
    }
}

fn generated_message_text(n: usize, seed: u64, duration_ms: u64) -> (r: String)
    ensures
        r@ == generated_message(n as nat, seed, duration_ms),
{
    let mut m = String::from_str("Generated ");
    m.append(decimal_string(n as u64).as_str());
    m.append(" files for seed ");
    m.append(decimal_string(seed).as_str());
    m.append(" in ");
    m.append(decimal_string(duration_ms).as_str());
    m.append("ms");
    m
}

fn template_message_text(n: usize, duration_ms: u64) -> (r: String)
    ensures
        r@ == template_message(n as nat, duration_ms),
{
    let mut m = String::from_str("Generated ");
    m.append(decimal_string(n as u64).as_str());
    m.append(" files from template in ");
    m.append(decimal_string(duration_ms).as_str());
    m.append("ms");
    m
}

fn exit_code_message_text(code: Option<i32>) -> (r: String)
    ensures
        r@ == exit_code_message(code),
{
    let mut m = String::from_str("CLI exited with code ");
    match code {
        Some(c) => {
            m.append("Some(");
            m.append(signed_decimal_string(c).as_str());
            m.append(")");
        },
        None => m.append("None"),
    }
    m
}

/// The message of a failed run that gave no JSON reply.
pub fn failure_message_of(outcome: &ProcessOutcome) -> (r: String)
    ensures
        r@ == failure_message(*outcome),
{
    match last_nonempty_line_of(outcome.stderr.as_str()) {
        Some(l) => l,
        None => match last_nonempty_line_of(outcome.stdout.as_str()) {
            Some(l) => l,
            None => exit_code_message_text(outcome.exit_code),
        },
    }
}

/// Whether the caller must list the output directory before interpreting a
/// generation run.
pub fn listing_needed(outcome: &ProcessOutcome, reply: &Option<JsonValue>) -> (r: bool)
    ensures
        r == needs_listing(*outcome, *reply),
{
    reply.is_none() && outcome.success
}

/// The first tier: interprets the JSON reply that stdout held.
pub fn interpret_reply(doc: &JsonValue, seed: u64, output_path: &str, duration_ms: u64) -> (r: GenerationResult)
    ensures
        r@ == reply_view(*doc, seed, output_path@, duration_ms),
{
    if get_bool(doc, "success") == Some(true) {
        let files = get_string_items(doc, "files_generated");
        let message = match get_str(doc, "message") {
            Some(m) => m,
            None => generated_message_text(files.len(), seed, duration_ms),
        };
        GenerationResult {
            success: true,
            message,
            files_generated: files,
            output_path: String::from_str(output_path),
            duration_ms,
        }
    } else {
        let message = match get_str(doc, "error") {
            Some(e) => e,
            None => String::from_str("Generation failed"),
        };
        let r = GenerationResult {
            success: false,
            message,
            files_generated: Vec::new(),
            output_path: String::from_str(output_path),
            duration_ms,
        };
        assert(views(r.files_generated@) =~= seq![]);
        r
    }
}

/// The second and third tiers, for a run whose stdout held no JSON reply:
/// the listed files when the process succeeded, the last line of text it
/// wrote when it failed.
pub fn interpret_exit_status(
    outcome: &ProcessOutcome,
    listing: &Vec<String>,
    seed: u64,
    output_path: &str,
    duration_ms: u64,
) -> (r: GenerationResult)
    ensures
        r@ == exit_view(*outcome, views(listing@), seed, output_path@, duration_ms),
{
    if outcome.success {
        let files = copy_strings(listing);
        GenerationResult {
            success: true,
            message: generated_message_text(files.len(), seed, duration_ms),
            files_generated: files,
            output_path: String::from_str(output_path),
            duration_ms,
        }
    } else {
        let r = GenerationResult {
            success: false,
            message: failure_message_of(outcome),
            files_generated: Vec::new(),
            output_path: String::from_str(output_path),
            duration_ms,
        };
        assert(views(r.files_generated@) =~= seq![]);
        r
    }
}

/// Interprets a generation run: the JSON reply when stdout held one, else the
/// exit status, with the listed files on success and the last line of text
/// written on failure.
pub fn interpret_generation(
    outcome: &ProcessOutcome,
    reply: &Option<JsonValue>,
    listing: &Vec<String>,
    seed: u64,
    output_path: &str,
    duration_ms: u64,
) -> (r: GenerationResult)
    ensures
        r@ == generation_view(*outcome, *reply, views(listing@), seed, output_path@, duration_ms),
{
    match reply {
        Some(doc) => interpret_reply(doc, seed, output_path, duration_ms),
        None => interpret_exit_status(outcome, listing, seed, output_path, duration_ms),
    }
}

/// Interprets a template run from its exit status: the listed files on
/// success, the last line of text written on failure.
pub fn interpret_template_run(
    outcome: &ProcessOutcome,
    listing: &Vec<String>,
    output_path: &str,
    duration_ms: u64,
) -> (r: TemplateGenerationResult)
    ensures
        r@ == template_view(*outcome, views(listing@), output_path@, duration_ms),
{
    if outcome.success {
        let files = copy_strings(listing);
        TemplateGenerationResult {
            success: true,
            message: template_message_text(files.len(), duration_ms),
            files_generated: files,
            output_path: String::from_str(output_path),
            duration_ms,
        }
    } else {
        let r = TemplateGenerationResult {
            success: false,
            message: failure_message_of(outcome),
            files_generated: Vec::new(),
            output_path: String::from_str(output_path),
            duration_ms,
        };
        assert(views(r.files_generated@) =~= seq![]);
        r
    }
}

/// The order of the interpretation chain. A JSON reply that reports success
/// is taken as it stands: success, its own file list, and its own message when
/// it has one. Without a JSON reply, a successful exit yields exactly the files
/// found on disk, and a failed exit with a non-empty line on stderr yields
/// that line, the last one, as the message.
pub proof fn lemma_fallback_order(
    outcome: ProcessOutcome,
    reply: Option<JsonValue>,
    listing: Seq<Seq<char>>,
    seed: u64,
    output_path: Seq<char>,
    duration_ms: u64,
)
    ensures
        ({
            let r = generation_view(outcome, reply, listing, seed, output_path, duration_ms);
            &&& (reply is Some && reply_succeeded(reply->0) ==> {
                let doc = reply->0;
                &&& r.success
                &&& r.files_generated == string_items(field(doc, "files_generated"@))
                &&& str_of(field(doc, "message"@)) matches Some(m) ==> r.message == m
            })
            &&& (reply is None && outcome.success ==> r.success && r.files_generated == listing)
            &&& (reply is None && !outcome.success && last_nonempty_line(outcome.stderr@) is Some
                ==> !r.success && Some(r.message) == last_nonempty_line(outcome.stderr@))
        }),
{
}

} // verus!
