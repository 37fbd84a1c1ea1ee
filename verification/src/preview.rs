//! The preview of the highlighted entry: which program to run with which arguments,
//! and what to show of what it printed.
//!
//! The session does not run programs itself. It plans the command and hands the plan
//! out; whoever runs it hands back what the program printed, or why it could not be
//! started, and the session turns that into the text of the preview.

use crate::placeholder::substitute_placeholders;
use crate::placeholder::substituted;
use vstd::prelude::*;
use vstd::string::StringExecFns;

verus! {

/// The tokens that the `comma` crate splits a command line into, or `None` where a
/// quotation mark in it is not closed.
pub uninterp spec fn parsed_command(input: Seq<char>) -> Option<Seq<Seq<char>>>;

/// What the `eunicode` crate leaves of the bytes a program printed once the escape
/// sequences of a terminal are taken out; those that set colors stay with
/// `keep_colors`.
pub uninterp spec fn ansi_stripped(bytes: Seq<u8>, keep_colors: bool) -> Seq<char>;

/// What the `eunicode` crate makes of a text when it replaces every character outside
/// ASCII by ASCII.
pub uninterp spec fn ascii_cleaned(text: Seq<char>) -> Seq<char>;

/// The view of each string.
pub open spec fn texts(strings: Seq<String>) -> Seq<Seq<char>> {
    strings.map_values(|s: String| s@)
}

/// `comma::parse_command`. Trusted: the result depends on the input alone.
#[verifier::external_body]
fn parse_command(input: &str) -> (r: Option<Vec<String>>)
    ensures
        r matches Some(parts) ==> parsed_command(input@) == Some(texts(parts@)),
        r is None ==> parsed_command(input@) is None,
{
    comma::parse_command(input)
}

/// `RawBytes::strip_ansi_escapes` of the `eunicode` crate. Trusted: the result depends
/// on the bytes and the flag alone.
#[verifier::external_body]
fn strip_ansi_escapes(bytes: Vec<u8>, keep_colors: bool) -> (r: String)
    ensures
        r@ == ansi_stripped(bytes@, keep_colors),
{
    eunicode::raw_bytes::RawBytes::from_bytes(bytes).strip_ansi_escapes(keep_colors)
}

/// `UnicodeString::clean` of the `eunicode` crate. Trusted: the result depends on the
/// text alone.
#[verifier::external_body]
fn clean_unicode(text: String) -> (r: String)
    ensures
        r@ == ascii_cleaned(text@),
{
    eunicode::unicode_string::UnicodeString::new(text).clean().into_string()
}

/// The line that separates what a program wrote to its standard output from what it
/// wrote to its standard error: `--- stderr ---`, between two line feeds.
pub const STDERR_BANNER: [u8; 16] = [
    10, 45, 45, 45, 32, 115, 116, 100, 101, 114, 114, 32, 45, 45, 45, 10,
];

/// A program and its arguments.
#[derive(Debug)]
pub struct PreviewCommand {
    pub program: String,
    pub args: Vec<String>,
}

/// The mathematical value of a command.
#[verifier::ext_equal]
pub struct PreviewPlan {
    pub program: Seq<char>,
    pub args: Seq<Seq<char>>,
}

impl View for PreviewCommand {
    type V = PreviewPlan;

    open spec fn view(&self) -> PreviewPlan {
        PreviewPlan { program: self.program@, args: texts(self.args@) }
    }
}

/// The command that the tokens of a template make for an entry with the given text:
/// the first token is the program, and each further token, with its placeholders
/// replaced and nothing escaped, is one argument. No token, no command.
pub open spec fn command_of(parts: Seq<Seq<char>>, item_text: Seq<char>) -> Option<PreviewPlan> {
    if parts.len() == 0 {
        None
    } else {
        Some(
            PreviewPlan {
                program: parts[0],
                args: Seq::new(
                    (parts.len() - 1) as nat,
                    |i: int| substituted(parts[i + 1], item_text, false),
                ),
            },
        )
    }
}

/// The command to run for an entry with the given text. There is none where the text
/// is empty, where the template has a quotation mark that is not closed, and where
/// the template has no token.
pub open spec fn preview_plan(template: Seq<char>, item_text: Seq<char>) -> Option<PreviewPlan> {
    if item_text.len() == 0 {
        None
    } else {
        match parsed_command(template) {
            Some(parts) => command_of(parts, item_text),
            None => None,
        }
    }
}

/// Whether `pending` is what the template plans for an entry with the given text: the
/// command to run, or none where there is none.
pub open spec fn is_plan_for(
    pending: Option<PreviewCommand>,
    template: Seq<char>,
    item_text: Seq<char>,
) -> bool {
    match pending {
        Some(command) => preview_plan(template, item_text) == Some(command@),
        None => preview_plan(template, item_text) is None,
    }
}

/// What is shown of the two streams of a program: the standard output, then, where
/// the program wrote to its standard error, that too, with the banner between the two
/// where neither is empty.
pub open spec fn combined_output(stdout: Seq<u8>, stderr: Seq<u8>) -> Seq<u8> {
    if stderr.len() == 0 {
        stdout
    } else if stdout.len() == 0 {
        stderr
    } else {
        stdout + STDERR_BANNER@ + stderr
    }
}

/// The text of the preview for what a program printed.
pub open spec fn preview_text(stdout: Seq<u8>, stderr: Seq<u8>) -> Seq<char> {
    ascii_cleaned(ansi_stripped(combined_output(stdout, stderr), true))
}

/// The text of the preview for a program that could not be run.
pub open spec fn preview_error_text(message: Seq<char>) -> Seq<char> {
    "Error executing preview command: "@ + message
}

/// The command that the tokens of a template make for an entry with the given text.
pub fn command_from_parts(parts: &Vec<String>, item_text: &str) -> (r: Option<PreviewCommand>)
    ensures
        r matches Some(command) ==> command_of(texts(parts@), item_text@) == Some(command@),
        r is None <==> command_of(texts(parts@), item_text@) is None,
        r is None <==> parts@.len() == 0,
{
    if parts.len() == 0 {
        return None;
    }
    assert(texts(parts@).len() == parts@.len());
    let program = parts[0].clone();
    assert(texts(parts@)[0] == parts@[0]@);
    let mut args: Vec<String> = Vec::new();
    let mut i: usize = 1;
    while i < parts.len()
        invariant
            1 <= i <= parts.len(),
            args@.len() == i - 1,
            forall|k: int|
                0 <= k < i - 1 ==> (#[trigger] args@[k])@ == substituted(
                    parts@[k + 1]@,
                    item_text@,
                    false,
                ),
        decreases parts.len() - i,
    {
        args.push(substitute_placeholders(parts[i].as_str(), item_text, false));
        i += 1;
    }
    let command = PreviewCommand { program, args };
    proof {
        let plan = command_of(texts(parts@), item_text@)->0;
        assert(command@.args =~= plan.args) by {
            assert forall|k: int| 0 <= k < plan.args.len() implies command@.args[k]
                == plan.args[k] by {
                assert(texts(parts@)[k + 1] == parts@[k + 1]@);
            }
        }
    }
    Some(command)
}

/// The command to run for an entry with the given text, by the template of the
/// preview.
pub fn plan_preview(template: &str, item_text: &str) -> (r: Option<PreviewCommand>)
    ensures
        r matches Some(command) ==> preview_plan(template@, item_text@) == Some(command@),
        r is None <==> preview_plan(template@, item_text@) is None,
        item_text@.len() == 0 ==> r is None,
{
    if item_text.is_empty() {
        return None;
    }
    match parse_command(template) {
        Some(parts) => command_from_parts(&parts, item_text),
        None => None,
    }
}

/// The banner as a vector.
fn stderr_banner() -> (r: Vec<u8>)
    ensures
        r@ == STDERR_BANNER@,
{
    let mut banner: Vec<u8> = Vec::new();
    let mut i: usize = 0;
    while i < 16
        invariant
            i <= 16,
            banner@ == STDERR_BANNER@.take(i as int),
        decreases 16 - i,
    {
        banner.push(STDERR_BANNER[i]);
        assert(STDERR_BANNER@.take(i + 1) =~= STDERR_BANNER@.take(i as int).push(
            STDERR_BANNER@[i as int],
        ));
        i += 1;
    }
    assert(STDERR_BANNER@.take(16) =~= STDERR_BANNER@);
    banner
}

/// What is shown of the two streams of a program.
pub fn combine_output(stdout: Vec<u8>, stderr: Vec<u8>) -> (r: Vec<u8>)
    ensures
        r@ == combined_output(stdout@, stderr@),
{
    if stderr.len() == 0 {
        return stdout;
    }
    if stdout.len() == 0 {
        return stderr;
    }
    let mut bytes = stdout;
    let banner = stderr_banner();
    bytes.extend_from_slice(banner.as_slice());
    bytes.extend_from_slice(stderr.as_slice());
    assert(bytes@ =~= stdout@ + STDERR_BANNER@ + stderr@);
    bytes
}

/// The text of the preview for what a program printed: its output without the escape
/// sequences of a terminal, but for those that set colors, and in ASCII.
pub fn render_preview(stdout: Vec<u8>, stderr: Vec<u8>) -> (r: String)
    ensures
        r@ == preview_text(stdout@, stderr@),
{
    clean_unicode(strip_ansi_escapes(combine_output(stdout, stderr), true))
}

/// The text of the preview for a program that could not be run, which failed with the
/// given message.
pub fn render_preview_error(message: &str) -> (r: String)
    ensures
        r@ == preview_error_text(message@),
{
    let mut text = String::from_str("Error executing preview command: ");
    text.append(message);
    text
}

} // verus!
