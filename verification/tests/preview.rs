use picleo::preview::combine_output;
use picleo::preview::command_from_parts;
use picleo::preview::plan_preview;
use picleo::preview::render_preview;
use picleo::preview::render_preview_error;
use picleo::preview::STDERR_BANNER;

#[test]
fn template_is_split_into_program_and_arguments() {
    let command = plan_preview("echo {1} {}", "alpha beta").unwrap();
    assert_eq!(command.program, "echo");
    assert_eq!(command.args, vec!["alpha", "alpha beta"]);
}

#[test]
fn program_is_not_substituted() {
    let command = plan_preview("{1} x", "alpha beta").unwrap();
    assert_eq!(command.program, "{1}");
    assert_eq!(command.args, vec!["x"]);
}

#[test]
fn quoted_token_is_one_argument_and_nothing_is_escaped() {
    let command = plan_preview("sh -c 'echo {2} {}'", "it's here").unwrap();
    assert_eq!(command.program, "sh");
    assert_eq!(command.args, vec!["-c", "echo here it's here"]);
    let command = plan_preview("cat \"a b\" \\n", "x").unwrap();
    assert_eq!(command.args, vec!["a b", "\n"]);
}

#[test]
fn program_without_arguments() {
    let command = plan_preview("date", "x").unwrap();
    assert_eq!(command.program, "date");
    assert!(command.args.is_empty());
}

#[test]
fn no_command_for_an_empty_text() {
    assert!(plan_preview("echo {}", "").is_none());
}

#[test]
fn no_command_for_an_unclosed_quotation_mark() {
    assert!(plan_preview("echo 'unclosed", "x").is_none());
    assert!(plan_preview("echo \"unclosed", "x").is_none());
}

#[test]
fn no_command_for_a_template_without_tokens() {
    assert!(plan_preview("", "x").is_none());
    assert!(plan_preview("   ", "x").is_none());
    assert!(command_from_parts(&Vec::new(), "x").is_none());
}

#[test]
fn command_from_given_tokens() {
    let parts = vec!["bat".to_string(), "--line-range".to_string(), "{2}:{2}".to_string(), "{1}".to_string()];
    let command = command_from_parts(&parts, "src/lib.rs 42").unwrap();
    assert_eq!(command.program, "bat");
    assert_eq!(command.args, vec!["--line-range", "42:42", "src/lib.rs"]);
}

#[test]
fn standard_error_follows_standard_output_behind_the_banner() {
    assert_eq!(combine_output(b"out".to_vec(), Vec::new()), b"out".to_vec());
    assert_eq!(combine_output(Vec::new(), b"err".to_vec()), b"err".to_vec());
    assert_eq!(combine_output(Vec::new(), Vec::new()), Vec::<u8>::new());
    assert_eq!(
        combine_output(b"out".to_vec(), b"err".to_vec()),
        b"out\n--- stderr ---\nerr".to_vec()
    );
    assert_eq!(STDERR_BANNER.to_vec(), b"\n--- stderr ---\n".to_vec());
}

#[test]
fn plain_output_is_shown_as_it_is() {
    assert_eq!(render_preview(b"hello\nworld\n".to_vec(), Vec::new()), "hello\nworld\n");
    assert_eq!(render_preview(Vec::new(), Vec::new()), "");
    assert_eq!(
        render_preview(b"out".to_vec(), b"err".to_vec()),
        "out\n--- stderr ---\nerr"
    );
}

#[test]
fn escape_sequences_other_than_colors_are_taken_out() {
    assert_eq!(render_preview(b"\x1b[2Jhi\x1b[H!".to_vec(), Vec::new()), "hi!");
}

#[test]
fn colors_are_kept() {
    let text = render_preview(b"\x1b[31mred\x1b[0m".to_vec(), Vec::new());
    assert_eq!(text, "\u{1b}[31mred\u{1b}[0m");
}

#[test]
fn characters_outside_ascii_are_replaced() {
    assert_eq!(render_preview("héllo wörld".as_bytes().to_vec(), Vec::new()), "hello world");
}

#[test]
fn failure_to_run_is_shown_as_text() {
    assert_eq!(
        render_preview_error("No such file or directory (os error 2)"),
        "Error executing preview command: No such file or directory (os error 2)"
    );
    assert_eq!(render_preview_error(""), "Error executing preview command: ");
}
