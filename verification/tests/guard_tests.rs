use codepack::aggregate::preamble;
use codepack::guard::{begin, confirm, decide, overwrite_prompt, resolve, HEADER_MARKER};
use codepack::text::first_line;
use codepack::{ExistingOutput, OutputDecision, UnreadableOutput};

fn text(line: &str) -> ExistingOutput {
    ExistingOutput::Text { first_line: line.to_string() }
}

#[test]
fn header_marker_is_the_first_line_of_the_preamble() {
    assert_eq!(HEADER_MARKER, "This is a .txt file representing an entire directory's contents.");
    assert_eq!(first_line(&preamble(false)), format!("{}\n", HEADER_MARKER));
}

#[test]
fn forced_run_proceeds_without_inspection() {
    assert_eq!(begin(true), Some(OutputDecision::Proceed));
    assert_eq!(begin(false), None);
}

#[test]
fn absent_or_empty_output_proceeds() {
    assert_eq!(decide(&ExistingOutput::Absent), Ok(OutputDecision::Proceed));
    assert_eq!(decide(&text("")), Ok(OutputDecision::Proceed));
}

#[test]
fn own_output_proceeds_without_prompt() {
    assert_eq!(decide(&text(&format!("{}\n", HEADER_MARKER))), Ok(OutputDecision::Proceed));
    assert_eq!(decide(&text(HEADER_MARKER)), Ok(OutputDecision::Proceed));
    assert_eq!(resolve(false, &text(&format!("{}\n", HEADER_MARKER)), "n\n"), Ok(true));
}

#[test]
fn foreign_output_needs_the_operator() {
    assert_eq!(decide(&text("This is a test file.")), Ok(OutputDecision::PromptUser));
    assert_eq!(decide(&text("\n")), Ok(OutputDecision::PromptUser));
    assert_eq!(decide(&text("This is a .txt file")), Ok(OutputDecision::PromptUser));
}

#[test]
fn binary_output_proceeds() {
    assert_eq!(decide(&ExistingOutput::InvalidEncoding), Ok(OutputDecision::Proceed));
    assert_eq!(resolve(false, &ExistingOutput::InvalidEncoding, "n"), Ok(true));
}

fn unreadable(cause: &str) -> ExistingOutput {
    ExistingOutput::Unreadable { cause: cause.to_string() }
}

#[test]
fn unreadable_output_fails_the_run_with_its_cause() {
    let denied = UnreadableOutput { cause: "permission denied".to_string() };
    assert_eq!(decide(&unreadable("permission denied")), Err(denied.clone()));
    assert_eq!(resolve(false, &unreadable("permission denied"), "y"), Err(denied));
    let other = resolve(false, &unreadable("is a directory"), "y");
    assert_eq!(other.err().expect("an unreadable output").cause, "is a directory");
    // A forced run does not look.
    assert_eq!(resolve(true, &unreadable("permission denied"), "n"), Ok(true));
}

#[test]
fn answer_decides_between_proceed_and_abort() {
    assert_eq!(confirm("y\n"), OutputDecision::Proceed);
    assert_eq!(confirm("Y"), OutputDecision::Proceed);
    assert_eq!(confirm("n\n"), OutputDecision::Abort);
    assert_eq!(confirm(""), OutputDecision::Abort);
    assert_eq!(confirm("yes"), OutputDecision::Abort);
}

#[test]
fn declined_overwrite_aborts_and_force_overrides() {
    let existing = text("Some notes of mine\n");
    assert_eq!(resolve(false, &existing, "n\n"), Ok(false));
    assert_eq!(resolve(false, &existing, "y\n"), Ok(true));
    assert_eq!(resolve(true, &existing, "n\n"), Ok(true));
    assert_eq!(resolve(true, &existing, "anything"), Ok(true));
}

#[test]
fn prompt_names_the_output_path() {
    assert_eq!(
        overwrite_prompt("out.txt"),
        "Output file 'out.txt' already exists and contains data. Overwrite? (y/n): "
    );
}
