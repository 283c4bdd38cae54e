use codepack::text::first_line;
use codepack::{DirectoryProcessor, ExistingOutput, WalkEntry};

#[test]
fn test_should_process_file_empty_path() {
    let processor = DirectoryProcessor::new(vec![], vec![], false, String::new(), false, vec![]);
    assert!(!processor.should_process_file(""));
}

#[test]
fn test_should_process_file_regular_file() {
    let processor = DirectoryProcessor::new(vec![], vec![], false, String::new(), false, vec![]);
    assert!(processor.should_process_file("test.txt"));
}

#[test]
fn test_should_process_file_included_extension() {
    let processor = DirectoryProcessor::new(
        vec!["rs".to_string()],
        vec![],
        false,
        String::new(),
        false,
        vec![],
    );
    assert!(processor.should_process_file("main.rs"));
}

#[test]
fn test_should_process_file_excluded_file() {
    let processor = DirectoryProcessor::new(
        vec![],
        vec!["main.rs".to_string()],
        false,
        String::new(),
        false,
        vec![],
    );
    assert!(!processor.should_process_file("main.rs"));
}

#[test]
fn test_should_process_file_excluded_file_by_name() {
    let processor = DirectoryProcessor::new(
        vec![],
        vec!["status".to_string()],
        false,
        String::new(),
        false,
        vec![],
    );
    assert!(!processor.should_process_file("/home/json/code/src/status"));
}

#[test]
fn test_should_process_file_excluded_globed_file() {
    let processor = DirectoryProcessor::new(
        vec![],
        vec!["*.py".to_string()],
        false,
        String::new(),
        false,
        vec![],
    );
    assert!(!processor.should_process_file("script.py"));
}

#[test]
fn test_validate_output_file() {
    // The output path holds a file that this engine did not write.
    let existing = ExistingOutput::Text { first_line: "This is a test file.".to_string() };
    let output_path = "test.txt".to_string();

    let processor = DirectoryProcessor::new(
        vec!["txt".to_string()],
        vec![],
        false,
        output_path,
        false,
        vec![],
    );

    // if user chooses not to overwrite, should return false
    assert!(!processor
        .validate_output_file(false, &existing, "n\n")
        .expect("Failed to validate output file"));

    // if forced overwrite, should return true
    assert!(processor
        .validate_output_file(true, &existing, "n\n")
        .expect("Failed to validate output file"));
}

#[test]
fn test_run_and_validate_output_file() {
    let output_path = "test.txt".to_string();

    let processor = DirectoryProcessor::new(
        vec!["txt".to_string()],
        vec![],
        false,
        output_path,
        false,
        vec![],
    );

    // The directory is empty and the output file does not exist yet.
    let report = processor
        .run(&ExistingOutput::Absent, "", &vec![])
        .expect("Failed to run processor")
        .expect("Failed to run processor");

    // What the run wrote is what the output path now holds.
    let existing = ExistingOutput::Text { first_line: first_line(&report.output).to_string() };

    // should return true because it is processor generated content
    assert!(processor
        .validate_output_file(false, &existing, "n\n")
        .expect("Failed to validate output file"));
}

#[test]
fn test_integration() {
    // A directory with one file, `test.txt`, and no output file yet.
    let entries = vec![WalkEntry {
        path: "test.txt".to_string(),
        is_dir: false,
        is_file: true,
        content: Some("This is a test file.".to_string()),
    }];

    let processor =
        DirectoryProcessor::new(vec![], vec![], false, "output.txt".to_string(), false, vec![]);
    let report = processor
        .run(&ExistingOutput::Absent, "", &entries)
        .expect("the output is readable")
        .expect("the run is not aborted");

    // Check the output
    let output_content = report.output;
    assert!(output_content.contains("This is a test file."));
}
