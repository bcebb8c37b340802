use batch_renamer::batch::{error_message, summarize, Outcome, RenameResult};

fn failed(message: &str) -> Outcome {
    Outcome::Failed(String::from(message))
}

fn attempt(path: &str, outcome: Outcome) -> (String, Outcome) {
    (String::from(path), outcome)
}

#[test]
fn renamed_file_leaves_no_message() {
    assert_eq!(error_message("/tmp/a.txt", &Outcome::Renamed), None);
}

#[test]
fn refused_rename_leaves_path_and_cause() {
    assert_eq!(
        error_message("/nonexistent/file.txt", &failed("No such file or directory (os error 2)")),
        Some(String::from(
            "Failed to rename /nonexistent/file.txt: No such file or directory (os error 2)"
        ))
    );
}

#[test]
fn invalid_path_leaves_the_path() {
    assert_eq!(error_message("/", &Outcome::Invalid), Some(String::from("Invalid path: /")));
    assert_eq!(error_message("", &Outcome::Invalid), Some(String::from("Invalid path: ")));
}

#[test]
fn new_result_is_an_empty_success() {
    let result = RenameResult::new();
    assert!(result.success);
    assert_eq!(result.renamed, 0);
    assert!(result.errors.is_empty());
}

#[test]
fn record_counts_a_renamed_file() {
    let result = RenameResult::new().record("/tmp/a.txt", &Outcome::Renamed);
    assert_eq!(result, RenameResult { success: true, renamed: 1, errors: vec![] });
}

#[test]
fn record_adds_the_message_of_a_failure() {
    let result = RenameResult::new().record("/tmp/a.txt", &failed("denied"));
    assert_eq!(
        result,
        RenameResult {
            success: false,
            renamed: 0,
            errors: vec![String::from("Failed to rename /tmp/a.txt: denied")],
        }
    );
}

#[test]
fn record_turns_failure_into_success_with_the_first_rename() {
    let result = RenameResult::new()
        .record("/", &Outcome::Invalid)
        .record("/tmp/a.txt", &Outcome::Renamed);
    assert_eq!(
        result,
        RenameResult { success: true, renamed: 1, errors: vec![String::from("Invalid path: /")] }
    );
}

#[test]
fn record_goes_by_the_counts_not_by_the_flag() {
    let before = RenameResult { success: false, renamed: 2, errors: vec![] };
    let result = before.record("/x", &Outcome::Invalid);
    assert_eq!(
        result,
        RenameResult { success: true, renamed: 2, errors: vec![String::from("Invalid path: /x")] }
    );
}

#[test]
fn empty_batch_is_a_success() {
    let result = summarize(&vec![]);
    assert_eq!(result, RenameResult { success: true, renamed: 0, errors: vec![] });
}

#[test]
fn single_rename_succeeds() {
    let result = summarize(&vec![attempt("/tmp/photo.jpg", Outcome::Renamed)]);
    assert_eq!(result, RenameResult { success: true, renamed: 1, errors: vec![] });
}

#[test]
fn single_missing_source_fails() {
    let result = summarize(&vec![attempt(
        "/nonexistent/file.txt",
        failed("No such file or directory (os error 2)"),
    )]);
    assert!(!result.success);
    assert_eq!(result.renamed, 0);
    assert_eq!(
        result.errors,
        vec![String::from(
            "Failed to rename /nonexistent/file.txt: No such file or directory (os error 2)"
        )]
    );
}

#[test]
fn one_success_and_one_failure_is_a_success() {
    let result = summarize(&vec![
        attempt("/tmp/a.txt", Outcome::Renamed),
        attempt("/nonexistent/b.txt", failed("No such file or directory (os error 2)")),
    ]);
    assert!(result.success);
    assert_eq!(result.renamed, 1);
    assert_eq!(
        result.errors,
        vec![String::from(
            "Failed to rename /nonexistent/b.txt: No such file or directory (os error 2)"
        )]
    );
}

#[test]
fn all_renamed_counts_every_file() {
    let attempts: Vec<(String, Outcome)> =
        (0..5).map(|i| attempt(&format!("/tmp/{}.txt", i), Outcome::Renamed)).collect();
    let result = summarize(&attempts);
    assert_eq!(result, RenameResult { success: true, renamed: 5, errors: vec![] });
}

#[test]
fn none_renamed_leaves_one_message_each() {
    let result = summarize(&vec![
        attempt("/a", failed("denied")),
        attempt("/", Outcome::Invalid),
        attempt("/b", failed("busy")),
    ]);
    assert!(!result.success);
    assert_eq!(result.renamed, 0);
    assert_eq!(
        result.errors,
        vec![
            String::from("Failed to rename /a: denied"),
            String::from("Invalid path: /"),
            String::from("Failed to rename /b: busy"),
        ]
    );
}

#[test]
fn failure_does_not_stop_the_batch() {
    let result = summarize(&vec![
        attempt("/a", failed("denied")),
        attempt("/b", Outcome::Renamed),
        attempt("", Outcome::Invalid),
        attempt("/c", Outcome::Renamed),
    ]);
    assert!(result.success);
    assert_eq!(result.renamed, 2);
    assert_eq!(
        result.errors,
        vec![String::from("Failed to rename /a: denied"), String::from("Invalid path: ")]
    );
    assert_eq!(result.renamed + result.errors.len(), 4);
}

#[test]
fn duplicate_paths_are_entered_one_by_one() {
    let result = summarize(&vec![
        attempt("/tmp/a.txt", Outcome::Renamed),
        attempt("/tmp/a.txt", failed("No such file or directory (os error 2)")),
    ]);
    assert!(result.success);
    assert_eq!(result.renamed, 1);
    assert_eq!(result.errors.len(), 1);
    assert!(result.errors[0].contains("/tmp/a.txt"));
}

#[test]
fn summarize_is_record_in_order() {
    let attempts = vec![
        attempt("/a", Outcome::Renamed),
        attempt("/b", failed("denied")),
        attempt("/", Outcome::Invalid),
    ];
    let mut step = RenameResult::new();
    for (path, outcome) in &attempts {
        step = step.record(path, outcome);
    }
    assert_eq!(summarize(&attempts), step);
}
