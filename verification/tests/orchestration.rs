use sub::errors::SubError;
use sub::job::step_after;
use sub::job::step_failure;
use sub::job::writer_kind;
use sub::job::InPlaceStep;
use sub::job::Input;
use sub::job::Route;
use sub::job::Sub;
use sub::job::WriterKind;
use sub::lines::split_lines;

fn job(pattern: &str, in_place: bool, inputs: Vec<Input>) -> Sub {
    Sub::init(
        pattern.to_string(),
        "bar".to_string(),
        in_place,
        false,
        false,
        None,
        inputs,
    )
}

#[test]
fn invalid_pattern_is_rejected() {
    let bad = job("(", false, vec![Input::StdIn]);
    assert_eq!(bad.plan().err(), Some(SubError::RegexError));
}

#[test]
fn invalid_line_filter_is_rejected() {
    let bad = Sub::init(
        "foo".to_string(),
        "bar".to_string(),
        false,
        false,
        false,
        Some("(".to_string()),
        vec![Input::StdIn],
    );
    assert_eq!(bad.plan().err(), Some(SubError::RegexError));
}

#[test]
fn in_place_without_file_input_is_rejected() {
    let bad = job("foo", true, vec![Input::StdIn]);
    assert_eq!(bad.plan().err(), Some(SubError::InPlaceRequiresFile));
}

#[test]
fn in_place_with_file_input_is_accepted() {
    let ok = job("foo", true, vec![Input::File("notes.txt".to_string())]);
    assert!(ok.plan().is_ok());
}

#[test]
fn routing_follows_in_place_mode() {
    let in_place = job("foo", true, vec![Input::File("notes.txt".to_string())]);
    assert_eq!(in_place.route(&Input::File("notes.txt".to_string())), Route::InPlace);
    assert_eq!(in_place.route(&Input::StdIn), Route::Stream);
    let streaming = job("foo", false, vec![Input::File("notes.txt".to_string())]);
    assert_eq!(streaming.route(&Input::File("notes.txt".to_string())), Route::Stream);
}

#[test]
fn writer_kind_follows_terminal() {
    assert_eq!(writer_kind(true), WriterKind::Interactive);
    assert_eq!(writer_kind(false), WriterKind::Buffered);
}

#[test]
fn step_failures_map_to_errors() {
    assert_eq!(
        step_failure(&InPlaceStep::OpenOriginal, "a.txt", "tmp", "cause"),
        SubError::FileNotFoundError("a.txt".to_string())
    );
    assert_eq!(
        step_failure(&InPlaceStep::CreateTempFile, "a.txt", "tmp", "cause"),
        SubError::CanNotCreateTempFile
    );
    assert_eq!(
        step_failure(&InPlaceStep::ReadPermissions, "a.txt", "tmp", "cause"),
        SubError::CanNotReadPermissions("a.txt".to_string())
    );
    assert_eq!(
        step_failure(&InPlaceStep::SetPermissions, "a.txt", "tmp", "cause"),
        SubError::CanNotSetPermissions("tmp".to_string())
    );
    assert_eq!(
        step_failure(&InPlaceStep::CopyBack, "a.txt", "tmp", "cause"),
        SubError::CanNotReplaceInPlace("a.txt".to_string(), "cause".to_string())
    );
}

#[test]
fn steps_follow_protocol_order() {
    assert_eq!(step_after(&InPlaceStep::OpenOriginal), Some(InPlaceStep::CreateTempFile));
    assert_eq!(step_after(&InPlaceStep::CreateTempFile), Some(InPlaceStep::Replace));
    assert_eq!(step_after(&InPlaceStep::Replace), Some(InPlaceStep::ReadPermissions));
    assert_eq!(step_after(&InPlaceStep::ReadPermissions), Some(InPlaceStep::SetPermissions));
    assert_eq!(step_after(&InPlaceStep::SetPermissions), Some(InPlaceStep::CopyBack));
    assert_eq!(step_after(&InPlaceStep::CopyBack), None);
}

#[test]
fn error_messages_match_diagnostics() {
    assert_eq!(SubError::FailedToWrite.message(), "Output stream has been closed");
    assert_eq!(SubError::InvalidUTF8.message(), "Input contains invalid UTF-8");
    assert_eq!(SubError::RegexError.message(), "Regex error");
    assert_eq!(
        SubError::InPlaceRequiresFile.message(),
        "In-place editing requires at least one file input"
    );
    assert_eq!(
        SubError::FileNotFoundError("a.txt".to_string()).message(),
        "Can not open file 'a.txt'"
    );
    assert_eq!(
        SubError::CanNotCreateTempFile.message(),
        "Can not create temp file"
    );
    assert_eq!(
        SubError::CanNotReadPermissions("a.txt".to_string()).message(),
        "Can not read permissions on file 'a.txt'"
    );
    assert_eq!(
        SubError::CanNotSetPermissions("tmp".to_string()).message(),
        "Can not set permissions on file 'tmp'"
    );
    assert_eq!(
        SubError::CanNotReplaceInPlace("a.txt".to_string(), "boom".to_string()).message(),
        "Can not replace in place for file 'a.txt' with error 'boom'"
    );
}

#[test]
fn split_lines_keeps_terminators() {
    assert_eq!(split_lines("a\r\nb\nc"), vec!["a\r\n", "b\n", "c"]);
    assert_eq!(split_lines("one\n"), vec!["one\n"]);
    assert_eq!(split_lines("\n\n"), vec!["\n", "\n"]);
    assert!(split_lines("").is_empty());
}
