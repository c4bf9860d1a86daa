use hugo_to_json::cli_error::{CliError, ParseError as CliParseError};
use hugo_to_json::hugo_to_json_error::HugotoJsonError;
use hugo_to_json::operation_result::{OperationResult, ParseError, PathError, Skip};
use hugo_to_json::program_error::{MetaError, ProgramError};

#[test]
fn parse_error_message_and_description() {
    let err = ParseError::new("/blog/post/a.md", "Could not parse TOML front matter");
    assert_eq!(
        err.message(),
        "Error at /blog/post/a.md. Could not parse TOML front matter. Skipping."
    );
    assert_eq!(err.description(), "Could not parse TOML front matter");
}

#[test]
fn skip_message_matches_draft_notice() {
    let skip = Skip::new("/tmp/post.md", "Is draft");
    assert_eq!(skip.message(), "Skipping /tmp/post.md. Is draft");
    assert_eq!(skip.description(), "Is draft");
    assert_eq!(skip, Skip::new("/tmp/post.md", "Is draft"));
}

#[test]
fn path_error_message_and_description() {
    let err = PathError::new("/tmp/x", "Failed to determine extension.");
    assert_eq!(err.message(), "Skipping /tmp/x. Failed to determine extension.");
    assert_eq!(err.description(), "Failed to determine extension.");
}

#[test]
fn operation_result_from_each_error() {
    let skip: OperationResult = Skip::new("d", "r").into();
    assert!(matches!(skip, OperationResult::Skip(_)));
    assert_eq!(skip.message(), "Skipped: Skipping d. r");

    let parse: OperationResult = ParseError::new("d", "i").into();
    assert!(matches!(parse, OperationResult::Parse(_)));
    assert_eq!(parse.message(), "Parse error: Error at d. i. Skipping.");

    let path: OperationResult = PathError::new("d", "r").into();
    assert!(matches!(path, OperationResult::Path(_)));
    assert_eq!(path.message(), "Path manipulaiton error: Skipping d. r");

    let io: OperationResult = std::io::Error::new(std::io::ErrorKind::Other, "disk gone").into();
    assert!(matches!(io, OperationResult::Io(_)));
    assert_eq!(io.message(), "IO error: disk gone");
}

#[test]
fn meta_error_renders_count_in_decimal() {
    let err = MetaError::new(1205, "failed files");
    assert_eq!(err.message(), "Program Error failed files: 1205");
    assert_eq!(err.description(), "failed files");
    assert_eq!(MetaError::new(0, "none").message(), "Program Error none: 0");
    assert_eq!(MetaError::new(10, "ten").message(), "Program Error ten: 10");
    assert_eq!(
        MetaError::new(usize::MAX, "max").message(),
        format!("Program Error max: {}", usize::MAX)
    );
}

#[test]
fn program_error_messages() {
    let meta: ProgramError = MetaError::new(3, "bad").into();
    assert_eq!(meta.message(), "Serialization error: Program Error bad: 3");
    assert_eq!(meta.description(), "bad");

    let io: ProgramError = std::io::Error::new(std::io::ErrorKind::Other, "oops").into();
    assert_eq!(io.message(), "IO error: oops");

    let json_err = serde_json::from_str::<serde_json::Value>("{").unwrap_err();
    let expected = format!("Serialization error: {}", json_err);
    let ser: ProgramError = json_err.into();
    assert!(matches!(ser, ProgramError::SerializationError(_)));
    assert_eq!(ser.message(), expected);
}

#[test]
fn hugo_to_json_error_from_io_and_json() {
    let io: HugotoJsonError = std::io::Error::new(std::io::ErrorKind::NotFound, "x").into();
    assert!(matches!(io, HugotoJsonError::Io(_)));
    let json_err = serde_json::from_str::<serde_json::Value>("[").unwrap_err();
    let ser: HugotoJsonError = json_err.into();
    assert!(matches!(ser, HugotoJsonError::Serialization(_)));
}

#[test]
fn cli_parse_error_keeps_cause() {
    let cause = std::io::Error::new(std::io::ErrorKind::Other, "inner");
    let err = CliParseError::new(String::from("/d"), "info", Some(&cause));
    assert_eq!(err.message(), "Error at /d. info. Skipping.");
    assert_eq!(err.description(), "Error at /d. info. Skipping.");
    assert_eq!(err.cause().unwrap().to_string(), "inner");

    let no_cause: CliParseError<u8> = CliParseError::new(String::from("/e"), "i", None);
    assert!(no_cause.cause().is_none());
}

#[test]
fn cli_error_messages() {
    let parse: CliError<u8> = CliError::Parse(CliParseError::new(String::from("/d"), "i", None));
    assert_eq!(parse.message(), "Parse error: Error at /d. i. Skipping.");
    assert_eq!(parse.description(), "Error at /d. i. Skipping.");
    let io: CliError<u8> = CliError::Io(std::io::Error::new(std::io::ErrorKind::Other, "boom"));
    assert_eq!(io.message(), "IO error: boom");
}

#[test]
fn hugo_to_json_error_messages() {
    assert_eq!(
        HugotoJsonError::Meta { total: 42 }.message(),
        "An error occurred. Failed to process 42 files."
    );
    assert_eq!(HugotoJsonError::Unknown.message(), "Unknown error");
    let io: HugotoJsonError = std::io::Error::new(std::io::ErrorKind::Other, "gone").into();
    assert_eq!(io.message(), "IO Error: gone");
    let json_err = serde_json::from_str::<serde_json::Value>("[").unwrap_err();
    let expected = format!("An error occurred serializing the index: {}", json_err);
    let ser: HugotoJsonError = json_err.into();
    assert_eq!(ser.message(), expected);
}
