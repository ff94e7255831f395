use nekotatsu_pipeline::busy::{Admission, BusyFlag};
use nekotatsu_pipeline::error::{NetworkFailure, PipelineError, RequiredResource, SelectionField};
use nekotatsu_pipeline::log::{append_line, is_ascii_blank_byte, log_line, trim_ascii, LogBridge};

#[test]
fn ascii_blanks_agree_with_std_on_every_byte() {
    for b in 0..=255u8 {
        assert_eq!(is_ascii_blank_byte(b), b.is_ascii_whitespace());
    }
}

#[test]
fn trim_ascii_strips_both_ends() {
    assert_eq!(trim_ascii(b"  INFO converted 3 \r\n"), b"INFO converted 3".to_vec());
    assert_eq!(trim_ascii(b"\t\x0cx\n"), b"x".to_vec());
    assert_eq!(trim_ascii(b"a  b"), b"a  b".to_vec());
    assert_eq!(trim_ascii(b" \n "), Vec::<u8>::new());
    assert_eq!(trim_ascii(b""), Vec::<u8>::new());
    assert_eq!(trim_ascii(b"\x0bx\x0b"), b"\x0bx\x0b".to_vec());
}

#[test]
fn trim_ascii_agrees_with_std() {
    let samples: [&[u8]; 6] = [b" a ", b"\n\n", b"x", b"  \xc3\xbc \t", b"\r\n line one\nline two \n", b""];
    for sample in samples {
        assert_eq!(trim_ascii(sample), sample.trim_ascii().to_vec());
    }
}

#[test]
fn log_line_is_the_trimmed_text() {
    assert_eq!(log_line(b" INFO done\n"), Some("INFO done".to_string()));
    assert_eq!(log_line("  größe \n".as_bytes()), Some("größe".to_string()));
    assert_eq!(log_line(b"\n"), Some(String::new()));
}

#[test]
fn log_line_of_broken_utf8_is_none() {
    assert_eq!(log_line(b" \xff\xfe \n"), None);
    assert_eq!(log_line(b"ok \xc3"), None);
}

#[test]
fn bridge_forwards_only_while_attached() {
    let mut bridge = LogBridge::new();
    assert_eq!(bridge.emit("early".to_string()), None);
    bridge.attach();
    assert_eq!(bridge.emit("first".to_string()), Some("first".to_string()));
    assert_eq!(bridge.emit("second".to_string()), Some("second".to_string()));
    bridge.detach();
    assert_eq!(bridge.emit("late".to_string()), None);
}

#[test]
fn append_line_adds_the_line_and_a_line_feed() {
    let mut log = String::new();
    append_line(&mut log, "one");
    append_line(&mut log, "two");
    assert_eq!(log, "one\ntwo\n");
}

#[test]
fn second_operation_is_turned_away_until_the_first_is_over() {
    let mut flag = BusyFlag::new();
    assert_eq!(flag.try_begin(), Admission::Started);
    assert_eq!(flag.try_begin(), Admission::Busy);
    assert!(flag.busy);
    flag.finish();
    assert!(!flag.busy);
    assert_eq!(flag.try_begin(), Admission::Started);
}

#[test]
fn every_failure_has_its_message() {
    assert_eq!(
        PipelineError::MissingResource(RequiredResource::Sources).message(),
        "Tachiyomi source list not downloaded"
    );
    assert_eq!(
        PipelineError::MissingResource(RequiredResource::Parsers).message(),
        "Kotatsu parsers list not downloaded"
    );
    assert_eq!(PipelineError::MissingSelection(SelectionField::Backup).message(), "Backup not chosen");
    assert_eq!(PipelineError::MissingSelection(SelectionField::Save).message(), "Save path not set");
    assert_eq!(PipelineError::InvalidExtension.message(), "File must be a .zip file");
    assert_eq!(
        PipelineError::NetworkError(NetworkFailure::Status(404)).message(),
        "Error downloading file: non-OK status code"
    );
    assert_eq!(
        PipelineError::NetworkError(NetworkFailure::Transport("timed out".to_string())).message(),
        "Error downloading file: timed out"
    );
    assert_eq!(
        PipelineError::DerivedTransformError("no zip".to_string()).message(),
        "Failed to update parsers: no zip"
    );
    assert_eq!(
        PipelineError::DecodeError("eof".to_string()).message(),
        "Error decoding backup, was this a valid tachiyomi backup? Original error: eof"
    );
    assert_eq!(
        PipelineError::ContextBuildError("bad".to_string()).message(),
        "Error source/parsers files: bad"
    );
    assert_eq!(
        PipelineError::ArchiveWriteError("full".to_string()).message(),
        "Error saving converted backup: full"
    );
    assert_eq!(PipelineError::UnknownResource("k".to_string()).message(), "Unknown resource: k");
}
