use nekotatsu_pipeline::error::PipelineError;
use nekotatsu_pipeline::selection::{SelectedPath, SelectionState, Snapshot};

fn path(text: &str, extension: Option<&str>) -> SelectedPath {
    SelectedPath::Path { text: text.to_string(), extension: extension.map(|e| e.to_string()) }
}

fn url(text: &str) -> SelectedPath {
    SelectedPath::Url { text: text.to_string() }
}

#[test]
fn new_state_is_empty() {
    let state = SelectionState::new();
    assert_eq!(state.snapshot(), Snapshot { backup_path: None, save_path: None });
    assert_eq!(SelectionState::default(), SelectionState::new());
}

#[test]
fn from_path_reads_the_extension_of_the_last_component() {
    assert_eq!(
        SelectedPath::from_path("/home/u/backup.zip".to_string()),
        path("/home/u/backup.zip", Some("zip"))
    );
    assert_eq!(
        SelectedPath::from_path("backup.tar.gz".to_string()),
        path("backup.tar.gz", Some("gz"))
    );
    assert_eq!(SelectedPath::from_path("backup".to_string()), path("backup", None));
    assert_eq!(SelectedPath::from_path(".zip".to_string()), path(".zip", None));
    assert_eq!(SelectedPath::from_path("dir.zip/backup".to_string()), path("dir.zip/backup", None));
    assert_eq!(SelectedPath::from_path("".to_string()), path("", None));
}

#[test]
fn from_url_keeps_the_text() {
    assert_eq!(SelectedPath::from_url("content://docs/b.zip".to_string()), url("content://docs/b.zip"));
}

#[test]
fn text_is_what_was_given() {
    assert_eq!(SelectedPath::from_path("/a/b.zip".to_string()).text(), "/a/b.zip");
    assert_eq!(url("content://x").text(), "content://x");
}

#[test]
fn archive_extension_of_a_path_is_its_extension() {
    assert!(path("b.zip", Some("zip")).carries_archive_extension());
    assert!(!path("b.zip", Some("ZIP")).carries_archive_extension());
    assert!(!path("b.zipx", Some("zipx")).carries_archive_extension());
    assert!(!path("b", None).carries_archive_extension());
    assert!(SelectedPath::from_path("out/converted.zip".to_string()).carries_archive_extension());
    assert!(!SelectedPath::from_path(".zip".to_string()).carries_archive_extension());
    assert!(!SelectedPath::from_path("converted.json".to_string()).carries_archive_extension());
}

#[test]
fn archive_extension_of_a_uri_is_its_ending() {
    assert!(url("content://docs/b.zip").carries_archive_extension());
    assert!(url(".zip").carries_archive_extension());
    assert!(!url("content://docs/b.zip?x=1").carries_archive_extension());
    assert!(!url("content://docs/bzip").carries_archive_extension());
    assert!(!url("").carries_archive_extension());
}

#[test]
fn set_backup_path_replaces_unconditionally() {
    let mut state = SelectionState::new();
    state.set_backup_path(path("first.tachibk", Some("tachibk")));
    state.set_backup_path(url("content://second"));
    let s = state.snapshot();
    assert_eq!(s.backup_path, Some(url("content://second")));
    assert_eq!(s.save_path, None);
}

#[test]
fn set_save_path_accepts_an_archive() {
    let mut state = SelectionState::new();
    assert_eq!(state.set_save_path(path("out.zip", Some("zip"))), Ok(()));
    assert_eq!(state.snapshot().save_path, Some(path("out.zip", Some("zip"))));
    assert_eq!(state.set_save_path(url("content://out2.zip")), Ok(()));
    assert_eq!(state.snapshot().save_path, Some(url("content://out2.zip")));
}

#[test]
fn set_save_path_refuses_another_extension_and_keeps_the_state() {
    let mut state = SelectionState::new();
    state.set_backup_path(path("b.tachibk", Some("tachibk")));
    assert_eq!(state.set_save_path(path("out.txt", Some("txt"))), Err(PipelineError::InvalidExtension));
    assert_eq!(state.snapshot().save_path, None);
    assert_eq!(state.set_save_path(path("good.zip", Some("zip"))), Ok(()));
    assert_eq!(state.set_save_path(url("content://out.tar")), Err(PipelineError::InvalidExtension));
    assert_eq!(state.set_save_path(path("noext", None)), Err(PipelineError::InvalidExtension));
    let s = state.snapshot();
    assert_eq!(s.save_path, Some(path("good.zip", Some("zip"))));
    assert_eq!(s.backup_path, Some(path("b.tachibk", Some("tachibk"))));
}

#[test]
fn clone_of_a_path_is_equal() {
    let p = path("a/b.zip", Some("zip"));
    assert_eq!(p.clone(), p);
    let u = url("content://b.zip");
    assert_eq!(u.clone(), u);
}

#[test]
fn from_path_reads_the_extension_a_text_plainly_shows() {
    let cases = [
        ("/data/out.zip", "zip"),
        ("out.zip", "zip"),
        ("C:x.zip", "zip"),
        ("dir\\out.zip", "zip"),
        ("a/b/c.tar", "tar"),
        ("archive.tar.gz", "gz"),
        ("/home/u/..zip", "zip"),
        ("x.z", "z"),
    ];
    for (text, extension) in cases {
        assert_eq!(
            SelectedPath::from_path(text.to_string()),
            path(text, Some(extension)),
        );
    }
}

#[test]
fn a_path_that_shows_zip_is_taken_as_destination_and_no_other() {
    let mut state = SelectionState::new();
    assert_eq!(state.set_save_path(SelectedPath::from_path("/data/out.zip".to_string())), Ok(()));
    assert_eq!(
        state.set_save_path(SelectedPath::from_path("/data/out.tar".to_string())),
        Err(PipelineError::InvalidExtension)
    );
    assert_eq!(state.snapshot().save_path, Some(path("/data/out.zip", Some("zip"))));
}
