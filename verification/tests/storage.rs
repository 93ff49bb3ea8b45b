use nomi::storage::{content_bytes, delete_outcome, public_url, read_outcome, FsFailure, LocalFsError, LocalFsStore};

#[test]
fn objects_live_under_the_root() {
    let store = LocalFsStore::at("./data/projects".to_string());
    assert_eq!(store.object_path("proj/index.html"), "./data/projects/proj/index.html");
    assert_eq!(LocalFsStore::at("/srv/".to_string()).object_path("a.txt"), "/srv/a.txt");
    assert_eq!(LocalFsStore::at(String::new()).object_path("a.txt"), "a.txt");
    assert_eq!(LocalFsStore::at("/srv".to_string()).object_path("/etc/x"), "/etc/x");
    let joined = std::path::Path::new("./data/projects").join("proj/index.html");
    assert_eq!(store.object_path("proj/index.html"), joined.to_str().unwrap());
}

#[test]
fn round_trips_a_file() {
    let written = content_bytes("<h1>hi</h1>");
    assert_eq!(read_outcome(Ok(written)), Ok(Some("<h1>hi</h1>".to_string())));
}

#[test]
fn missing_file_is_none_not_error() {
    let gone = FsFailure { not_found: true, message: "No such file or directory".to_string() };
    assert_eq!(read_outcome(Err(gone)), Ok(None));
}

#[test]
fn delete_is_idempotent() {
    assert_eq!(delete_outcome(Ok(())), Ok(()));
    let gone = FsFailure { not_found: true, message: "No such file or directory".to_string() };
    assert_eq!(delete_outcome(Err(gone)), Ok(()));
    let denied = FsFailure { not_found: false, message: "Permission denied".to_string() };
    assert_eq!(delete_outcome(Err(denied)), Err(LocalFsError::Io("Permission denied".to_string())));
}

#[test]
fn unreadable_text_is_a_utf8_error() {
    match read_outcome(Ok(vec![0xff, 0xfe])) {
        Err(LocalFsError::Utf8(m)) => assert_eq!(m, String::from_utf8(vec![0xff, 0xfe]).unwrap_err().to_string()),
        other => panic!("unexpected {other:?}"),
    }
    let denied = FsFailure { not_found: false, message: "Permission denied".to_string() };
    assert_eq!(read_outcome(Err(denied)), Err(LocalFsError::Io("Permission denied".to_string())));
}

#[test]
fn public_urls_join_base_and_key_with_one_slash() {
    assert_eq!(public_url("https://cdn.example.com//", "avatars/a.png"), "https://cdn.example.com/avatars/a.png");
    assert_eq!(public_url("https://cdn.example.com", "avatars/a.png"), "https://cdn.example.com/avatars/a.png");
}
