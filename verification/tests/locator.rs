use hakawati::locator::connection_descriptor;
use hakawati::locator::database_file_name;
use hakawati::locator::database_path;

#[test]
fn file_name_is_fixed() {
    assert_eq!(database_file_name(), "hakawati.db");
}

#[test]
fn path_joins_directory_and_file() {
    assert_eq!(
        database_path("/home/user/.local/share/hakawati"),
        "/home/user/.local/share/hakawati/hakawati.db"
    );
}

#[test]
fn descriptor_prefixes_scheme() {
    assert_eq!(
        connection_descriptor("/home/user/.local/share/hakawati/hakawati.db"),
        "sqlite:/home/user/.local/share/hakawati/hakawati.db"
    );
}

#[test]
fn descriptor_keeps_spaces_verbatim() {
    let path = database_path("/home/user name/App Data/hakawati");
    let descriptor = connection_descriptor(&path);
    assert_eq!(descriptor, "sqlite:/home/user name/App Data/hakawati/hakawati.db");
    assert_eq!(descriptor.strip_prefix("sqlite:"), Some(path.as_str()));
}

#[test]
fn descriptor_keeps_non_ascii_verbatim() {
    let dir = "/home/\u{62d}\u{643}\u{648}\u{627}\u{62a}\u{64a}/data";
    let path = database_path(dir);
    let descriptor = connection_descriptor(&path);
    assert_eq!(
        descriptor,
        "sqlite:/home/\u{62d}\u{643}\u{648}\u{627}\u{62a}\u{64a}/data/hakawati.db"
    );
    assert_eq!(descriptor.strip_prefix("sqlite:"), Some(path.as_str()));
}
