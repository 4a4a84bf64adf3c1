use hakawati::greeting::greet;

#[test]
fn greet_ali_exact() {
    assert_eq!(greet("Ali"), "Hello, Ali! You've been greeted from Rust!");
}

#[test]
fn greet_world_exact() {
    assert_eq!(greet("World"), "Hello, World! You've been greeted from Rust!");
}

#[test]
fn greet_empty_name() {
    assert_eq!(greet(""), "Hello, ! You've been greeted from Rust!");
}

#[test]
fn greet_non_ascii_name() {
    assert_eq!(
        greet("\u{623}\u{644}\u{641}"),
        "Hello, \u{623}\u{644}\u{641}! You've been greeted from Rust!"
    );
}
