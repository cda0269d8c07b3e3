use tauri_app::greeting::greet;

#[test]
fn greets_plain_name() {
    assert_eq!(greet(String::from("World")), "Hello, World!");
}

#[test]
fn greets_empty_name() {
    assert_eq!(greet(String::from("")), "Hello, !");
}

#[test]
fn greets_non_ascii_name() {
    assert_eq!(greet(String::from("Fran\u{e7}ois")), "Hello, Fran\u{e7}ois!");
}

#[test]
fn greets_name_with_embedded_newline() {
    assert_eq!(greet(String::from("a\nb")), "Hello, a\nb!");
}

#[test]
fn greets_whitespace_only_name() {
    assert_eq!(greet(String::from("  \t ")), "Hello,   \t !");
}

#[test]
fn repeated_calls_agree() {
    let first = greet(String::from("World"));
    let second = greet(String::from("World"));
    assert_eq!(first, second);
}

#[test]
fn never_fails_on_unusual_inputs() {
    let inputs = ["", " ", "\0", "\u{1F600}", "name\twith\tcontrols\r\n", "!{}%s"];
    for input in inputs {
        let out = greet(String::from(input));
        assert_eq!(out, format!("Hello, {}!", input));
    }
}
