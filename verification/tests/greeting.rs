use host_bridge::greeting::greet;

#[test]
fn greet_world() {
    assert_eq!(greet("World"), "Hello, World! You've been greeted from Rust!");
}

#[test]
fn greet_empty_name() {
    assert_eq!(greet(""), "Hello, ! You've been greeted from Rust!");
}

#[test]
fn greet_name_outside_ascii() {
    assert_eq!(greet("Zoë"), "Hello, Zoë! You've been greeted from Rust!");
    assert_eq!(greet("世界"), "Hello, 世界! You've been greeted from Rust!");
    assert_eq!(greet("😀"), "Hello, 😀! You've been greeted from Rust!");
}

#[test]
fn greet_does_not_escape() {
    let name = "<b>\"Tom\" & {}</b>\n";
    assert_eq!(
        greet(name),
        "Hello, <b>\"Tom\" & {}</b>\n! You've been greeted from Rust!"
    );
}

#[test]
fn greet_holds_the_name_behind_the_prefix() {
    for name in ["", "World", "Zoë", "世界", "a b c", "Hello, "] {
        let reply = greet(name);
        let characters: Vec<char> = reply.chars().collect();
        let expected: Vec<char> = name.chars().collect();
        assert_eq!(characters.len(), expected.len() + 39);
        assert_eq!(&characters[7..7 + expected.len()], &expected[..]);
        assert!(reply.contains(name));
    }
}

#[test]
fn greet_gives_the_same_reply_for_the_same_name() {
    for name in ["", "World", "世界"] {
        assert_eq!(greet(name), greet(name));
    }
}

#[test]
fn greet_tells_names_apart() {
    assert_ne!(greet("World"), greet("world"));
    assert_ne!(greet(""), greet(" "));
}
