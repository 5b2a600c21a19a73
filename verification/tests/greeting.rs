use desktop_shell::greeting::greet;

#[test]
fn greets_ada() {
    assert_eq!(greet("Ada"), "Hello, Ada! You've been greeted from Rust!");
}

#[test]
fn greets_the_empty_name() {
    assert_eq!(greet(""), "Hello, ! You've been greeted from Rust!");
}

#[test]
fn keeps_formatting_characters_as_they_are() {
    assert_eq!(greet("{}"), "Hello, {}! You've been greeted from Rust!");
    assert_eq!(greet("{name}"), "Hello, {name}! You've been greeted from Rust!");
    assert_eq!(greet("%s\\n"), "Hello, %s\\n! You've been greeted from Rust!");
    assert_eq!(greet("a\nb"), "Hello, a\nb! You've been greeted from Rust!");
}

#[test]
fn keeps_names_outside_ascii() {
    assert_eq!(greet("Zoë 🦀"), "Hello, Zoë 🦀! You've been greeted from Rust!");
}

#[test]
fn is_the_name_between_opening_and_ending() {
    for name in ["", " ", "Grace Hopper", "!", "Hello, ", "\"quoted\""] {
        let expected = format!("Hello, {}! You've been greeted from Rust!", name);
        assert_eq!(greet(name), expected);
    }
}
