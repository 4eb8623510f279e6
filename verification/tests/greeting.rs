use app_shell::greeting::greet;

#[test]
fn greet_world() {
    assert_eq!(greet("World"), "Hello, World! You've been greeted from Rust!");
}

#[test]
fn greet_empty_name() {
    assert_eq!(greet(""), "Hello, ! You've been greeted from Rust!");
}

#[test]
fn greet_keeps_template_text_in_name() {
    let name = "Hello, X! You've been greeted from Rust!";
    assert_eq!(
        greet(name),
        "Hello, Hello, X! You've been greeted from Rust!! You've been greeted from Rust!"
    );
}

#[test]
fn greet_repeated_calls_agree() {
    let first = greet("World");
    let second = greet("World");
    assert_eq!(first, second);
    let third = greet("World");
    assert_eq!(second, third);
}

#[test]
fn greet_template_constant_across_calls() {
    assert_eq!(greet("a"), "Hello, a! You've been greeted from Rust!");
    assert_eq!(greet("b"), "Hello, b! You've been greeted from Rust!");
    assert_eq!(greet("a"), "Hello, a! You've been greeted from Rust!");
}
