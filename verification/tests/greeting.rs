use snom_sql::greeting::greet;

#[test]
fn greeting_names_the_guest() {
    assert_eq!(greet("Ada"), "Hello, Ada! You've been greeted from Rust!");
}

#[test]
fn greeting_of_nobody_keeps_its_frame() {
    assert_eq!(greet(""), "Hello, ! You've been greeted from Rust!");
}
