use pdf_reader::greeting::greet;

#[test]
fn greeting_names_the_caller() {
    assert_eq!(greet("Ada"), "Hello, Ada! You've been greeted from Rust!");
}

#[test]
fn greeting_of_nobody() {
    assert_eq!(greet(""), "Hello, ! You've been greeted from Rust!");
}
