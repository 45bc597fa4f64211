use greeting_service::printer::Printer;

#[test]
fn test_say_should_return_the_correct_say() {
    let printer = Printer {};
    let who = "Tom".to_owned();
    let actual = printer.say(who);
    let expected = "Hi Tom!".to_owned();

    assert_eq!(actual, expected);
}

#[test]
fn test_say_should_return_without_space_on_empty_who() {
    let printer = Printer {};
    let who = "".to_owned();
    let actual = printer.say(who);
    let expected = "Hi!".to_owned();

    assert_eq!(actual, expected);
}

#[test]
fn say_wraps_every_non_empty_name() {
    let printer = Printer {};
    for who in ["a", " ", "Tom Sawyer", "  padded  ", "été", "!", "Hi"] {
        assert_eq!(printer.say(who.to_owned()), format!("Hi {}!", who));
    }
}

#[test]
fn say_keeps_blank_names_as_they_are() {
    let printer = Printer {};
    assert_eq!(printer.say(" ".to_owned()), "Hi  !");
}

#[test]
fn say_optional_greets_absent_and_empty_alike() {
    let printer = Printer {};
    assert_eq!(printer.say_optional(None), "Hi!");
    assert_eq!(printer.say_optional(Some(String::new())), "Hi!");
    assert_eq!(printer.say_optional(None), printer.say(String::new()));
}

#[test]
fn say_optional_greets_a_present_name() {
    let printer = Printer {};
    assert_eq!(printer.say_optional(Some("World".to_owned())), "Hi World!");
}
