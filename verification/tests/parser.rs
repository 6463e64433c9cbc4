use todocli::command_parser::{is_confirm, parse};
use todocli::task::Task;
use todocli::task_parser::{from_text, to_text};
use todocli::utils::trim_str;
use todocli::validators::{are_strings_integers, is_arguments_integer, parse_index};

#[test]
fn test_is_confirm() {
    assert!(is_confirm("y"));
    assert!(is_confirm("Y"));
    assert!(is_confirm("yes"));
    assert!(is_confirm("Yes"));
    assert!(is_confirm("YES"));
}

#[test]
fn test_is_confirm_declines() {
    assert!(!is_confirm("n"));
    assert!(!is_confirm("no"));
    assert!(!is_confirm(""));
    assert!(!is_confirm("yess"));
    assert!(!is_confirm("ye"));
    assert!(!is_confirm("maybe"));
}

#[test]
fn test_parse_empty() {
    let result = parse("");
    assert!(result.command == "");
    assert!(result.arguments.len() == 0);
}

#[test]
fn test_parse_command() {
    let command = "hello";
    let result = parse(command);
    assert!(result.command == command);
}

#[test]
fn test_parse_with_arguments() {
    let result = parse("hello a b");
    assert!(result.command == "hello");
    assert!(result.arguments.len() == 2);
    assert!(result.arguments[0] == "a");
    assert!(result.arguments[1] == "b");
}

#[test]
fn test_parse_extra_whitespace() {
    let result = parse("   hello \t  a   b  ");
    assert!(result.command == "hello");
    assert!(result.arguments.len() == 2);
    assert!(result.arguments[0] == "a");
    assert!(result.arguments[1] == "b");
}

#[test]
fn task_parser_test_to_text() {
    let expected = String::from("1) [ ] test1;\n2) [+] test2;\n");

    let task1 = Task { text: "test1".to_string(), is_done: false };

    let task2 = Task { text: "test2".to_string(), is_done: true };

    let result = to_text(&vec![task1, task2]);

    assert!(expected == result);
}

#[test]
fn task_parser_test_from_text() {
    let expected = [("test1", false), ("test2", true)];

    let result = from_text("1) [ ] test1;\n2) [+] test2;\n").unwrap();

    for (index, task) in result.iter().enumerate() {
        assert!(task.text == expected[index].0);
        assert!(task.is_done == expected[index].1);
    }
}

#[test]
fn test_are_strings_integers_true() {
    let args = vec!["1".to_string(), "2".to_string(), "42".to_string()];
    assert!(are_strings_integers(&args));
}

#[test]
fn test_is_strings_integers_false() {
    let args = vec!["1".to_string(), "two".to_string(), "42".to_string()];
    assert!(!are_strings_integers(&args));
}

#[test]
fn test_is_arguments_integer_empty() {
    let none: Vec<String> = vec![];
    assert!(!is_arguments_integer(&none));
    assert!(is_arguments_integer(&vec!["7".to_string()]));
}

#[test]
fn test_trim_str() {
    assert_eq!(trim_str("    hello   world!  "), "hello world!");
}

#[test]
fn test_parse_index_values() {
    assert_eq!(parse_index("1"), Some(1));
    assert_eq!(parse_index("42"), Some(42));
    assert_eq!(parse_index("10"), Some(10));
    assert_eq!(parse_index("200"), Some(200));
    assert_eq!(parse_index("0"), None);
    assert_eq!(parse_index("007"), None);
    assert_eq!(parse_index(""), None);
    assert_eq!(parse_index("two"), None);
    assert_eq!(parse_index("1x"), None);
    assert_eq!(parse_index("99999999999999999999999999999999"), None);
}
