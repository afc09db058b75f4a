use shoplist::render::{help_text, render_list, u64_to_dec};

#[test]
fn decimal_numerals_are_exact() {
    assert_eq!(u64_to_dec(0), "0");
    assert_eq!(u64_to_dec(7), "7");
    assert_eq!(u64_to_dec(10), "10");
    assert_eq!(u64_to_dec(42), "42");
    assert_eq!(u64_to_dec(1234567890), "1234567890");
    assert_eq!(u64_to_dec(u64::MAX), "18446744073709551615");
}

#[test]
fn rendered_list_is_numbered_from_one() {
    let items = vec!["milk".to_string(), "eggs".to_string(), "bread".to_string()];
    assert_eq!(render_list(&items), "1) milk\n2) eggs\n3) bread\n");
}

#[test]
fn empty_list_renders_to_nothing() {
    let items: Vec<String> = Vec::new();
    assert_eq!(render_list(&items), "");
}

#[test]
fn long_lists_get_two_digit_numbers() {
    let items: Vec<String> = (0..12).map(|_| "x".to_string()).collect();
    let rendered = render_list(&items);
    assert!(rendered.ends_with("11) x\n12) x\n"));
}

#[test]
fn help_text_names_the_three_command_forms() {
    let text = help_text();
    assert!(text.contains("!shop new"));
    assert!(text.contains("-nazwa produktu"));
    assert!(text.contains("!bought <numer>"));
}
