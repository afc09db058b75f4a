use shoplist::parser::{parse, should_handle, Command};

#[test]
fn shop_new_parses_to_new_list() {
    assert!(matches!(parse("!shop new"), Command::NewList));
}

#[test]
fn dash_text_parses_to_add_item() {
    match parse("-eggs") {
        Command::AddItem(s) => assert_eq!(s, "eggs"),
        _ => panic!("expected AddItem"),
    }
}

#[test]
fn add_item_keeps_text_verbatim() {
    match parse("- milk  and eggs ") {
        Command::AddItem(s) => assert_eq!(s, " milk  and eggs "),
        _ => panic!("expected AddItem"),
    }
}

#[test]
fn lone_dash_adds_empty_string() {
    match parse("-") {
        Command::AddItem(s) => assert_eq!(s, ""),
        _ => panic!("expected AddItem"),
    }
}

#[test]
fn bought_two_is_zero_based_one() {
    assert!(matches!(parse("!bought 2"), Command::MarkBought(1)));
}

#[test]
fn bought_non_number_is_unrecognized() {
    assert!(matches!(parse("!bought abc"), Command::Unrecognized));
}

#[test]
fn help_parses_to_help() {
    assert!(matches!(parse("!help"), Command::Help));
}

#[test]
fn plain_text_is_not_handled() {
    assert!(!should_handle("hello"));
    assert!(matches!(parse("hello"), Command::Unrecognized));
}

#[test]
fn command_openers_are_handled() {
    assert!(should_handle("!anything"));
    assert!(should_handle("-anything"));
    assert!(!should_handle(""));
    assert!(!should_handle(" !shop new"));
}

#[test]
fn keyword_match_is_by_substring() {
    assert!(matches!(parse("!shopping new"), Command::NewList));
    assert!(matches!(parse("!boughty 3"), Command::MarkBought(2)));
    assert!(matches!(parse("!helpme"), Command::Help));
    assert!(matches!(parse("!xhelp"), Command::Help));
}

#[test]
fn shop_family_wins_over_bought_in_one_token() {
    assert!(matches!(parse("!shopbought new"), Command::NewList));
}

#[test]
fn shop_without_subcommand_is_unrecognized() {
    assert!(matches!(parse("!shop"), Command::Unrecognized));
    assert!(matches!(parse("!shop "), Command::Unrecognized));
}

#[test]
fn shop_with_other_subcommand_is_unrecognized() {
    assert!(matches!(parse("!shop old"), Command::Unrecognized));
}

#[test]
fn shop_subcommand_matches_new_by_substring() {
    assert!(matches!(parse("!shop renewal"), Command::NewList));
}

#[test]
fn bought_without_number_is_unrecognized() {
    assert!(matches!(parse("!bought"), Command::Unrecognized));
    assert!(matches!(parse("!bought "), Command::Unrecognized));
}

#[test]
fn bare_bang_is_unrecognized() {
    assert!(matches!(parse("!"), Command::Unrecognized));
    assert!(matches!(parse(""), Command::Unrecognized));
}

#[test]
fn bought_accepts_signed_numbers() {
    assert!(matches!(parse("!bought +3"), Command::MarkBought(2)));
    assert!(matches!(parse("!bought 0"), Command::MarkBought(-1)));
    assert!(matches!(parse("!bought -5"), Command::MarkBought(-6)));
}

#[test]
fn bought_accepts_leading_zeros() {
    assert!(matches!(parse("!bought 00042"), Command::MarkBought(41)));
}

#[test]
fn bought_at_i32_bounds() {
    assert!(matches!(parse("!bought 2147483647"), Command::MarkBought(2147483646)));
    assert!(matches!(parse("!bought -2147483648"), Command::MarkBought(-2147483649)));
}

#[test]
fn bought_overflowing_i32_is_unrecognized() {
    assert!(matches!(parse("!bought 2147483648"), Command::Unrecognized));
    assert!(matches!(parse("!bought -2147483649"), Command::Unrecognized));
    assert!(matches!(parse("!bought 99999999999999999999"), Command::Unrecognized));
}

#[test]
fn bought_rejects_malformed_numbers() {
    assert!(matches!(parse("!bought +"), Command::Unrecognized));
    assert!(matches!(parse("!bought -"), Command::Unrecognized));
    assert!(matches!(parse("!bought 1a"), Command::Unrecognized));
    assert!(matches!(parse("!bought +-3"), Command::Unrecognized));
}

#[test]
fn bought_uses_only_the_second_token() {
    assert!(matches!(parse("!bought 4 7"), Command::MarkBought(3)));
}

#[test]
fn tokens_split_on_unicode_whitespace() {
    assert!(matches!(parse("!shop\u{3000}new"), Command::NewList));
    assert!(matches!(parse("!bought\t2"), Command::MarkBought(1)));
}

#[test]
fn unknown_keyword_is_unrecognized() {
    assert!(matches!(parse("!frobnicate now"), Command::Unrecognized));
}
