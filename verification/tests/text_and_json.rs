use vtcode_core::json::Json;
use vtcode_core::text::{
    chars_of, decimal, find_from, join, sorted_unique, str_contains, str_eq,
    str_eq_ignore_ascii_case, str_is_blank, str_less, str_trim, string_of,
};
use vtcode_core::ui::slash::{command_at, suggestions_for, SLASH_COMMAND_COUNT};
use vtcode_core::ui::tui::style::{SpanStyle, StyledSpan};
use vtcode_core::ui::tui::wrap::wrap_line;

fn texts(rows: &[Vec<StyledSpan>]) -> Vec<String> {
    rows.iter()
        .map(|row| row.iter().map(|span| span.text.as_str()).collect())
        .collect()
}

#[test]
fn characters_round_trip() {
    let chars = chars_of("añb");
    assert_eq!(chars, vec!['a', 'ñ', 'b']);
    assert_eq!(string_of(&chars), "añb");
    assert!(str_eq("x", "x"));
    assert!(!str_eq("x", "xy"));
}

#[test]
fn trimming_follows_unicode_whitespace() {
    assert_eq!(str_trim(" \t a b \n"), "a b");
    assert_eq!(str_trim("\u{2003}x\u{00a0}"), "x");
    assert_eq!(str_trim("   "), "");
    assert!(str_is_blank(" \n\t"));
    assert!(str_is_blank(""));
    assert!(!str_is_blank(" a "));
}

#[test]
fn searching_finds_the_first_place() {
    let hay = chars_of("abcabc");
    assert_eq!(find_from(&hay, &chars_of("bc"), 0), Some(1));
    assert_eq!(find_from(&hay, &chars_of("bc"), 2), Some(4));
    assert_eq!(find_from(&hay, &chars_of("bd"), 0), None);
    assert_eq!(find_from(&hay, &[], 3), Some(3));
    assert!(str_contains("hello", "ell"));
    assert!(!str_contains("hello", "elo"));
    assert!(str_contains("hello", ""));
}

#[test]
fn numbers_and_lists_are_written_out() {
    assert_eq!(decimal(0), "0");
    assert_eq!(decimal(907), "907");
    assert_eq!(decimal(u64::MAX), "18446744073709551615");
    assert_eq!(join(&vec!["a".to_string(), "b".to_string()], ", "), "a, b");
    assert_eq!(join(&Vec::new(), ", "), "");
}

#[test]
fn case_is_ignored_for_ascii_only() {
    assert!(str_eq_ignore_ascii_case("HTTPS", "https"));
    assert!(!str_eq_ignore_ascii_case("É", "é"));
}

#[test]
fn names_are_sorted_without_repeats() {
    let names: Vec<String> =
        ["b", "a", "c", "a", "ab"].iter().map(|name| name.to_string()).collect();
    assert_eq!(sorted_unique(&names), vec!["a", "ab", "b", "c"]);
    assert!(str_less("a", "ab"));
    assert!(!str_less("b", "ab"));
    assert!(!str_less("a", "a"));
}

#[test]
fn json_is_parsed_into_values() {
    let value = Json::parse(r#"{"a": [1, -2, 1.5, "x", true, null], "b": {"c": "d"}}"#).unwrap();
    let items = value.get("a").and_then(Json::as_array).expect("an array");
    assert_eq!(items.len(), 6);
    assert_eq!(items[0].as_u64(), Some(1));
    assert!(matches!(items[1], Json::NegInt(-2)));
    assert!(matches!(&items[2], Json::Float(text) if text == "1.5"));
    assert_eq!(items[3].as_str(), Some("x"));
    assert_eq!(items[4].as_bool(), Some(true));
    assert!(items[5].is_null());
    assert!(items[2].is_number());
    assert_eq!(value.get("b").and_then(|b| b.get_str("c")), Some("d"));
    assert!(value.get("missing").is_none());
    assert!(Json::parse("{oops").is_err());
    assert!(Json::parse("").is_err());
}

#[test]
fn json_is_printed_compactly() {
    let value = Json::object2("n", Json::uint(3), "s", Json::string("a\"b"));
    assert_eq!(value.to_text(), r#"{"n":3,"s":"a\"b"}"#);
    assert_eq!(Json::array(vec![Json::Null, Json::Bool(false)]).to_text(), "[null,false]");
    assert_eq!(Json::empty_object().to_text(), "{}");
    let again = Json::parse(&value.to_text()).unwrap();
    assert_eq!(again.get_u64("n"), Some(3));
    assert_eq!(again.get_str("s"), Some("a\"b"));
}

#[test]
fn setting_a_member_replaces_or_adds() {
    let value = Json::object1("a", Json::uint(1)).with("b", Json::uint(2)).with("a", Json::uint(3));
    assert_eq!(value.get_u64("a"), Some(3));
    assert_eq!(value.get_u64("b"), Some(2));
    assert_eq!(value.as_object().map(|fields| fields.len()), Some(2));
    let copy = value.duplicate();
    assert_eq!(copy.to_text(), value.to_text());
}

#[test]
fn wrapping_breaks_by_width_and_line_feed() {
    let line = vec![StyledSpan::raw("abcdef".to_string())];
    assert_eq!(texts(&wrap_line(&line, 4)), vec!["abcd", "ef"]);
    assert_eq!(texts(&wrap_line(&line, 6)), vec!["abcdef"]);
    assert_eq!(texts(&wrap_line(&line, 0)), vec![""]);
    let wide = vec![StyledSpan::raw("日本語".to_string())];
    assert_eq!(texts(&wrap_line(&wide, 4)), vec!["日本", "語"]);
    let fed = vec![StyledSpan::raw("a\nb".to_string())];
    assert_eq!(texts(&wrap_line(&fed, 10)), vec!["a", "b"]);
    assert_eq!(texts(&wrap_line(&Vec::new(), 10)), vec![""]);
    let joined = vec![StyledSpan::raw("e\u{301}x".to_string())];
    assert_eq!(texts(&wrap_line(&joined, 1)), vec!["e\u{301}", "x"]);
}

#[test]
fn wrapping_keeps_styles() {
    let bold = SpanStyle::new().with_bold();
    let line = vec![
        StyledSpan::styled("ab".to_string(), bold),
        StyledSpan::raw("cd".to_string()),
    ];
    let rows = wrap_line(&line, 3);
    assert_eq!(rows.len(), 2);
    assert!(rows[0][0].style.bold);
    assert!(!rows[1].last().unwrap().style.bold);
}

#[test]
fn slash_commands_are_suggested_by_prefix() {
    assert_eq!(suggestions_for("").len(), SLASH_COMMAND_COUNT);
    let themed: Vec<&str> =
        suggestions_for("the").into_iter().map(|index| command_at(index).name).collect();
    assert_eq!(themed, vec!["theme"]);
    assert!(suggestions_for("zzz").is_empty());
    assert_eq!(command_at(1).name, "exit");
}

#[test]
fn blank_characters_are_the_white_space_ones() {
    let listed = |c: char| {
        ('\u{9}'..='\u{d}').contains(&c)
            || c == ' '
            || c == '\u{85}'
            || c == '\u{a0}'
            || c == '\u{1680}'
            || ('\u{2000}'..='\u{200a}').contains(&c)
            || c == '\u{2028}'
            || c == '\u{2029}'
            || c == '\u{202f}'
            || c == '\u{205f}'
            || c == '\u{3000}'
    };
    let mut buffer = [0u8; 4];
    for code in 0..=0x10FFFFu32 {
        if let Some(c) = char::from_u32(code) {
            assert_eq!(str_is_blank(c.encode_utf8(&mut buffer)), listed(c), "U+{code:04X}");
        }
    }
}
