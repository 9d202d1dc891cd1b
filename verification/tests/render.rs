use stream_alerts::field::AlertField;
use stream_alerts::ids::AlertFieldName;
use stream_alerts::render::{render, replace_chars};
use stream_alerts::text::{chars_of, same_text, string_of};

fn name(text: &str) -> AlertFieldName {
    AlertFieldName::new(text.to_string())
}

fn text(value: &str) -> AlertField {
    AlertField::Text(value.to_string())
}

#[test]
fn substitutes_fields_in_order_and_resolves_escape() {
    let fields = vec![(name("x"), text("A")), (name("y"), text("B"))];
    assert_eq!(render("$x-$y-$$", &fields), "A-B-$");
}

#[test]
fn without_fields_only_the_escape_is_resolved() {
    for template in ["", "plain", "$$", "$$$", "$$$$", "a$$b$c", "$name stays", "price: $$5"] {
        assert_eq!(render(template, &Vec::new()), template.replace("$$", "$"));
    }
}

#[test]
fn counter_is_shown_as_its_numeral() {
    let fields = vec![(name("n"), AlertField::Counter(-42))];
    assert_eq!(render("n=$n", &fields), "n=-42");
}

#[test]
fn a_value_put_in_is_seen_by_later_fields() {
    let fields = vec![(name("a"), text("$b")), (name("b"), text("end"))];
    assert_eq!(render("$a", &fields), "end");
}

#[test]
fn an_earlier_field_wins_over_a_longer_name() {
    let fields = vec![(name("a"), text("1")), (name("ab"), text("2"))];
    assert_eq!(render("$ab", &fields), "1b");
}

#[test]
fn rendering_agrees_with_str_replace() {
    let fields = vec![(name("who"), text("ünïcode ✓")), (name(""), text("<>"))];
    let template = "Hi $who, $ and $$who, $whowho";
    let mut expected = template.to_string();
    expected = expected.replace("$who", "ünïcode ✓");
    expected = expected.replace("$", "<>");
    expected = expected.replace("$$", "$");
    assert_eq!(render(template, &fields), expected);
}

#[test]
fn replace_agrees_with_str_replace() {
    let cases = [
        ("", "", "-"),
        ("abc", "", "-"),
        ("abc", "", ""),
        ("aaa", "aa", "b"),
        ("aaaa", "aa", "a"),
        ("abcabc", "bc", "XYZ"),
        ("abc", "abcd", "x"),
        ("abc", "abc", ""),
        ("ababab", "aba", "c"),
        ("$$$", "$$", "$"),
        ("héllo wörld", "ö", "oe"),
        ("x", "x", "xx"),
    ];
    for (text, from, to) in cases {
        let out = replace_chars(
            &text.chars().collect(),
            &from.chars().collect(),
            &to.chars().collect(),
        );
        assert_eq!(out.iter().collect::<String>(), text.replace(from, to), "{text:?} {from:?} {to:?}");
    }
}

#[test]
fn text_helpers_keep_every_character() {
    let text = "a✓ü\u{1F600}";
    assert_eq!(chars_of(text), text.chars().collect::<Vec<char>>());
    assert_eq!(string_of(&chars_of(text)), text);
    assert!(same_text(text, "a✓ü\u{1F600}"));
    assert!(!same_text(text, "a✓ü"));
    assert!(!same_text("ab", "ac"));
    assert!(same_text("", ""));
}
