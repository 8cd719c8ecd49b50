use textkit::decorator::{add_line_seps, repeat};

#[test]
fn no_border_leaves_the_text_unchanged() {
    assert_eq!(add_line_seps("plain text", 0, '='), "plain text");
    assert_eq!(add_line_seps("", 0, '*'), "");
    assert_eq!(add_line_seps("caf\u{e9} \u{2192}", 0, '-'), "caf\u{e9} \u{2192}");
}

#[test]
fn border_stands_on_both_sides() {
    assert_eq!(add_line_seps("abc", 3, '='), "===abc===");
    assert_eq!(add_line_seps("abc", 1, '*'), "*abc*");
}

#[test]
fn border_of_empty_text_is_the_border_twice() {
    assert_eq!(add_line_seps("", 2, '#'), "####");
}

#[test]
fn long_border_round_a_sentence() {
    let line = add_line_seps("George the Octopus!! WE LOVE YOU!!!!", 25, '=');
    assert_eq!(
        line,
        "=========================George the Octopus!! WE LOVE YOU!!!!========================="
    );
}

#[test]
fn length_grows_by_twice_the_count() {
    let text = "na\u{ef}ve \u{1f600}";
    let line = add_line_seps(text, 7, '\u{2500}');
    let chars: Vec<char> = line.chars().collect();
    assert_eq!(chars.len(), text.chars().count() + 14);
    for i in 0..7 {
        assert_eq!(chars[i], '\u{2500}');
        assert_eq!(chars[chars.len() - 1 - i], '\u{2500}');
    }
    let middle: String = chars[7..chars.len() - 7].iter().collect();
    assert_eq!(middle, text);
}

#[test]
fn text_made_of_the_border_character() {
    assert_eq!(add_line_seps("==", 2, '='), "======");
}

#[test]
fn repeat_makes_that_many_copies() {
    assert_eq!(repeat(0, 'x'), "");
    assert_eq!(repeat(1, 'x'), "x");
    assert_eq!(repeat(4, '\u{e9}'), "\u{e9}\u{e9}\u{e9}\u{e9}");
    assert_eq!(repeat(1000, 'a').len(), 1000);
}
