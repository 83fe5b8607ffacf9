use om_rs::text::{chars_of, join, remove_char, split_chars, trim};

fn trimmed(text: &str) -> String {
    trim(&chars_of(text)).into_iter().collect()
}

fn pieces(text: &str, sep: char) -> Vec<String> {
    split_chars(&chars_of(text), sep)
}

#[test]
fn chars_of_are_the_characters() {
    assert_eq!(chars_of("a\u{e9}\u{1f600}b"), vec!['a', '\u{e9}', '\u{1f600}', 'b']);
    assert_eq!(chars_of(""), Vec::<char>::new());
}

#[test]
fn trim_takes_white_space_off_both_ends() {
    assert_eq!(trimmed(" \t\r\n a b \u{a0}\u{3000}"), "a b");
    assert_eq!(trimmed("ab"), "ab");
    assert_eq!(trimmed(" \n"), "");
    assert_eq!(trimmed(""), "");
}

#[test]
fn white_space_is_that_of_every_character() {
    for c in '\u{0}'..=char::MAX {
        let p = c as u32;
        let expected = (0x9..=0xd).contains(&p)
            || (0x2000..=0x200a).contains(&p)
            || [0x20, 0x85, 0xa0, 0x1680, 0x2028, 0x2029, 0x202f, 0x205f, 0x3000].contains(&p);
        assert_eq!(c.is_whitespace(), expected, "{p:x}");
    }
    assert_eq!(trim(&vec!['\u{200b}']), vec!['\u{200b}']);
    assert_eq!(trim(&vec!['\u{2028}']), Vec::<char>::new());
}

#[test]
fn trim_agrees_with_the_standard_library() {
    for text in ["", " ", "  a", "a  ", "\u{85}x\u{205f}", " a b ", "\n\n{1}\n", "\u{feff} a"] {
        assert_eq!(trimmed(text), text.trim());
    }
}

#[test]
fn remove_char_removes_every_occurrence() {
    let chars = chars_of("\"a\"b\"\"");
    let rest: String = remove_char(&chars, '"').into_iter().collect();
    assert_eq!(rest, "ab");
    assert_eq!(remove_char(&chars_of("ab"), '"'), vec!['a', 'b']);
}

#[test]
fn split_keeps_empty_pieces() {
    assert_eq!(pieces("", ','), vec![""]);
    assert_eq!(pieces(",", ','), vec!["", ""]);
    assert_eq!(pieces("a,,b,", ','), vec!["a", "", "b", ""]);
    assert_eq!(pieces("abc", ','), vec!["abc"]);
}

#[test]
fn split_agrees_with_the_standard_library() {
    for text in ["", " ", "-w", "-w  -x", " -w ", "a b c", "\u{e9} \u{e9}"] {
        let expected: Vec<&str> = text.split(' ').collect();
        assert_eq!(pieces(text, ' '), expected);
    }
}

#[test]
fn join_puts_the_separator_between() {
    assert_eq!(join(&vec![], ","), "");
    assert_eq!(join(&vec!["a".to_string()], ","), "a");
    let three = vec!["a".to_string(), "".to_string(), "c".to_string()];
    assert_eq!(join(&three, ", "), "a, , c");
}

#[test]
fn join_undoes_split() {
    for text in ["", "a", ",", "a,b", ",a,,b,"] {
        assert_eq!(join(&pieces(text, ','), ","), text);
    }
}

#[test]
fn split_undoes_join() {
    let three = vec!["a".to_string(), "".to_string(), "c d".to_string()];
    assert_eq!(pieces(&join(&three, ","), ','), three);
}

#[test]
fn split_of_two_texts_is_split_of_each() {
    assert_eq!(pieces("a,b,c", ','), vec!["a", "b", "c"]);
    assert_eq!(pieces("a,b", ','), vec!["a", "b"]);
    assert_eq!(pieces("c", ','), vec!["c"]);
}
