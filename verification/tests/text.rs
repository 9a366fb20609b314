use uwinsearch::text::{
    copy_strings, push_compact, push_words, same_strings, same_text, split_words, trim,
};

#[test]
fn words_are_split_on_white_space() {
    let words = split_words("  Intro \t to\nProofs ");
    assert_eq!(words, vec!["Intro".to_string(), "to".to_string(), "Proofs".to_string()]);
    assert!(split_words("").is_empty());
    assert!(split_words(" \u{a0}\u{2003} ").is_empty());
    assert_eq!(split_words("one"), vec!["one".to_string()]);
}

#[test]
fn words_are_added_behind_what_is_there() {
    let mut out = vec!["a".to_string()];
    push_words(" b  c", &mut out);
    push_words("", &mut out);
    push_words("d ", &mut out);
    assert_eq!(out, vec!["a", "b", "c", "d"]);
}

#[test]
fn trim_drops_white_space_at_both_ends() {
    assert_eq!(trim("  Final exam \n"), "Final exam");
    assert_eq!(trim("   "), "");
    assert_eq!(trim(""), "");
    assert_eq!(trim("x"), "x");
    assert_eq!(trim("\u{3000}é  è\t"), "é  è");
}

#[test]
fn compacting_drops_white_space_and_hyphens() {
    let mut code = String::from("03");
    push_compact("-60 - 100 -\t01", &mut code);
    assert_eq!(code, "036010001");
    push_compact(" - ", &mut code);
    assert_eq!(code, "036010001");
}

#[test]
fn strings_are_compared_by_their_characters() {
    assert!(same_text("term", "term"));
    assert!(!same_text("term", "Term"));
    assert!(!same_text("term", "terms"));
    let a = vec!["x".to_string(), "y".to_string()];
    assert!(same_strings(&a, &copy_strings(&a)));
    assert!(!same_strings(&a, &vec!["x".to_string()]));
    assert!(!same_strings(&a, &vec!["x".to_string(), "z".to_string()]));
    assert_eq!(copy_strings(&a), a);
}

#[test]
fn words_and_trimming_agree_with_the_standard_library() {
    let samples = [
        "",
        " ",
        "one",
        "  two  words ",
        "tabs\tand\nlines\r\n",
        "\u{a0}no-break\u{a0}space\u{2003}em\u{3000}wide",
        "émigré  naïve\u{85}next",
        "03-60-100 - 01",
    ];
    for sample in samples {
        let expected: Vec<String> = sample.split_whitespace().map(str::to_owned).collect();
        assert_eq!(split_words(sample), expected);
        assert_eq!(trim(sample), sample.trim());
    }
}

#[test]
fn the_white_space_of_the_library_is_that_of_the_standard_library() {
    let listed = |c: char| {
        ('\u{9}'..='\u{d}').contains(&c)
            || ('\u{2000}'..='\u{200a}').contains(&c)
            || [' ', '\u{85}', '\u{a0}', '\u{1680}', '\u{2028}', '\u{2029}', '\u{202f}', '\u{205f}', '\u{3000}']
                .contains(&c)
    };
    let mut text = String::new();
    for code in 0..=0x10ffff_u32 {
        if let Some(c) = char::from_u32(code) {
            assert_eq!(c.is_whitespace(), listed(c), "U+{:04X}", code);
            if code < 0x3100 {
                text.clear();
                text.push('a');
                text.push(c);
                text.push('b');
                let parts = if listed(c) { 2 } else { 1 };
                assert_eq!(split_words(&text).len(), parts, "U+{:04X}", code);
                assert_eq!(trim(&text[1..]).chars().count(), 3 - parts, "U+{:04X}", code);
            }
        }
    }
}
