use chromeless_shell::text::utf_16_null_terminiated;

#[test]
fn empty_text_yields_only_the_terminator() {
    assert_eq!(utf_16_null_terminiated(""), vec![0u16]);
}

#[test]
fn ascii_text_encodes_one_unit_per_char() {
    assert_eq!(
        utf_16_null_terminiated("Demo"),
        vec![0x44u16, 0x65, 0x6D, 0x6F, 0],
    );
}

#[test]
fn final_element_is_always_the_zero_terminator() {
    for text in ["", "a", "WebView2 - Win 32", "gr\u{00FC}n", "\u{1F600}"] {
        let units = utf_16_null_terminiated(text);
        assert!(!units.is_empty());
        assert_eq!(*units.last().unwrap(), 0u16);
    }
}

#[test]
fn supplementary_chars_become_surrogate_pairs() {
    let units = utf_16_null_terminiated("\u{1F600}");
    assert_eq!(units, vec![0xD83Du16, 0xDE00, 0]);
}

#[test]
fn round_trip_restores_the_text() {
    for text in [
        "",
        "WebView2 Win32 Class",
        "Die \u{00DC}berschrift",
        "mixed \u{00E9}\u{0153} and \u{1F600}\u{10FFFF}",
    ] {
        let units = utf_16_null_terminiated(text);
        let body = &units[..units.len() - 1];
        let decoded = String::from_utf16(body).expect("well-formed");
        assert_eq!(decoded, text);
    }
}
