use window_core::text::wide_title;

#[test]
fn ascii_title_is_widened_and_terminated() {
    assert_eq!(wide_title("Test"), vec![0x54, 0x65, 0x73, 0x74, 0]);
}

#[test]
fn empty_title_is_just_the_terminator() {
    assert_eq!(wide_title(""), vec![0]);
}

#[test]
fn characters_beyond_the_basic_plane_become_surrogate_pairs() {
    assert_eq!(wide_title("\u{1F600}"), vec![0xD83D, 0xDE00, 0]);
    assert_eq!(wide_title("\u{10000}"), vec![0xD800, 0xDC00, 0]);
    assert_eq!(wide_title("\u{10FFFF}"), vec![0xDBFF, 0xDFFF, 0]);
    assert_eq!(wide_title("\u{FFFF}"), vec![0xFFFF, 0]);
}

#[test]
fn title_agrees_with_std_encoding() {
    for title in ["Fenêtre", "窓 – ウィンドウ", "a\u{0}b", "mixed \u{1F3AE} game \u{E000}"] {
        let mut expected: Vec<u16> = title.encode_utf16().collect();
        expected.push(0);
        assert_eq!(wide_title(title), expected);
    }
}
