use solar_screen_brightness::wide::wchar_to_string;

fn units(text: &str) -> Vec<u16> {
    text.encode_utf16().collect()
}

#[test]
fn name_ends_at_the_first_nul() {
    let mut buffer = units("\\\\.\\DISPLAY1");
    buffer.push(0);
    buffer.extend(units("rest"));
    buffer.push(0);
    assert_eq!(wchar_to_string(&buffer), "\\\\.\\DISPLAY1");
}

#[test]
fn name_may_fill_its_buffer() {
    assert_eq!(wchar_to_string(&units("DISPLAY2")), "DISPLAY2");
}

#[test]
fn names_may_be_empty() {
    assert_eq!(wchar_to_string(&[]), "");
    assert_eq!(wchar_to_string(&[0, 65]), "");
}

#[test]
fn encoded_text_is_decoded() {
    let text = "z\u{e4}\u{d7ff}\u{e000}\u{ffff}\u{10000}\u{1f31e}\u{10ffff}!";
    assert_eq!(wchar_to_string(&units(text)), text);
}

#[test]
fn lone_surrogates_are_replaced_one_by_one() {
    assert_eq!(wchar_to_string(&[0xd800]), "\u{fffd}");
    assert_eq!(wchar_to_string(&[0xdc00, 65]), "\u{fffd}A");
    assert_eq!(wchar_to_string(&[0xd83c, 0xd83c, 0xdf1e]), "\u{fffd}\u{1f31e}");
    assert_eq!(wchar_to_string(&[0xdfff, 0xdbff]), "\u{fffd}\u{fffd}");
    assert_eq!(wchar_to_string(&[0xd83c, 0, 0xdf1e]), "\u{fffd}");
    assert_eq!(wchar_to_string(&[0xd83c, 65]), "\u{fffd}A");
}

#[test]
fn decoding_agrees_with_the_standard_library() {
    let samples: [&[u16]; 5] = [
        &[0x61, 0xd800, 0xdc00, 0x62],
        &[0xd800, 0xd800, 0xdc00, 0xdc00],
        &[0xdc00, 0xd800],
        &[0xfffd, 0xfffe, 0xffff],
        &[0xdbff, 0xdfff, 0xdbff],
    ];
    for sample in samples {
        assert_eq!(wchar_to_string(sample), String::from_utf16_lossy(sample));
    }
}
