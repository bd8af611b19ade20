use native_dispatch::text::{
    decode_native_text, get_combobox_selection, get_placeholder, placeholder_units, to_utf16,
};

#[test]
fn native_text_decodes_up_to_the_first_terminator() {
    let buffer = vec![0x48, 0x65, 0x6C, 0x6C, 0x6F, 0, 0x58, 0x59];
    assert_eq!(decode_native_text(&buffer), "Hello");
}

#[test]
fn native_text_without_terminator_decodes_whole_buffer() {
    let buffer = vec![0x41, 0x42];
    assert_eq!(decode_native_text(&buffer), "AB");
}

#[test]
fn invalid_units_substitute_the_placeholder_string() {
    // A lone high surrogate is not valid UTF-16.
    let buffer = vec![0xD800, 0x41];
    assert_eq!(decode_native_text(&buffer), "ERROR!");
}

#[test]
fn empty_buffer_decodes_to_empty_string_not_placeholder() {
    assert_eq!(decode_native_text(&Vec::new()), "");
    let (index, text) = get_combobox_selection(3, &vec![0]);
    assert_eq!(index, 3);
    assert_eq!(text, "");
}

#[test]
fn combobox_selection_keeps_index_and_decodes_label() {
    let (index, text) = get_combobox_selection(2, &vec![0x4F, 0x6B, 0]);
    assert_eq!(index, 2);
    assert_eq!(text, "Ok");
}

#[test]
fn utf16_encoding_appends_a_terminator() {
    assert_eq!(to_utf16(&String::from("AB")), vec![0x41, 0x42, 0]);
}

#[test]
fn utf16_encoding_uses_surrogate_pairs_above_the_basic_plane() {
    // U+20AC needs one unit; U+1D11E needs a surrogate pair.
    let units = to_utf16(&String::from("A\u{20AC}\u{1D11E}"));
    assert_eq!(units, vec![0x41, 0x20AC, 0xD834, 0xDD1E, 0]);
}

#[test]
fn encoding_then_decoding_restores_the_text() {
    let text = String::from("caf\u{E9} \u{1D11E}");
    let units = to_utf16(&text);
    assert_eq!(decode_native_text(&units), text);
}

#[test]
fn placeholder_units_clear_with_a_lone_terminator() {
    assert_eq!(placeholder_units(None), vec![0]);
    assert_eq!(placeholder_units(Some(&String::from("Hi"))), vec![0x48, 0x69, 0]);
}

#[test]
fn placeholder_shorter_than_two_units_reads_back_as_none() {
    let mut buffer = vec![0u16; 256];
    assert_eq!(get_placeholder(&buffer), None);
    buffer[0] = 0x41;
    assert_eq!(get_placeholder(&buffer), None);
    buffer[1] = 0x42;
    assert_eq!(get_placeholder(&buffer), Some(String::from("AB")));
}
