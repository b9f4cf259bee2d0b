use host_bridge::branding::{app_user_model_id_wide, encode_wide, to_wide_string};
use host_bridge::branding::APP_USER_MODEL_ID;

#[test]
fn app_user_model_id_is_the_reverse_domain_token() {
    assert_eq!(APP_USER_MODEL_ID, "com.piksel.chat");
}

#[test]
fn app_user_model_id_wide_is_the_token_and_a_zero() {
    let expected: Vec<u16> = vec![
        99, 111, 109, 46, 112, 105, 107, 115, 101, 108, 46, 99, 104, 97, 116, 0,
    ];
    assert_eq!(app_user_model_id_wide(), expected);
}

#[test]
fn app_user_model_id_wide_has_one_zero_at_its_end() {
    let units = app_user_model_id_wide();
    assert_eq!(units.len(), 16);
    assert_eq!(units.iter().position(|unit| *unit == 0), Some(15));
}

#[test]
fn encode_wide_of_empty_text() {
    assert_eq!(encode_wide(""), Vec::<u16>::new());
    assert_eq!(to_wide_string(""), vec![0u16]);
}

#[test]
fn encode_wide_of_basic_characters() {
    assert_eq!(encode_wide("A"), vec![0x41u16]);
    assert_eq!(encode_wide("é"), vec![0xE9u16]);
    assert_eq!(encode_wide("世"), vec![0x4E16u16]);
    assert_eq!(encode_wide("\u{FFFF}"), vec![0xFFFFu16]);
}

#[test]
fn encode_wide_of_characters_beyond_the_basic_plane() {
    assert_eq!(encode_wide("\u{10000}"), vec![0xD800u16, 0xDC00]);
    assert_eq!(encode_wide("😀"), vec![0xD83Du16, 0xDE00]);
    assert_eq!(encode_wide("\u{10FFFF}"), vec![0xDBFFu16, 0xDFFF]);
}

#[test]
fn encode_wide_agrees_with_the_standard_encoding() {
    for text in ["", "com.piksel.chat", "Zoë", "世界", "a😀b", "\u{D7FF}\u{E000}\u{10FFFF}"] {
        let expected: Vec<u16> = text.encode_utf16().collect();
        assert_eq!(encode_wide(text), expected);
        let mut terminated = expected.clone();
        terminated.push(0);
        assert_eq!(to_wide_string(text), terminated);
    }
}
