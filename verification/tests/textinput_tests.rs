use native_dispatch::events::{ControlType, Event};
use native_dispatch::textinput::{readonly_from_style, HTextAlign, TextInput};

fn template() -> TextInput {
    TextInput {
        text: String::from("name"),
        size: (120, 24),
        position: (5, 6),
        parent: 1,
        placeholder: None,
        text_align: HTextAlign::Left,
        password: false,
        readonly: false,
    }
}

#[test]
fn window_params_carry_the_template_fields() {
    let params = template().build_window_params();
    assert_eq!(params.text, "name");
    assert_eq!(params.size, (120, 24));
    assert_eq!(params.position, (5, 6));
    assert!(params.visible);
    assert!(!params.resizable);
    assert_eq!(params.class, "EDIT");
    assert_eq!(params.parent, Some(1));
    // ES_LEFT | WS_BORDER | ES_AUTOHSCROLL | ES_NOHIDESEL
    assert_eq!(params.extra_style, 0x0080_0180);
}

#[test]
fn style_bits_follow_the_flags() {
    let mut t = template();
    t.text_align = HTextAlign::Center;
    t.password = true;
    t.readonly = true;
    let params = t.build_window_params();
    // ES_PASSWORD | ES_READONLY | ES_CENTER | WS_BORDER | ES_AUTOHSCROLL | ES_NOHIDESEL
    assert_eq!(params.extra_style, 0x0080_09A1);
    t.text_align = HTextAlign::Right;
    t.password = false;
    assert_eq!(t.build_window_params().extra_style, 0x0080_0982);
}

#[test]
fn supported_events_match_the_template() {
    let events = template().supported_events();
    assert_eq!(
        events,
        vec![
            Event::MouseUp,
            Event::MouseDown,
            Event::Focus,
            Event::ValueChanged,
            Event::MaxValue,
            Event::Removed,
            Event::Resize,
        ]
    );
    assert_eq!(template().control_type(), ControlType::TextInput);
}

#[test]
fn readonly_bit_is_read_from_the_style_word() {
    assert!(readonly_from_style(0x0800));
    assert!(readonly_from_style(0xFFFF));
    assert!(!readonly_from_style(0x0400));
    assert!(!readonly_from_style(0));
}
