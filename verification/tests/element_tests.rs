use rnl::elements::{
    box_setting, button_setting, parse_alignment, text_setting, Align, ButtonCallbacks, Ellipsis,
    Justification, MarginSide, Orientation, Setting,
};

#[test]
fn test_callback_storage() {
    let widget_ptr = 12345usize;
    let callback_ptr = 67890usize;
    let mut callbacks = ButtonCallbacks::new();
    assert!(callbacks.set_callback(widget_ptr, "onClick", callback_ptr));
    assert_eq!(callbacks.get(widget_ptr), Some(callback_ptr));
    callbacks.remove(widget_ptr);
    assert!(callbacks.get(widget_ptr).is_none());
}

#[test]
fn only_click_callbacks_are_stored_and_null_ones_are_not_invoked() {
    let mut callbacks = ButtonCallbacks::new();
    assert!(!callbacks.set_callback(1, "onHover", 5));
    assert_eq!(callbacks.clicked(1), None);
    assert!(callbacks.set_callback(1, "onpress", 5));
    assert_eq!(callbacks.clicked(1), Some(5));
    assert!(callbacks.set_callback(1, "onPress", 0));
    assert_eq!(callbacks.get(1), Some(0));
    assert_eq!(callbacks.clicked(1), None);
}

#[test]
fn alignments() {
    assert!(parse_alignment("flex-start") == Align::Start);
    assert!(parse_alignment("end") == Align::End);
    assert!(parse_alignment("center") == Align::Center);
    assert!(parse_alignment("stretch") == Align::Fill);
    assert!(parse_alignment("baseline") == Align::Baseline);
    assert!(parse_alignment("middle") == Align::Fill);
}

#[test]
fn box_attributes() {
    assert!(matches!(box_setting("orientation", "row"), Setting::Orientation(Orientation::Horizontal)));
    assert!(matches!(box_setting("orientation", "column"), Setting::Orientation(Orientation::Vertical)));
    assert!(matches!(box_setting("spacing", "12"), Setting::Spacing(12)));
    assert!(matches!(box_setting("spacing", "wide"), Setting::Ignored));
    assert!(matches!(box_setting("homogeneous", "true"), Setting::Homogeneous(true)));
    assert!(matches!(box_setting("hexpand", "yes"), Setting::HExpand(false)));
    assert!(matches!(box_setting("margin", "-4"), Setting::Margin(MarginSide::All, -4)));
    assert!(matches!(box_setting("margin-top", "8"), Setting::Margin(MarginSide::Top, 8)));
    assert!(matches!(box_setting("marginEnd", "2"), Setting::Margin(MarginSide::End, 2)));
    assert!(matches!(box_setting("valign", "center"), Setting::VAlign(Align::Center)));
    assert!(matches!(box_setting("color", "red"), Setting::Unknown));
    assert!(matches!(box_setting("label", "x"), Setting::Unknown));
}

#[test]
fn text_attributes() {
    match text_setting("children", "Hello") {
        Setting::Text(t) => assert_eq!(t, "Hello"),
        _ => panic!("expected text"),
    }
    assert!(matches!(text_setting("max-lines", "3"), Setting::Lines(3)));
    assert!(matches!(text_setting("lines", "three"), Setting::Ignored));
    assert!(matches!(text_setting("ellipsize", "middle"), Setting::Ellipsize(Ellipsis::Middle)));
    assert!(matches!(text_setting("ellipsize", "both"), Setting::Ellipsize(Ellipsis::Off)));
    assert!(matches!(text_setting("text-align", "end"), Setting::Justify(Justification::Right)));
    assert!(matches!(text_setting("justify", "fill"), Setting::Justify(Justification::Fill)));
    assert!(matches!(text_setting("markup", "true"), Setting::UseMarkup(true)));
    match text_setting("xalign", "0.5") {
        Setting::XAlign(v) => assert_eq!(v, "0.5"),
        _ => panic!("expected xalign"),
    }
    assert!(matches!(text_setting("margin", "6"), Setting::Margin(MarginSide::All, 6)));
    assert!(matches!(text_setting("spacing", "6"), Setting::Unknown));
}

#[test]
fn button_attributes() {
    match button_setting("label", "+") {
        Setting::Text(t) => assert_eq!(t, "+"),
        _ => panic!("expected a label"),
    }
    assert!(matches!(button_setting("enabled", "true"), Setting::Sensitive(true)));
    assert!(matches!(button_setting("disabled", "true"), Setting::Sensitive(false)));
    assert!(matches!(button_setting("disabled", "no"), Setting::Sensitive(true)));
    assert!(matches!(button_setting("hasFrame", "false"), Setting::HasFrame(false)));
    match button_setting("css-classes", "suggested-action, pill,") {
        Setting::CssClasses(c) => assert_eq!(c, vec!["suggested-action", "pill", ""]),
        _ => panic!("expected classes"),
    }
    match button_setting("iconName", "list-add") {
        Setting::IconName(n) => assert_eq!(n, "list-add"),
        _ => panic!("expected an icon"),
    }
    assert!(matches!(button_setting("halign", "start"), Setting::HAlign(Align::Start)));
    assert!(matches!(button_setting("wrap", "true"), Setting::Unknown));
}
