use orbit::popup::{PopupColor, PopupMessage, PopupType};

#[test]
fn a_new_popup_is_hidden() {
    let popup = PopupMessage::default();
    assert_eq!(popup.message, "");
    assert_eq!(popup.popup_type, PopupType::Info);
    assert!(!popup.show);
    assert!(popup.draw().is_none());
}

#[test]
fn show_error_sets_text_kind_and_flag() {
    let mut popup = PopupMessage::default();
    popup.show_error("disk full".to_string());
    assert_eq!(popup.message, "disk full");
    assert_eq!(popup.popup_type, PopupType::Error);
    assert!(popup.show);
}

#[test]
fn show_warning_sets_text_kind_and_flag() {
    let mut popup = PopupMessage::default();
    popup.show_warning("low battery".to_string());
    assert_eq!(popup.message, "low battery");
    assert_eq!(popup.popup_type, PopupType::Warning);
    assert!(popup.show);
}

#[test]
fn show_info_sets_text_kind_and_flag() {
    let mut popup = PopupMessage::default();
    popup.show_error("first".to_string());
    popup.show_info("second".to_string());
    assert_eq!(popup.message, "second");
    assert_eq!(popup.popup_type, PopupType::Info);
    assert!(popup.show);
}

#[test]
fn show_panic_sets_text_kind_and_flag() {
    let mut popup = PopupMessage::default();
    popup.show_panic("bad key".to_string());
    assert_eq!(popup.message, "bad key");
    assert_eq!(popup.popup_type, PopupType::Panic);
    assert!(popup.show);
}

#[test]
fn an_error_window_is_red_and_prefixed() {
    let mut popup = PopupMessage::default();
    popup.show_error("disk full".to_string());
    let window = popup.draw().unwrap();
    assert_eq!(window.title, "Message");
    assert_eq!(window.text, "Error: disk full");
    assert_eq!(window.color, PopupColor::Red);
    assert_eq!(window.notice, None);
    assert_eq!(window.button, "OK");
    assert!(!window.fatal);
}

#[test]
fn a_warning_window_is_yellow_and_prefixed() {
    let mut popup = PopupMessage::default();
    popup.show_warning("careful".to_string());
    let window = popup.draw().unwrap();
    assert_eq!(window.title, "Message");
    assert_eq!(window.text, "Warning: careful");
    assert_eq!(window.color, PopupColor::Yellow);
    assert_eq!(window.button, "OK");
    assert!(!window.fatal);
}

#[test]
fn an_info_window_is_white_and_prefixed() {
    let mut popup = PopupMessage::default();
    popup.show_info("hello".to_string());
    let window = popup.draw().unwrap();
    assert_eq!(window.text, "Info: hello");
    assert_eq!(window.color, PopupColor::White);
    assert!(!window.fatal);
}

#[test]
fn a_panic_window_is_fatal_and_not_prefixed() {
    let mut popup = PopupMessage::default();
    popup.show_panic("bad key".to_string());
    let window = popup.draw().unwrap();
    assert_eq!(window.title, "Panic");
    assert_eq!(window.text, "bad key");
    assert_eq!(window.color, PopupColor::Red);
    assert_eq!(window.notice, Some("The application must be restarted.".to_string()));
    assert_eq!(window.button, "Exit");
    assert!(window.fatal);
}

#[test]
fn dismissing_an_ordinary_popup_hides_it() {
    let mut popup = PopupMessage::default();
    popup.show_error("x".to_string());
    assert!(!popup.dismiss());
    assert!(!popup.show);
    assert_eq!(popup.message, "x");
    assert_eq!(popup.popup_type, PopupType::Error);
    assert!(popup.draw().is_none());
}

#[test]
fn dismissing_a_panic_asks_for_exit_and_keeps_it() {
    let mut popup = PopupMessage::default();
    popup.show_panic("x".to_string());
    assert!(popup.dismiss());
    assert!(popup.show);
    assert!(popup.draw().unwrap().fatal);
}

#[test]
fn dismissing_a_hidden_popup_does_nothing() {
    let mut popup = PopupMessage { message: "old".to_string(), popup_type: PopupType::Panic, show: false };
    assert!(!popup.dismiss());
    assert!(!popup.show);
    assert_eq!(popup.message, "old");
}

#[test]
fn kinds_have_their_colors_and_prefixes() {
    assert_eq!(PopupType::Error.color(), PopupColor::Red);
    assert_eq!(PopupType::Warning.color(), PopupColor::Yellow);
    assert_eq!(PopupType::Info.color(), PopupColor::White);
    assert_eq!(PopupType::Panic.color(), PopupColor::Red);
    assert_eq!(PopupType::Error.prefix(), "Error: ");
    assert_eq!(PopupType::Warning.prefix(), "Warning: ");
    assert_eq!(PopupType::Info.prefix(), "Info: ");
    assert_eq!(PopupType::Panic.prefix(), "");
}

#[test]
fn fatal_text_names_the_fault() {
    assert_eq!(
        PopupMessage::fatal_text(Some("index out of bounds")),
        "A fatal error occurred in the popup system: index out of bounds"
    );
    assert_eq!(
        PopupMessage::fatal_text(None),
        "A fatal error occurred in the popup system: Unknown error occurred in popup system"
    );
}
