use orbit::drm::{check_key, config_variable, judge, judge_events, key_dir, key_file, KeySource};
use orbit::keyid;
use orbit::popup::{PopupMessage, PopupType};
use orbit::xml::XmlEvent;

fn run(xml: &str) -> (Result<String, ()>, PopupMessage) {
    let mut popup = PopupMessage::default();
    let result = keyid(&mut popup, &KeySource::Manifest(xml.to_string()));
    (result, popup)
}

fn assert_panic(popup: &PopupMessage, message: &str) {
    assert!(popup.show);
    assert_eq!(popup.popup_type, PopupType::Panic);
    assert_eq!(popup.message, message);
}

fn assert_untouched(popup: &PopupMessage) {
    assert!(!popup.show);
    assert_eq!(popup.popup_type, PopupType::Info);
    assert_eq!(popup.message, "");
}

#[test]
fn a_missing_configuration_root_is_a_panic() {
    let mut popup = PopupMessage::default();
    let source = KeySource::NoConfig("environment variable not found".to_string());
    assert_eq!(keyid(&mut popup, &source), Err(()));
    assert_panic(
        &popup,
        "Failed to get CONFIG environment variable: environment variable not found",
    );
}

#[test]
fn an_unreadable_key_manifest_is_a_panic() {
    let mut popup = PopupMessage::default();
    assert_eq!(keyid(&mut popup, &KeySource::Unreadable), Err(()));
    assert_panic(&popup, "Ingenuine copy, is game from Steam?");
}

#[test]
fn a_steam_copy_with_the_right_key_is_accepted() {
    let (result, popup) = run(
        "<drm><platform_key>steam</platform_key><key>nowthatswhaticallbadDRM</key></drm>",
    );
    assert_eq!(result, Ok("steam".to_string()));
    assert_untouched(&popup);
}

#[test]
fn a_steam_copy_with_a_wrong_key_is_rejected() {
    let (result, popup) = run("<drm><platform_key>steam</platform_key><key>guess</key></drm>");
    assert_eq!(result, Err(()));
    assert_panic(&popup, "Key does not match the predefined value");
}

#[test]
fn a_steam_copy_without_a_key_is_rejected() {
    let (result, popup) = run("<drm><platform_key>steam</platform_key></drm>");
    assert_eq!(result, Err(()));
    assert_panic(&popup, "Key not found in XML");
}

#[test]
fn another_platform_needs_no_key() {
    let (result, popup) = run("<drm><platform_key>itch</platform_key></drm>");
    assert_eq!(result, Ok("itch".to_string()));
    assert_untouched(&popup);
    let (result, _) = run("<drm><key>whatever</key><platform_key>gog</platform_key></drm>");
    assert_eq!(result, Ok("gog".to_string()));
}

#[test]
fn a_manifest_without_a_platform_key_is_rejected() {
    let (result, popup) = run("<drm><key>nowthatswhaticallbadDRM</key></drm>");
    assert_eq!(result, Err(()));
    assert_panic(&popup, "Ingenuine copy: Missing platform key");
    let (result, popup) = run("");
    assert_eq!(result, Err(()));
    assert_panic(&popup, "Ingenuine copy: Missing platform key");
}

#[test]
fn a_malformed_key_manifest_is_rejected_in_silence() {
    let (result, popup) = run("<drm><platform_key>steam</platform_key></key></drm>");
    assert_eq!(result, Err(()));
    assert_untouched(&popup);
}

#[test]
fn the_key_elements_are_read_in_any_order_and_the_last_counts() {
    let (result, _) = run(
        "<drm><key>nowthatswhaticallbadDRM</key><platform_key>itch</platform_key><platform_key>steam</platform_key></drm>",
    );
    assert_eq!(result, Ok("steam".to_string()));
    let (result, popup) = run(
        "<drm><platform_key>steam</platform_key><key>nowthatswhaticallbadDRM</key><key>x</key></drm>",
    );
    assert_eq!(result, Err(()));
    assert_panic(&popup, "Key does not match the predefined value");
}

#[test]
fn the_platform_name_is_matched_exactly() {
    let (result, popup) = run("<drm><platform_key>Steam</platform_key></drm>");
    assert_eq!(result, Ok("Steam".to_string()));
    assert_untouched(&popup);
}

#[test]
fn check_key_judges_events() {
    let mut popup = PopupMessage::default();
    let events = vec![
        XmlEvent::Start("platform_key".to_string()),
        XmlEvent::Text("steam".to_string()),
        XmlEvent::End,
        XmlEvent::Start("key".to_string()),
        XmlEvent::Text("nowthatswhaticallbadDRM".to_string()),
        XmlEvent::End,
        XmlEvent::Eof,
    ];
    assert_eq!(check_key(&mut popup, &events), Ok("steam".to_string()));
    assert_untouched(&popup);
    let broken = vec![
        XmlEvent::Start("platform_key".to_string()),
        XmlEvent::Text("itch".to_string()),
        XmlEvent::Malformed,
    ];
    assert_eq!(check_key(&mut popup, &broken), Err(()));
    assert_untouched(&popup);
}

#[test]
fn a_rejection_replaces_an_earlier_popup() {
    let mut popup = PopupMessage::default();
    popup.show_info("welcome".to_string());
    assert_eq!(keyid(&mut popup, &KeySource::Unreadable), Err(()));
    assert_panic(&popup, "Ingenuine copy, is game from Steam?");
}

#[test]
fn the_key_manifest_has_its_place() {
    assert_eq!(config_variable(), "CONFIG");
    assert_eq!(key_dir(), "DRM");
    assert_eq!(key_file(), "key.xml");
}

#[test]
fn text_after_the_platform_key_does_not_replace_it() {
    let (result, popup) = run("<drm><platform_key>itch</platform_key>steam</drm>");
    assert_eq!(result, Ok("itch".to_string()));
    assert_untouched(&popup);
}

#[test]
fn judging_gives_the_message_without_showing_it() {
    assert_eq!(judge(&KeySource::Unreadable), Err(Some("Ingenuine copy, is game from Steam?".to_string())));
    assert_eq!(
        judge(&KeySource::NoConfig("why".to_string())),
        Err(Some("Failed to get CONFIG environment variable: why".to_string()))
    );
    assert_eq!(
        judge(&KeySource::Manifest("<d><platform_key>gog</platform_key></d>".to_string())),
        Ok("gog".to_string())
    );
    assert_eq!(judge(&KeySource::Manifest("<d></e>".to_string())), Err(None));
    assert_eq!(
        judge_events(&vec![XmlEvent::Eof]),
        Err(Some("Ingenuine copy: Missing platform key".to_string()))
    );
    assert_eq!(judge_events(&vec![XmlEvent::Malformed]), Err(None));
}
