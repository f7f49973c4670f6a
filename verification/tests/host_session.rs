use orbit::drm::KeySource;
use orbit::lua_bindings::ErrorChannel;
use orbit::plugin_manager::{DirEntry, ManifestFile, StoreListing};
use orbit::popup::PopupType;
use orbit::session::{entry_plugin, entry_script, Frame, Host, LoadOutcome, ShowOutcome};

fn host() -> Host<u32> {
    Host::new("/cfg".to_string())
}

fn assert_error(host: &Host<u32>, message: &str) {
    assert!(host.popup.show);
    assert_eq!(host.popup.popup_type, PopupType::Error);
    assert_eq!(host.popup.message, message);
}

#[test]
fn the_host_starts_on_the_menu() {
    let host = host();
    assert!(host.show_menu);
    assert_eq!(host.current_screen, None);
    assert!(!host.popup.show);
    assert!(!host.plugin_manager.show);
    assert_eq!(host.plugin_manager.config_dir, "/cfg");
    assert_eq!(host.frame(), Frame::Menu);
}

#[test]
fn the_entry_script_is_the_game_s_index() {
    assert_eq!(entry_plugin(), "game");
    assert_eq!(entry_script(), "index.lua");
}

#[test]
fn code_that_was_read_is_run() {
    let mut host = host();
    assert_eq!(host.script_read(Some("return {}".to_string())), Some("return {}".to_string()));
    assert!(!host.popup.show);
    assert_eq!(host.frame(), Frame::Menu);
}

#[test]
fn an_empty_or_unreadable_script_is_reported() {
    let mut host = host();
    assert_eq!(host.script_read(Some(String::new())), None);
    assert_error(&host, "Lua code is empty, cannot proceed.");
    let mut host = self::host();
    assert_eq!(host.script_read(None), None);
    assert_error(&host, "Lua code is empty, cannot proceed.");
    assert_eq!(host.frame(), Frame::Menu);
}

#[test]
fn a_loaded_screen_starts_the_session() {
    let mut host = host();
    host.script_loaded(LoadOutcome::Loaded(7));
    assert!(!host.show_menu);
    assert_eq!(host.current_screen, Some(7));
    assert_eq!(host.frame(), Frame::Script);
    assert!(!host.popup.show);
}

#[test]
fn a_script_that_does_not_compile_is_reported() {
    let mut host = host();
    host.script_loaded(LoadOutcome::CompileFailed("syntax error near 'end'".to_string()));
    assert_error(&host, "Error loading Lua chunk: syntax error near 'end'");
    assert_eq!(host.frame(), Frame::Menu);
    assert_eq!(host.current_screen, None);
}

#[test]
fn a_script_that_fails_to_run_is_reported() {
    let mut host = host();
    host.script_loaded(LoadOutcome::RunFailed("attempt to index a nil value".to_string()));
    assert_error(&host, "Error executing Lua chunk: attempt to index a nil value");
    assert_eq!(host.frame(), Frame::Menu);
    assert_eq!(host.current_screen, None);
}

#[test]
fn a_screen_that_draws_keeps_the_session() {
    let mut host = host();
    host.script_loaded(LoadOutcome::Loaded(7));
    host.screen_shown(ShowOutcome::Drawn);
    assert_eq!(host.frame(), Frame::Script);
    assert_eq!(host.current_screen, Some(7));
    assert!(!host.popup.show);
}

#[test]
fn a_failing_screen_falls_back_to_the_menu() {
    let mut host = host();
    host.script_loaded(LoadOutcome::Loaded(7));
    host.screen_shown(ShowOutcome::Failed("boom".to_string()));
    assert_error(&host, "Lua error: boom");
    assert!(host.show_menu);
    assert_eq!(host.current_screen, None);
    assert_eq!(host.frame(), Frame::Menu);
}

#[test]
fn a_hidden_menu_without_a_session_draws_nothing() {
    let mut host = host();
    host.show_menu = false;
    assert_eq!(host.frame(), Frame::Idle);
}

#[test]
fn one_nested_failure_is_shown_per_frame() {
    let mut host = host();
    let mut channel = ErrorChannel::new();
    host.drain_errors(&mut channel);
    assert!(!host.popup.show);
    channel.send("Lua error in vertical: a".to_string());
    channel.send("Lua error in horizontal: b".to_string());
    host.drain_errors(&mut channel);
    assert_error(&host, "Lua error in vertical: a");
    host.drain_errors(&mut channel);
    assert_error(&host, "Lua error in horizontal: b");
    host.drain_errors(&mut channel);
    assert_error(&host, "Lua error in horizontal: b");
    assert_eq!(channel.try_recv(), None);
}

#[test]
fn the_plugins_button_opens_a_fresh_window() {
    let mut host = host();
    let listing = StoreListing {
        active: vec![DirEntry {
            name: "a".to_string(),
            is_dir: true,
            manifest: ManifestFile::Missing,
        }],
        disabled: vec![],
    };
    host.plugin_manager.request_delete("old".to_string());
    host.open_plugins(Some(&listing));
    assert!(host.plugin_manager.show);
    assert_eq!(host.plugin_manager.plugins.len(), 1);
    assert_eq!(host.plugin_manager.confirm_delete, None);
    assert_eq!(host.frame(), Frame::Menu);
    host.open_plugins(None);
    assert!(host.plugin_manager.show);
    assert!(host.plugin_manager.plugins.is_empty());
}

#[test]
fn an_accepted_copy_leaves_the_host_on_the_menu() {
    let mut host = host();
    let source = KeySource::Manifest("<d><platform_key>itch</platform_key></d>".to_string());
    assert_eq!(host.check_licence(&source), Ok("itch".to_string()));
    assert!(!host.popup.show);
    assert_eq!(host.frame(), Frame::Menu);
}

#[test]
fn a_rejected_copy_blocks_the_host() {
    let mut host = host();
    assert_eq!(host.check_licence(&KeySource::Unreadable), Err(()));
    assert!(host.popup.show);
    assert_eq!(host.popup.popup_type, PopupType::Panic);
    assert_eq!(host.popup.message, "Ingenuine copy, is game from Steam?");
    assert_eq!(host.frame(), Frame::Fatal);
    assert!(host.popup.dismiss());
    assert_eq!(host.frame(), Frame::Fatal);
}

#[test]
fn a_malformed_key_manifest_blocks_the_host_too() {
    let mut host = host();
    let source = KeySource::Manifest("<d><platform_key>steam</platform_key></e>".to_string());
    assert_eq!(host.check_licence(&source), Err(()));
    assert_eq!(host.popup.popup_type, PopupType::Panic);
    assert_eq!(host.popup.message, "DRM check Error occurred.");
    assert_eq!(host.frame(), Frame::Fatal);
}

#[test]
fn a_panic_from_a_running_session_blocks_the_host() {
    let mut host = host();
    host.script_loaded(LoadOutcome::Loaded(7));
    assert_eq!(host.frame(), Frame::Script);
    host.popup.show_panic("save file corrupt".to_string());
    assert_eq!(host.frame(), Frame::Fatal);
}

#[test]
fn an_ordinary_popup_does_not_block_the_host() {
    let mut host = host();
    host.popup.show_error("x".to_string());
    assert_eq!(host.frame(), Frame::Menu);
    host.popup.show_warning("x".to_string());
    assert_eq!(host.frame(), Frame::Menu);
}

#[test]
fn a_screen_without_show_falls_back_to_the_menu() {
    let mut host = host();
    host.script_loaded(LoadOutcome::Loaded(7));
    host.screen_shown(ShowOutcome::Missing("error converting Lua nil to function".to_string()));
    assert_error(&host, "Lua error: error converting Lua nil to function");
    assert!(host.show_menu);
    assert_eq!(host.current_screen, None);
    assert_eq!(host.frame(), Frame::Menu);
}
