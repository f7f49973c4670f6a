//! The host's screens: the menu, and the session in which a plugin's script
//! draws in its place.
//!
//! The host reads and runs the script; this module decides what follows from
//! each outcome.

use crate::drm::{agrees, judge, source_outcome, KeySource};
use crate::lua_bindings::ErrorChannel;
use crate::plugin_manager::{PluginManager, PluginManagerView, StoreListing};
use crate::popup::{PopupMessage, PopupType, PopupView};
use vstd::prelude::*;
use vstd::string::*;

verus! {

/// What the host draws in a frame.
#[derive(Clone, Copy, Debug, PartialEq, Eq, Structural)]
pub enum Frame {
    /// The popup, the plugin window and the menu.
    Menu,
    /// The screen of the running session: its `show` is to be called.
    Script,
    /// Nothing: the menu is hidden and no session runs.
    Idle,
    /// The popup alone: a panic is on screen, and nothing else can be used
    /// until the process ends.
    Fatal,
}

/// How the host's attempt to start the entry script went.
#[derive(Debug)]
pub enum LoadOutcome<S> {
    /// The script ran and returned its screen.
    Loaded(S),
    /// The script did not compile.
    CompileFailed(String),
    /// The script failed while it ran, or returned no screen.
    RunFailed(String),
}

/// How the host's call of a session's `show` went.
#[derive(Debug)]
pub enum ShowOutcome {
    /// The screen drew.
    Drawn,
    /// The session's value is no screen, or it has no `show`; the text
    /// says what is missing.
    Missing(String),
    /// `show` failed; the text says why.
    Failed(String),
}

impl ShowOutcome {
    /// The failure that the outcome reports, if it is one: a missing `show`
    /// counts as much as a failing one.
    pub open spec fn failure(self) -> Option<Seq<char>> {
        match self {
            ShowOutcome::Drawn => None,
            ShowOutcome::Missing(what) => Some(what@),
            ShowOutcome::Failed(cause) => Some(cause@),
        }
    }
}

/// The host's state. `S` is whatever stands for a session's screen.
#[derive(Debug)]
pub struct Host<S> {
    pub popup: PopupMessage,
    pub plugin_manager: PluginManager,
    pub show_menu: bool,
    pub current_screen: Option<S>,
}

/// The host's state as plain values.
pub struct HostView<S> {
    pub popup: PopupView,
    pub plugin_manager: PluginManagerView,
    pub show_menu: bool,
    pub current_screen: Option<S>,
}

impl<S> View for Host<S> {
    type V = HostView<S>;

    open spec fn view(&self) -> HostView<S> {
        HostView {
            popup: self.popup@,
            plugin_manager: self.plugin_manager@,
            show_menu: self.show_menu,
            current_screen: self.current_screen,
        }
    }
}

/// An error popup with the given text, on screen.
pub open spec fn error_popup(message: Seq<char>) -> PopupView {
    PopupView { message, popup_type: PopupType::Error, show: true }
}

/// A panic popup with the given text, on screen.
pub open spec fn panic_popup(message: Seq<char>) -> PopupView {
    PopupView { message, popup_type: PopupType::Panic, show: true }
}

/// The popup after the licence check: untouched where the copy is accepted,
/// else a panic, with the check's message where it has one.
pub open spec fn licence_popup(
    popup: PopupView,
    outcome: Result<Seq<char>, Option<Seq<char>>>,
) -> PopupView {
    match outcome {
        Ok(_) => popup,
        Err(Some(message)) => panic_popup(message),
        Err(None) => panic_popup("DRM check Error occurred."@),
    }
}

impl<S> HostView<S> {
    /// What is drawn in this state.
    pub open spec fn frame(self) -> Frame {
        if self.popup.show && self.popup.popup_type == PopupType::Panic {
            Frame::Fatal
        } else if self.show_menu {
            Frame::Menu
        } else if self.current_screen is Some {
            Frame::Script
        } else {
            Frame::Idle
        }
    }

    /// The state after a call of the session's `show`: a failure is reported
    /// and ends the session, and the menu is back.
    pub open spec fn shown(self, failure: Option<Seq<char>>) -> HostView<S> {
        match failure {
            Some(cause) => HostView {
                popup: error_popup("Lua error: "@ + cause),
                show_menu: true,
                current_screen: None,
                ..self
            },
            None => self,
        }
    }
}

/// The plugin whose script the menu's start button runs.
pub fn entry_plugin() -> (name: &'static str)
    ensures
        name@ == "game"@,
{
    "game"
}

/// The file name of a plugin's entry script.
pub fn entry_script() -> (name: &'static str)
    ensures
        name@ == "index.lua"@,
{
    "index.lua"
}

impl<S> Host<S> {
    /// The host at startup: the menu, no session, no popup, an empty registry.
    pub fn new(config_dir: String) -> (host: Host<S>)
        ensures
            host.show_menu,
            host.current_screen is None,
            host.popup@ == (PopupView {
                message: Seq::empty(),
                popup_type: PopupType::Info,
                show: false,
            }),
            host.plugin_manager@ == (PluginManagerView {
                show: false,
                plugins: Seq::empty(),
                config_dir: config_dir@,
                confirm_delete: None,
            }),
            host@.frame() == Frame::Menu,
    {
        Host {
            popup: PopupMessage::default(),
            plugin_manager: PluginManager::new(config_dir),
            show_menu: true,
            current_screen: None,
        }
    }

    /// The licence check at startup. A copy that is not accepted leaves a
    /// panic on screen, whatever the reason: the host is of no use until
    /// the process ends.
    pub fn check_licence(&mut self, source: &KeySource) -> (result: Result<String, ()>)
        ensures
            agrees(result, source_outcome(*source)),
            final(self)@ == (HostView {
                popup: licence_popup(old(self)@.popup, source_outcome(*source)),
                ..old(self)@
            }),
            result is Err ==> final(self)@.frame() == Frame::Fatal,
    {
        match judge(source) {
            Ok(platform) => Ok(platform),
            Err(Some(message)) => {
                self.popup.show_panic(message);
                Err(())
            },
            Err(None) => {
                self.popup.show_panic(String::from_str("DRM check Error occurred."));
                Err(())
            },
        }
    }

    /// What to draw this frame.
    pub fn frame(&self) -> (frame: Frame)
        ensures
            frame == self@.frame(),
    {
        if self.popup.show && self.popup.popup_type == PopupType::Panic {
            Frame::Fatal
        } else if self.show_menu {
            Frame::Menu
        } else if self.current_screen.is_some() {
            Frame::Script
        } else {
            Frame::Idle
        }
    }

    /// Takes one waiting failure report off the channel, if there is one,
    /// and shows it.
    pub fn drain_errors(&mut self, channel: &mut ErrorChannel)
        ensures
            old(channel)@.len() == 0 ==> final(self)@ == old(self)@,
            old(channel)@.len() == 0 ==> final(channel)@ == old(channel)@,
            old(channel)@.len() > 0 ==> final(self)@ == (HostView {
                popup: error_popup(old(channel)@[0]),
                ..old(self)@
            }),
            old(channel)@.len() > 0 ==> final(channel)@ == old(channel)@.skip(1),
    {
        match channel.try_recv() {
            Some(message) => self.popup.show_error(message),
            None => {},
        }
    }

    /// The start button was pressed and the host has tried to read the entry
    /// script. Returns the code to run. Without code (the file is unreadable
    /// or empty) there is nothing to run, and the popup says so.
    pub fn script_read(&mut self, code: Option<String>) -> (run: Option<String>)
        ensures
            match code {
                Some(text) if text@.len() > 0 => run == Some(text) && final(self)@ == old(self)@,
                _ => run is None && final(self)@ == (HostView {
                    popup: error_popup("Lua code is empty, cannot proceed."@),
                    ..old(self)@
                }),
            },
    {
        match code {
            Some(text) => {
                if !text.as_str().is_empty() {
                    return Some(text);
                }
            },
            None => {},
        }
        self.popup.show_error(String::from_str("Lua code is empty, cannot proceed."));
        None
    }

    /// The host has compiled and run the entry script. A screen starts the
    /// session and hides the menu; a failure is reported and the menu stays.
    pub fn script_loaded(&mut self, outcome: LoadOutcome<S>)
        ensures
            final(self)@ == match outcome {
                LoadOutcome::Loaded(screen) => HostView {
                    show_menu: false,
                    current_screen: Some(screen),
                    ..old(self)@
                },
                LoadOutcome::CompileFailed(cause) => HostView {
                    popup: error_popup("Error loading Lua chunk: "@ + cause@),
                    ..old(self)@
                },
                LoadOutcome::RunFailed(cause) => HostView {
                    popup: error_popup("Error executing Lua chunk: "@ + cause@),
                    ..old(self)@
                },
            },
    {
        match outcome {
            LoadOutcome::Loaded(screen) => {
                self.current_screen = Some(screen);
                self.show_menu = false;
            },
            LoadOutcome::CompileFailed(cause) => {
                self.popup.show_error(
                    String::from_str("Error loading Lua chunk: ").concat(cause.as_str()),
                );
            },
            LoadOutcome::RunFailed(cause) => {
                self.popup.show_error(
                    String::from_str("Error executing Lua chunk: ").concat(cause.as_str()),
                );
            },
        }
    }

    /// The host has called the session's `show` for this frame. A failure is
    /// reported, the session is dropped and the menu comes back; it is not
    /// tried again.
    pub fn screen_shown(&mut self, outcome: ShowOutcome)
        ensures
            final(self)@ == old(self)@.shown(outcome.failure()),
            !(outcome is Drawn) ==> final(self)@.frame() == Frame::Menu,
    {
        match outcome {
            ShowOutcome::Drawn => {},
            ShowOutcome::Missing(cause) | ShowOutcome::Failed(cause) => {
                self.popup.show_error(String::from_str("Lua error: ").concat(cause.as_str()));
                self.show_menu = true;
                self.current_screen = None;
            },
        }
    }

    /// The menu's plugins button was pressed: the plugin window opens on a
    /// fresh view of the stores.
    pub fn open_plugins(&mut self, listing: Option<&StoreListing>)
        ensures
            final(self)@ == (HostView {
                plugin_manager: (PluginManagerView {
                    show: true,
                    ..old(self)@.plugin_manager
                }).refreshed(listing.deep_view()),
                ..old(self)@
            }),
    {
        self.plugin_manager.show = true;
        self.plugin_manager.refresh_plugins(listing);
    }
}

/// A session whose `show` fails is not kept: the failure is on screen as an
/// error, no session is left, and the next frame draws the menu.
pub proof fn lemma_failed_session_falls_back<S>(host: HostView<S>, cause: Seq<char>)
    ensures
        host.shown(Some(cause)).frame() == Frame::Menu,
        host.shown(Some(cause)).current_screen is None,
        host.shown(Some(cause)).popup == error_popup("Lua error: "@ + cause),
        host.shown(Some(cause)).plugin_manager == host.plugin_manager,
{
}

} // verus!
