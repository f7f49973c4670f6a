//! The host's popup: one message at a time, of one of four kinds.

use vstd::prelude::*;
use vstd::string::*;

verus! {

/// How serious a popup is. `Panic` blocks the host until the process exits.
#[derive(Clone, Copy, Debug, PartialEq, Eq, Structural)]
pub enum PopupType {
    Error,
    Warning,
    Info,
    Panic,
}

/// The popup's state: the text, its kind, and whether it is on screen.
#[derive(Debug)]
pub struct PopupMessage {
    pub message: String,
    pub popup_type: PopupType,
    pub show: bool,
}

/// The colour a popup's text is drawn in.
#[derive(Clone, Copy, Debug, PartialEq, Eq, Structural)]
pub enum PopupColor {
    Red,
    Yellow,
    White,
}

/// What the popup window shows in one frame.
#[derive(Debug)]
pub struct PopupWindow {
    /// The window title.
    pub title: String,
    /// The line of text, with its prefix where the kind has one.
    pub text: String,
    /// The colour of `text`.
    pub color: PopupColor,
    /// A further line under the text, where the kind has one.
    pub notice: Option<String>,
    /// The caption of the window's only button.
    pub button: String,
    /// Whether the window takes over the screen and its button ends the process.
    pub fatal: bool,
}

impl PopupType {
    /// The colour of a popup of this kind.
    pub open spec fn spec_color(self) -> PopupColor {
        match self {
            PopupType::Error => PopupColor::Red,
            PopupType::Warning => PopupColor::Yellow,
            PopupType::Info => PopupColor::White,
            PopupType::Panic => PopupColor::Red,
        }
    }

    /// What stands before the message of a popup of this kind.
    pub open spec fn spec_prefix(self) -> Seq<char> {
        match self {
            PopupType::Error => "Error: "@,
            PopupType::Warning => "Warning: "@,
            PopupType::Info => "Info: "@,
            PopupType::Panic => ""@,
        }
    }

    /// The colour of a popup of this kind.
    #[verifier::when_used_as_spec(spec_color)]
    pub fn color(self) -> (c: PopupColor)
        ensures
            c == self.spec_color(),
    {
        match self {
            PopupType::Error => PopupColor::Red,
            PopupType::Warning => PopupColor::Yellow,
            PopupType::Info => PopupColor::White,
            PopupType::Panic => PopupColor::Red,
        }
    }

    /// What stands before the message of a popup of this kind.
    pub fn prefix(self) -> (p: &'static str)
        ensures
            p@ == self.spec_prefix(),
    {
        match self {
            PopupType::Error => "Error: ",
            PopupType::Warning => "Warning: ",
            PopupType::Info => "Info: ",
            PopupType::Panic => "",
        }
    }
}

impl Default for PopupMessage {
    /// A hidden popup without text.
    fn default() -> (popup: Self)
        ensures
            popup@ == (PopupView { message: Seq::empty(), popup_type: PopupType::Info, show: false }),
    {
        PopupMessage { message: String::new(), popup_type: PopupType::Info, show: false }
    }
}

impl PopupMessage {
    /// The window for a popup with this text and kind.
    pub open spec fn window_of(message: Seq<char>, kind: PopupType) -> PopupWindowView {
        if kind == PopupType::Panic {
            PopupWindowView {
                title: "Panic"@,
                text: message,
                color: PopupColor::Red,
                notice: Some("The application must be restarted."@),
                button: "Exit"@,
                fatal: true,
            }
        } else {
            PopupWindowView {
                title: "Message"@,
                text: kind.spec_prefix() + message,
                color: kind.spec_color(),
                notice: None,
                button: "OK"@,
                fatal: false,
            }
        }
    }

    /// Puts `message` on screen as an error, in place of whatever was shown.
    pub fn show_error(&mut self, message: String)
        ensures
            final(self)@ == (PopupView { message: message@, popup_type: PopupType::Error, show: true }),
    {
        self.message = message;
        self.popup_type = PopupType::Error;
        self.show = true;
    }

    /// Puts `message` on screen as a warning, in place of whatever was shown.
    pub fn show_warning(&mut self, message: String)
        ensures
            final(self)@ == (PopupView { message: message@, popup_type: PopupType::Warning, show: true }),
    {
        self.message = message;
        self.popup_type = PopupType::Warning;
        self.show = true;
    }

    /// Puts `message` on screen as information, in place of whatever was shown.
    pub fn show_info(&mut self, message: String)
        ensures
            final(self)@ == (PopupView { message: message@, popup_type: PopupType::Info, show: true }),
    {
        self.message = message;
        self.popup_type = PopupType::Info;
        self.show = true;
    }

    /// Puts `message` on screen as a panic, in place of whatever was shown.
    /// Only the end of the process takes a panic off the screen.
    pub fn show_panic(&mut self, message: String)
        ensures
            final(self)@ == (PopupView { message: message@, popup_type: PopupType::Panic, show: true }),
    {
        self.message = message;
        self.popup_type = PopupType::Panic;
        self.show = true;
    }

    /// The text shown in place of the popup when the popup itself could not
    /// be drawn, from the fault's description where it has one.
    pub fn fatal_text(fault: Option<&str>) -> (text: String)
        ensures
            text@ == "A fatal error occurred in the popup system: "@ + match fault {
                Some(description) => description@,
                None => "Unknown error occurred in popup system"@,
            },
    {
        let description = match fault {
            Some(description) => description,
            None => "Unknown error occurred in popup system",
        };
        String::from_str("A fatal error occurred in the popup system: ").concat(description)
    }

    /// What to draw this frame: nothing while the popup is hidden, else its window.
    pub fn draw(&self) -> (window: Option<PopupWindow>)
        ensures
            window is Some <==> self.show,
            self.show ==> window->0@ == Self::window_of(self.message@, self.popup_type),
    {
        if !self.show {
            return None;
        }
        match self.popup_type {
            PopupType::Panic => Some(
                PopupWindow {
                    title: String::from_str("Panic"),
                    text: self.message.clone(),
                    color: PopupColor::Red,
                    notice: Some(String::from_str("The application must be restarted.")),
                    button: String::from_str("Exit"),
                    fatal: true,
                },
            ),
            _ => Some(
                PopupWindow {
                    title: String::from_str("Message"),
                    text: String::from_str(self.popup_type.prefix()).concat(self.message.as_str()),
                    color: self.popup_type.color(),
                    notice: None,
                    button: String::from_str("OK"),
                    fatal: false,
                },
            ),
        }
    }

    /// The window's button was pressed. An ordinary popup goes away; a fatal
    /// one stays, and `exit` tells the host to end the process.
    pub fn dismiss(&mut self) -> (exit: bool)
        ensures
            exit == (old(self).show && old(self).popup_type == PopupType::Panic),
            final(self)@ == (PopupView { show: exit, ..old(self)@ }),
    {
        if !self.show {
            return false;
        }
        match self.popup_type {
            PopupType::Panic => true,
            _ => {
                self.show = false;
                false
            },
        }
    }
}

/// The popup's state as plain values.
pub struct PopupView {
    pub message: Seq<char>,
    pub popup_type: PopupType,
    pub show: bool,
}

impl View for PopupMessage {
    type V = PopupView;

    open spec fn view(&self) -> PopupView {
        PopupView { message: self.message@, popup_type: self.popup_type, show: self.show }
    }
}

/// A popup window as plain values.
pub struct PopupWindowView {
    pub title: Seq<char>,
    pub text: Seq<char>,
    pub color: PopupColor,
    pub notice: Option<Seq<char>>,
    pub button: Seq<char>,
    pub fatal: bool,
}

impl View for PopupWindow {
    type V = PopupWindowView;

    open spec fn view(&self) -> PopupWindowView {
        PopupWindowView {
            title: self.title@,
            text: self.text@,
            color: self.color,
            notice: self.notice.deep_view(),
            button: self.button@,
            fatal: self.fatal,
        }
    }
}

} // verus!
