//! The popup operations that the host offers to plugin scripts.

use crate::popup::{PopupMessage, PopupType, PopupView};
use vstd::prelude::*;

verus! {

/// The operations of the `popup` object that scripts report with.
#[derive(Clone, Copy, Debug, PartialEq, Eq, Structural)]
pub enum PopupMethod {
    ShowError,
    ShowWarning,
    ShowInfo,
    ShowPanic,
}

impl PopupMethod {
    /// The name under which scripts call the operation.
    pub open spec fn spec_name(self) -> Seq<char> {
        match self {
            PopupMethod::ShowError => "show_error"@,
            PopupMethod::ShowWarning => "show_warning"@,
            PopupMethod::ShowInfo => "show_info"@,
            PopupMethod::ShowPanic => "show_panic"@,
        }
    }

    /// The kind of popup that the operation shows.
    pub open spec fn spec_popup_type(self) -> PopupType {
        match self {
            PopupMethod::ShowError => PopupType::Error,
            PopupMethod::ShowWarning => PopupType::Warning,
            PopupMethod::ShowInfo => PopupType::Info,
            PopupMethod::ShowPanic => PopupType::Panic,
        }
    }

    /// The name under which scripts call the operation.
    pub fn name(self) -> (name: &'static str)
        ensures
            name@ == self.spec_name(),
    {
        match self {
            PopupMethod::ShowError => "show_error",
            PopupMethod::ShowWarning => "show_warning",
            PopupMethod::ShowInfo => "show_info",
            PopupMethod::ShowPanic => "show_panic",
        }
    }

    /// Carries the operation out: the popup shows `message`, as the kind
    /// that the operation stands for.
    pub fn invoke(self, popup: &mut PopupMessage, message: String)
        ensures
            final(popup)@ == (PopupView {
                message: message@,
                popup_type: self.spec_popup_type(),
                show: true,
            }),
    {
        match self {
            PopupMethod::ShowError => popup.show_error(message),
            PopupMethod::ShowWarning => popup.show_warning(message),
            PopupMethod::ShowInfo => popup.show_info(message),
            PopupMethod::ShowPanic => popup.show_panic(message),
        }
    }
}

/// No two operations share a name.
pub proof fn lemma_popup_names_differ(a: PopupMethod, b: PopupMethod)
    requires
        a != b,
    ensures
        a.spec_name() != b.spec_name(),
{
    reveal_strlit("show_error");
    reveal_strlit("show_warning");
    reveal_strlit("show_info");
    reveal_strlit("show_panic");
    assert("show_error"@.len() == 10 && "show_error"@[5] == 'e');
    assert("show_warning"@.len() == 12);
    assert("show_info"@.len() == 9);
    assert("show_panic"@.len() == 10 && "show_panic"@[5] == 'p');
}

} // verus!
