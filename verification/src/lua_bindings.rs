//! What the host offers to plugin scripts: the drawing operations by name,
//! the module's constants, and the channel on which a nested callback
//! reports its failure.

use std::collections::VecDeque;
use vstd::prelude::*;
use vstd::string::*;

verus! {

/// A failure raised inside a script, by its message.
#[derive(Debug)]
pub struct LuaError(pub String);

/// The operations of the `ui` object that scripts draw with.
#[derive(Clone, Copy, Debug, PartialEq, Eq, Structural)]
pub enum UiMethod {
    Button,
    Label,
    Vertical,
    Horizontal,
    AddSpace,
    TextEdit,
    Checkbox,
    Slider,
    Heading,
    ColoredText,
}

impl UiMethod {
    /// The name under which scripts call the operation.
    pub open spec fn spec_name(self) -> Seq<char> {
        match self {
            UiMethod::Button => "button"@,
            UiMethod::Label => "label"@,
            UiMethod::Vertical => "vertical"@,
            UiMethod::Horizontal => "horizontal"@,
            UiMethod::AddSpace => "add_space"@,
            UiMethod::TextEdit => "text_edit"@,
            UiMethod::Checkbox => "checkbox"@,
            UiMethod::Slider => "slider"@,
            UiMethod::Heading => "heading"@,
            UiMethod::ColoredText => "colored_text"@,
        }
    }

    /// Whether the operation groups what a nested callback draws.
    pub open spec fn spec_is_layout(self) -> bool {
        self == UiMethod::Vertical || self == UiMethod::Horizontal
    }

    /// The name under which scripts call the operation.
    pub fn name(self) -> (name: &'static str)
        ensures
            name@ == self.spec_name(),
    {
        match self {
            UiMethod::Button => "button",
            UiMethod::Label => "label",
            UiMethod::Vertical => "vertical",
            UiMethod::Horizontal => "horizontal",
            UiMethod::AddSpace => "add_space",
            UiMethod::TextEdit => "text_edit",
            UiMethod::Checkbox => "checkbox",
            UiMethod::Slider => "slider",
            UiMethod::Heading => "heading",
            UiMethod::ColoredText => "colored_text",
        }
    }

    /// Whether the operation groups what a nested callback draws.
    #[verifier::when_used_as_spec(spec_is_layout)]
    pub fn is_layout(self) -> (layout: bool)
        ensures
            layout == self.spec_is_layout(),
    {
        match self {
            UiMethod::Vertical | UiMethod::Horizontal => true,
            _ => false,
        }
    }

    /// The message for a failure that a script's callback raised inside this
    /// operation: where the failure happened, then its cause.
    pub fn nested_error(self, cause: &str) -> (message: String)
        ensures
            message@ == "Lua error in "@ + self.spec_name() + ": "@ + cause@,
    {
        String::from_str("Lua error in ").concat(self.name()).concat(": ").concat(cause)
    }
}

/// No two operations share a name.
pub proof fn lemma_method_names_differ(a: UiMethod, b: UiMethod)
    requires
        a != b,
    ensures
        a.spec_name() != b.spec_name(),
{
    reveal_strlit("button");
    reveal_strlit("label");
    reveal_strlit("vertical");
    reveal_strlit("horizontal");
    reveal_strlit("add_space");
    reveal_strlit("text_edit");
    reveal_strlit("checkbox");
    reveal_strlit("slider");
    reveal_strlit("heading");
    reveal_strlit("colored_text");
    assert("button"@.len() == 6 && "button"@[0] == 'b');
    assert("label"@.len() == 5);
    assert("vertical"@.len() == 8 && "vertical"@[0] == 'v');
    assert("horizontal"@.len() == 10);
    assert("add_space"@.len() == 9 && "add_space"@[0] == 'a');
    assert("text_edit"@.len() == 9 && "text_edit"@[0] == 't');
    assert("checkbox"@.len() == 8 && "checkbox"@[0] == 'c');
    assert("slider"@.len() == 6 && "slider"@[0] == 's');
    assert("heading"@.len() == 7);
    assert("colored_text"@.len() == 12);
}

/// The value of the module's `version` entry.
pub fn module_version() -> (version: &'static str)
    ensures
        version@ == "1.0.0"@,
{
    "1.0.0"
}

/// The module's `rgb` helper: the three components as one colour.
pub fn rgb(r: u8, g: u8, b: u8) -> (color: [u8; 3])
    ensures
        color@ == seq![r, g, b],
{
    [r, g, b]
}

/// The channel on which nested callbacks report failures. Messages wait in
/// the order in which they were sent; the host takes at most one per frame.
pub struct ErrorChannel {
    pending: VecDeque<String>,
}

impl View for ErrorChannel {
    type V = Seq<Seq<char>>;

    closed spec fn view(&self) -> Seq<Seq<char>> {
        self.pending@.map_values(|m: String| m@)
    }
}

impl ErrorChannel {
    pub fn new() -> (channel: Self)
        ensures
            channel@ == Seq::<Seq<char>>::empty(),
    {
        ErrorChannel { pending: VecDeque::new() }
    }

    /// Queues a message behind those already waiting.
    pub fn send(&mut self, message: String)
        ensures
            final(self)@ == old(self)@.push(message@),
    {
        self.pending.push_back(message);
    }

    /// Takes the oldest waiting message, if there is one. Never waits.
    pub fn try_recv(&mut self) -> (message: Option<String>)
        ensures
            old(self)@.len() == 0 ==> message is None && final(self)@ == old(self)@,
            old(self)@.len() > 0 ==> message is Some && message->0@ == old(self)@[0],
            old(self)@.len() > 0 ==> final(self)@ == old(self)@.skip(1),
    {
        self.pending.pop_front()
    }
}

} // verus!
