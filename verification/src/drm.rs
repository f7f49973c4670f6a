//! The licence check at startup: what the key manifest has to say for the
//! launcher to accept the copy.

use crate::popup::{PopupMessage, PopupType, PopupView};
use crate::text::same_text;
use crate::xml::{
    element_text, event_views, read_events, text_of, through_terminal, xml_events, XmlEvent,
    XmlEventView,
};
use vstd::prelude::*;
use vstd::string::*;

verus! {

/// The environment variable that names the configuration root.
pub fn config_variable() -> (name: &'static str)
    ensures
        name@ == "CONFIG"@,
{
    "CONFIG"
}

/// The directory under the configuration root that holds the key manifest.
pub fn key_dir() -> (name: &'static str)
    ensures
        name@ == "DRM"@,
{
    "DRM"
}

/// The file name of the key manifest.
pub fn key_file() -> (name: &'static str)
    ensures
        name@ == "key.xml"@,
{
    "key.xml"
}

/// What the host found where the key manifest should be.
#[derive(Debug)]
pub enum KeySource {
    /// The configuration root is not known; the text says why.
    NoConfig(String),
    /// The key manifest could not be read.
    Unreadable,
    /// The text of the key manifest.
    Manifest(String),
}

/// The key that a copy from the `steam` platform has to carry.
pub open spec fn predefined_key() -> Seq<char> {
    "nowthatswhaticallbadDRM"@
}

/// Whether any of the events reports malformed input.
pub open spec fn malformed(events: Seq<XmlEventView>) -> bool {
    exists|i: int| 0 <= i < events.len() && events[i] is Malformed
}

/// What the check makes of a key manifest's events: the platform key where the copy
/// is accepted; else the message to show, or none where the manifest is
/// malformed.
pub open spec fn key_outcome(events: Seq<XmlEventView>) -> Result<Seq<char>, Option<Seq<char>>> {
    let platform = element_text(events, "platform_key"@);
    let key = element_text(events, "key"@);
    if malformed(events) {
        Err(None)
    } else if platform == Some("steam"@) && key is None {
        Err(Some("Key not found in XML"@))
    } else if platform == Some("steam"@) && key != Some(predefined_key()) {
        Err(Some("Key does not match the predefined value"@))
    } else {
        match platform {
            Some(found) => Ok(found),
            None => Err(Some("Ingenuine copy: Missing platform key"@)),
        }
    }
}

/// What the check makes of what was found in place of the key manifest.
pub open spec fn source_outcome(source: KeySource) -> Result<Seq<char>, Option<Seq<char>>> {
    match source {
        KeySource::NoConfig(cause) => Err(
            Some("Failed to get CONFIG environment variable: "@ + cause@),
        ),
        KeySource::Unreadable => Err(Some("Ingenuine copy, is game from Steam?"@)),
        KeySource::Manifest(xml) => key_outcome(through_terminal(xml_events(xml@))),
    }
}

/// The popup once the check is done: a refusal that carries a message is
/// shown as a panic, anything else leaves the popup alone.
pub open spec fn popup_after(
    popup: PopupView,
    outcome: Result<Seq<char>, Option<Seq<char>>>,
) -> PopupView {
    match outcome {
        Err(Some(message)) => PopupView { message, popup_type: PopupType::Panic, show: true },
        _ => popup,
    }
}

/// Whether a result is the one that an outcome calls for.
pub open spec fn agrees(result: Result<String, ()>, outcome: Result<Seq<char>, Option<Seq<char>>>) -> bool {
    match outcome {
        Ok(platform) => result is Ok && result->Ok_0@ == platform,
        Err(_) => result is Err,
    }
}

/// Whether any of the events reports malformed input.
fn any_malformed(events: &Vec<XmlEvent>) -> (found: bool)
    ensures
        found == malformed(event_views(events@)),
{
    let mut i: usize = 0;
    while i < events.len()
        invariant
            i <= events.len(),
            forall|k: int| 0 <= k < i ==> !(event_views(events@)[k] is Malformed),
        decreases events.len() - i,
    {
        match &events[i] {
            XmlEvent::Malformed => {
                assert(event_views(events@)[i as int] is Malformed);
                return true;
            },
            _ => {},
        }
        i += 1;
    }
    false
}

/// An outcome of the check by its texts.
pub open spec fn outcome_view(outcome: Result<String, Option<String>>) -> Result<
    Seq<char>,
    Option<Seq<char>>,
> {
    match outcome {
        Ok(platform) => Ok(platform@),
        Err(Some(message)) => Err(Some(message@)),
        Err(None) => Err(None),
    }
}

/// Judges the events of a key manifest: the platform key where one is given
/// and, for `steam`, the key beside it is the predefined one; else the
/// message to show, or none where the manifest is malformed.
pub fn judge_events(events: &Vec<XmlEvent>) -> (outcome: Result<String, Option<String>>)
    ensures
        outcome_view(outcome) == key_outcome(event_views(events@)),
{
    if any_malformed(events) {
        return Err(None);
    }
    let platform = text_of(events, "platform_key");
    let key = text_of(events, "key");
    let steam = match &platform {
        Some(found) => same_text(found.as_str(), "steam"),
        None => false,
    };
    if steam {
        match &key {
            Some(given) => {
                if !same_text(given.as_str(), "nowthatswhaticallbadDRM") {
                    return Err(Some(String::from_str("Key does not match the predefined value")));
                }
            },
            None => {
                return Err(Some(String::from_str("Key not found in XML")));
            },
        }
    }
    match platform {
        Some(found) => Ok(found),
        None => Err(Some(String::from_str("Ingenuine copy: Missing platform key"))),
    }
}

/// Judges what was found in place of the key manifest. Without a
/// configuration root or a readable key manifest the copy is rejected;
/// else the manifest decides, as `judge_events` tells.
pub fn judge(source: &KeySource) -> (outcome: Result<String, Option<String>>)
    ensures
        outcome_view(outcome) == source_outcome(*source),
{
    match source {
        KeySource::NoConfig(cause) => Err(
            Some(
                String::from_str("Failed to get CONFIG environment variable: ").concat(
                    cause.as_str(),
                ),
            ),
        ),
        KeySource::Unreadable => Err(Some(String::from_str("Ingenuine copy, is game from Steam?"))),
        KeySource::Manifest(xml) => {
            let events = read_events(xml.as_str());
            judge_events(&events)
        },
    }
}

/// Shows a rejection that carries a message as a panic, and gives the
/// outcome as a plain result.
fn report(popup: &mut PopupMessage, outcome: Result<String, Option<String>>) -> (result: Result<
    String,
    (),
>)
    ensures
        agrees(result, outcome_view(outcome)),
        final(popup)@ == popup_after(old(popup)@, outcome_view(outcome)),
{
    match outcome {
        Ok(platform) => Ok(platform),
        Err(Some(message)) => {
            popup.show_panic(message);
            Err(())
        },
        Err(None) => Err(()),
    }
}

/// The licence check on the events of a key manifest. The platform key is
/// returned where the copy is accepted. A rejection is shown as a panic,
/// except that of a malformed manifest, which is silent.
pub fn check_key(popup: &mut PopupMessage, events: &Vec<XmlEvent>) -> (result: Result<String, ()>)
    ensures
        agrees(result, key_outcome(event_views(events@))),
        final(popup)@ == popup_after(old(popup)@, key_outcome(event_views(events@))),
{
    report(popup, judge_events(events))
}

/// The licence check. Without a configuration root or a readable key
/// manifest the copy is rejected with a panic popup; else the manifest
/// decides, as `check_key` tells.
pub fn keyid(popup: &mut PopupMessage, source: &KeySource) -> (result: Result<String, ()>)
    ensures
        agrees(result, source_outcome(*source)),
        final(popup)@ == popup_after(old(popup)@, source_outcome(*source)),
{
    report(popup, judge(source))
}

} // verus!
