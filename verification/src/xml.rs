//! Reading a manifest as a stream of XML events.
//!
//! The tokenising is `quick_xml`'s. This module names what its reader yields
//! and states, over that name, which events the library works on.

use quick_xml::events::Event;
use crate::text::same_text;
use quick_xml::reader::Reader;
use vstd::prelude::*;

verus! {

/// One event of the reader, reduced to what the library reads from it.
#[derive(Debug)]
pub enum XmlEvent {
    /// An opening tag, with the element's name.
    Start(String),
    /// A closing tag: it closes the innermost element that is open.
    End,
    /// A self-closing tag: an element that is never open.
    Empty,
    /// Character data, unescaped; empty where it could not be unescaped.
    Text(String),
    /// Any other markup: a comment, a CDATA section, a declaration, a
    /// processing instruction or a doctype.
    Other,
    /// The end of the input.
    Eof,
    /// The reader gave up on malformed input.
    Malformed,
}

/// An event as plain values.
pub enum XmlEventView {
    Start(Seq<char>),
    End,
    Empty,
    Text(Seq<char>),
    Other,
    Eof,
    Malformed,
}

impl View for XmlEvent {
    type V = XmlEventView;

    open spec fn view(&self) -> XmlEventView {
        match self {
            XmlEvent::Start(name) => XmlEventView::Start(name@),
            XmlEvent::End => XmlEventView::End,
            XmlEvent::Empty => XmlEventView::Empty,
            XmlEvent::Text(text) => XmlEventView::Text(text@),
            XmlEvent::Other => XmlEventView::Other,
            XmlEvent::Eof => XmlEventView::Eof,
            XmlEvent::Malformed => XmlEventView::Malformed,
        }
    }
}

impl XmlEventView {
    /// Whether the reader stops at this event.
    pub open spec fn is_terminal(self) -> bool {
        self is Eof || self is Malformed
    }
}

/// The events of a vector, each by its view.
pub open spec fn event_views(events: Seq<XmlEvent>) -> Seq<XmlEventView> {
    events.map_values(|e: XmlEvent| e@)
}

/// The events up to and including the first at which the reader stops; all
/// of them where it never does.
pub open spec fn through_terminal(events: Seq<XmlEventView>) -> Seq<XmlEventView>
    decreases events.len(),
{
    if events.len() == 0 {
        events
    } else if events[0].is_terminal() {
        seq![events[0]]
    } else {
        seq![events[0]] + through_terminal(events.skip(1))
    }
}

/// The elements that are open before position `i`, outermost first: an
/// opening tag opens one, a closing tag closes the innermost.
pub open spec fn open_elements(events: Seq<XmlEventView>, i: int) -> Seq<Seq<char>>
    decreases i,
{
    if i <= 0 || i > events.len() {
        Seq::empty()
    } else {
        let before = open_elements(events, i - 1);
        match events[i - 1] {
            XmlEventView::Start(name) => before.push(name),
            XmlEventView::End => if before.len() > 0 {
                before.drop_last()
            } else {
                before
            },
            _ => before,
        }
    }
}

/// The innermost element that is open before position `i`, if any is.
pub open spec fn enclosing(events: Seq<XmlEventView>, i: int) -> Option<Seq<char>> {
    let open = open_elements(events, i);
    if open.len() > 0 {
        Some(open.last())
    } else {
        None
    }
}

/// The character data that counts for `tag`: that of the last text event
/// that stands directly inside an element `tag`. Text inside a nested
/// element counts for that element, and text that follows the closing tag
/// counts for the element around it, if there is one.
pub open spec fn element_text(events: Seq<XmlEventView>, tag: Seq<char>) -> Option<Seq<char>>
    decreases events.len(),
{
    if events.len() == 0 {
        None
    } else {
        match events.last() {
            XmlEventView::Text(text) if enclosing(events, events.len() - 1) == Some(tag) => Some(
                text,
            ),
            _ => element_text(events.drop_last(), tag),
        }
    }
}

/// `quick_xml`'s reader. Nothing inside it is visible here.
#[verifier::external_type_specification]
#[verifier::external_body]
#[verifier::reject_recursive_types(R)]
pub struct ExReader<R>(Reader<R>);

/// The events that a reader over a string has yet to yield, in the order in
/// which successive calls of `read_event_into` return them, through the
/// first that is the end of input or an error. The run is finite: the input
/// is, and every event before its end uses up some of it.
pub uninterp spec fn reader_events(reader: Reader<&[u8]>) -> Seq<XmlEventView>;

/// The events that a whitespace-trimming `quick_xml` reader yields for a
/// text, through the first that is the end of input or an error.
pub uninterp spec fn xml_events(text: Seq<char>) -> Seq<XmlEventView>;

/// `Reader::from_str`, followed by `Reader::trim_text(true)`, which has the
/// reader drop the whitespace around character data. Claimed: the new reader
/// has all the events of the text before it.
#[verifier::external_body]
fn open_reader(xml: &str) -> (reader: Reader<&[u8]>)
    ensures
        reader_events(reader) == xml_events(xml@),
{
    let mut reader = Reader::from_str(xml);
    reader.trim_text(true);
    reader
}

/// `Reader::read_event_into`, with the element name of an opening tag taken
/// by `BytesStart::name` and character data by `BytesText::unescape`; a
/// closing and a self-closing tag are told apart, without their names.
/// Claimed: a reader always has a next event (at the end of its input that
/// is `Eof`); the call returns it; and unless it is the end of input or an
/// error, what was to follow it is what the reader has yet to yield. What
/// `buf` holds before the call has no part in this, and nothing is said of
/// what it holds after.
#[verifier::external_body]
fn read_event(reader: &mut Reader<&[u8]>, buf: &mut Vec<u8>) -> (event: XmlEvent)
    ensures
        reader_events(*old(reader)).len() > 0,
        event@ == reader_events(*old(reader))[0],
        !event@.is_terminal() ==> reader_events(*final(reader)) == reader_events(*old(reader)).skip(1),
{
    match reader.read_event_into(buf) {
        Ok(Event::Start(e)) => XmlEvent::Start(String::from_utf8_lossy(e.name().as_ref()).to_string()),
        Ok(Event::End(_)) => XmlEvent::End,
        Ok(Event::Empty(_)) => XmlEvent::Empty,
        Ok(Event::Text(e)) => XmlEvent::Text(e.unescape().unwrap_or_default().to_string()),
        Ok(Event::Eof) => XmlEvent::Eof,
        Ok(_) => XmlEvent::Other,
        Err(_) => XmlEvent::Malformed,
    }
}

/// A prefix that ends at the first terminal event is the stream through it.
proof fn lemma_through_terminal(events: Seq<XmlEventView>, k: int)
    requires
        0 < k <= events.len(),
        events[k - 1].is_terminal(),
        forall|i: int| 0 <= i < k - 1 ==> !events[i].is_terminal(),
    ensures
        through_terminal(events) == events.take(k),
    decreases k,
{
    if events[0].is_terminal() {
        assert(k == 1);
        assert(events.take(1) =~= seq![events[0]]);
    } else {
        let rest = events.skip(1);
        assert forall|i: int| 0 <= i < k - 2 implies !rest[i].is_terminal() by {
            assert(rest[i] == events[i + 1]);
        }
        lemma_through_terminal(rest, k - 1);
        assert(events.take(k) =~= seq![events[0]] + rest.take(k - 1));
    }
}

/// Reads a manifest to its end, or to the first error.
pub fn read_events(xml: &str) -> (events: Vec<XmlEvent>)
    ensures
        event_views(events@) == through_terminal(xml_events(xml@)),
        events.len() > 0,
        event_views(events@).last().is_terminal(),
{
    let mut reader = open_reader(xml);
    let mut buf: Vec<u8> = Vec::new();
    let mut events: Vec<XmlEvent> = Vec::new();
    let mut done = false;
    let ghost all = xml_events(xml@);
    while !done
        invariant
            all == xml_events(xml@),
            events.len() <= all.len(),
            event_views(events@) =~= all.take(events.len() as int),
            forall|i: int| 0 <= i < events.len() - 1 ==> !all[i].is_terminal(),
            !done ==> reader_events(reader) == all.skip(events.len() as int),
            !done ==> (forall|i: int| 0 <= i < events.len() ==> !all[i].is_terminal()),
            done ==> events.len() > 0 && all[events.len() - 1].is_terminal(),
        decreases
            if done { 0 } else { 1 + reader_events(reader).len() },
    {
        let ghost before = reader_events(reader);
        let event = read_event(&mut reader, &mut buf);
        proof {
            assert(before[0] == all[events.len() as int]);
            assert(before.skip(1) =~= all.skip(events.len() + 1));
        }
        done = match event {
            XmlEvent::Eof => true,
            XmlEvent::Malformed => true,
            _ => false,
        };
        events.push(event);
    }
    proof {
        lemma_through_terminal(all, events.len() as int);
    }
    events
}

/// What stands before position `j` decides which elements are open there.
pub proof fn lemma_open_elements_prefix(events: Seq<XmlEventView>, k: int, j: int)
    requires
        0 <= j <= k <= events.len(),
    ensures
        open_elements(events.take(k), j) == open_elements(events, j),
    decreases j,
{
    if j > 0 {
        lemma_open_elements_prefix(events, k, j - 1);
    }
}

/// The character data of the element `tag` among `events`, if it has any.
pub fn text_of(events: &Vec<XmlEvent>, tag: &str) -> (text: Option<String>)
    ensures
        text is Some <==> element_text(event_views(events@), tag@) is Some,
        text is Some ==> text->0@ == element_text(event_views(events@), tag@)->0,
{
    let ghost all = event_views(events@);
    // For each open element, outermost first, whether it is a `tag`.
    let mut open: Vec<bool> = Vec::new();
    let mut found: Option<usize> = None;
    let mut i: usize = 0;
    assert(all.take(0).len() == 0);
    while i < events.len()
        invariant
            i <= events.len(),
            all == event_views(events@),
            open@.len() == open_elements(all, i as int).len(),
            forall|k: int|
                0 <= k < open@.len() ==> open@[k] == (open_elements(all, i as int)[k] == tag@),
            found is Some <==> element_text(all.take(i as int), tag@) is Some,
            found is Some ==> found->0 < i && (all[found->0 as int] matches XmlEventView::Text(t)
                && element_text(all.take(i as int), tag@) == Some(t)),
        decreases events.len() - i,
    {
        proof {
            lemma_text_by_prefix(all, tag@, i + 1);
        }
        match &events[i] {
            XmlEvent::Start(name) => {
                open.push(same_text(name.as_str(), tag));
            },
            XmlEvent::End => {
                open.pop();
            },
            XmlEvent::Text(_) => {
                if open.len() > 0 && open[open.len() - 1] {
                    found = Some(i);
                }
            },
            _ => {},
        }
        i += 1;
    }
    assert(all.take(events.len() as int) =~= all);
    match found {
        Some(at) => match &events[at] {
            XmlEvent::Text(text) => Some(text.clone()),
            _ => None,
        },
        None => None,
    }
}

/// How the text of an element grows with the events: the text among the
/// first `k` events is that among the first `k - 1`, unless the last of
/// them is text directly inside the element.
pub proof fn lemma_text_by_prefix(events: Seq<XmlEventView>, tag: Seq<char>, k: int)
    requires
        0 <= k <= events.len(),
    ensures
        k == 0 ==> element_text(events.take(k), tag) is None,
        k > 0 ==> element_text(events.take(k), tag) == match events[k - 1] {
            XmlEventView::Text(text) if enclosing(events, k - 1) == Some(tag) => Some(text),
            _ => element_text(events.take(k - 1), tag),
        },
{
    if k > 0 {
        let prefix = events.take(k);
        assert(prefix.drop_last() =~= events.take(k - 1));
        assert(prefix.last() == events[k - 1]);
        lemma_open_elements_prefix(events, k, k - 1);
    }
}

} // verus!
