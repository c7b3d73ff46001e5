//! Delivered poller events and the debug texts diagnostics quote.

use vstd::prelude::*;

use crate::model_sequence::Key;
use crate::mutation_text::{key_debug, render_key};
use crate::observation::Observation;
use crate::readiness::{readiness_debug, render_readiness};
use crate::text::{decimal, push_decimal};

verus! {

/// One event delivered by a wait.
#[derive(Clone, Copy, Debug, Eq, PartialEq, Structural)]
pub enum DeliveredEvent {
    /// Readiness observed for a registered resource.
    Resource { key: Key, readiness: Observation },
    /// An explicit wake.
    Wake { key: Key },
}

/// The debug text of one event.
pub open spec fn event_debug(event: DeliveredEvent) -> Seq<char> {
    match event {
        DeliveredEvent::Resource { key, readiness } => "Resource { key: "@ + key_debug(key)
            + ", readiness: "@ + readiness_debug(readiness) + " }"@,
        DeliveredEvent::Wake { key } => "Wake { key: "@ + key_debug(key) + " }"@,
    }
}

/// Returns the debug text of one event.
pub fn render_event(event: DeliveredEvent) -> (text: String)
    ensures
        text@ == event_debug(event),
{
    match event {
        DeliveredEvent::Resource { key, readiness } => {
            let mut text = String::from_str("Resource { key: ");
            let key_text = render_key(key);
            text.append(key_text.as_str());
            text.append(", readiness: ");
            let readiness_text = render_readiness(readiness);
            text.append(readiness_text.as_str());
            text.append(" }");
            text
        },
        DeliveredEvent::Wake { key } => {
            let mut text = String::from_str("Wake { key: ");
            let key_text = render_key(key);
            text.append(key_text.as_str());
            text.append(" }");
            text
        },
    }
}

/// The texts of `items` separated by commas.
pub open spec fn comma_list(items: Seq<Seq<char>>) -> Seq<char>
    decreases items.len(),
{
    if items.len() == 0 {
        Seq::empty()
    } else if items.len() == 1 {
        items[0]
    } else {
        comma_list(items.drop_last()) + ", "@ + items.last()
    }
}

proof fn lemma_comma_push(items: Seq<Seq<char>>, item: Seq<char>)
    ensures
        comma_list(items.push(item)) == if items.len() == 0 {
            item
        } else {
            comma_list(items) + ", "@ + item
        },
{
    assert(items.push(item).drop_last() =~= items);
}

/// The debug text of an event batch: its events in brackets.
pub open spec fn events_debug(events: Seq<DeliveredEvent>) -> Seq<char> {
    "["@ + comma_list(events.map_values(|event: DeliveredEvent| event_debug(event))) + "]"@
}

/// Returns the debug text of an event batch.
pub fn render_events(events: &[DeliveredEvent]) -> (text: String)
    ensures
        text@ == events_debug(events@),
{
    let ghost texts = events@.map_values(|event: DeliveredEvent| event_debug(event));
    let mut inner = String::new();
    let mut i: usize = 0;
    while i < events.len()
        invariant
            i <= events@.len(),
            texts == events@.map_values(|event: DeliveredEvent| event_debug(event)),
            inner@ == comma_list(texts.take(i as int)),
        decreases events@.len() - i,
    {
        let piece = render_event(events[i]);
        proof {
            assert(texts.take(i as int + 1) =~= texts.take(i as int).push(texts[i as int]));
            lemma_comma_push(texts.take(i as int), texts[i as int]);
        }
        if i > 0 {
            inner.append(", ");
        }
        inner.append(piece.as_str());
        i = i + 1;
    }
    assert(texts.take(i as int) =~= texts);
    let mut text = String::from_str("[");
    text.append(inner.as_str());
    text.append("]");
    text
}

/// The debug text of a byte string: its values in brackets.
pub open spec fn bytes_debug(bytes: Seq<u8>) -> Seq<char> {
    "["@ + comma_list(bytes.map_values(|byte: u8| decimal(byte as nat))) + "]"@
}

/// Returns the debug text of a byte string.
pub fn render_bytes(bytes: &[u8]) -> (text: String)
    ensures
        text@ == bytes_debug(bytes@),
{
    let ghost texts = bytes@.map_values(|byte: u8| decimal(byte as nat));
    let mut text = String::from_str("[");
    let ghost head = text@;
    let mut i: usize = 0;
    while i < bytes.len()
        invariant
            i <= bytes@.len(),
            texts == bytes@.map_values(|byte: u8| decimal(byte as nat)),
            text@ == head + comma_list(texts.take(i as int)),
        decreases bytes@.len() - i,
    {
        proof {
            assert(texts.take(i as int + 1) =~= texts.take(i as int).push(texts[i as int]));
            lemma_comma_push(texts.take(i as int), texts[i as int]);
        }
        if i > 0 {
            text.append(", ");
        }
        push_decimal(&mut text, bytes[i] as u64);
        i = i + 1;
        assert(text@ =~= head + comma_list(texts.take(i as int)));
    }
    assert(texts.take(i as int) =~= texts);
    text.append("]");
    text
}

} // verus!
