//! Events in the form that the analytics collector takes them: `posthog_rs`
//! events.
//!
//! The facade plans an event as a name, an identifier and a payload. This
//! module builds the `posthog_rs::Event` that carries them. The event is an
//! outside type, so what it holds is named here ([`event_name`],
//! [`event_distinct_id`], [`event_properties`]), and what the two calls into
//! `posthog_rs` do to it is assumed, not proved.

use crate::error::{Collector, TelemetryError};
use crate::json::{entries_of, json_of, object_into_entries, Json};
use crate::telemetry::EventMessage;
use vstd::prelude::*;

verus! {

/// `posthog_rs::Event`, opaque to the verifier.
#[verifier::external_type_specification]
#[verifier::external_body]
pub struct ExEvent(posthog_rs::Event);

/// `posthog_rs::Error`, opaque to the verifier.
#[verifier::external_type_specification]
#[verifier::external_body]
pub struct ExEventError(posthog_rs::Error);

/// The name of a `posthog_rs::Event`.
pub uninterp spec fn event_name(event: posthog_rs::Event) -> Seq<char>;

/// The identifier that a `posthog_rs::Event` is attributed to.
pub uninterp spec fn event_distinct_id(event: posthog_rs::Event) -> Seq<char>;

/// The properties that a `posthog_rs::Event` holds, each value by its model.
pub uninterp spec fn event_properties(event: posthog_rs::Event) -> Map<Seq<char>, Json>;

/// `posthog_rs::Event::new`.
///
/// Assumed: the event has the name and the identifier given, and no property.
/// (It also gets a random identifier of its own and no timestamp, of which
/// nothing is said here.)
#[verifier::external_body]
fn event_new(name: &str, distinct_id: &str) -> (event: posthog_rs::Event)
    ensures
        event_name(event) == name@,
        event_distinct_id(event) == distinct_id@,
        event_properties(event) =~= Map::empty(),
{
    posthog_rs::Event::new(name, distinct_id)
}

/// What a `posthog_rs::Error` says: the text that its `to_string` gives.
pub uninterp spec fn event_error_message(error: posthog_rs::Error) -> Seq<char>;

/// `posthog_rs::Event::insert_prop`, with a `serde_json::Value` as the
/// property.
///
/// Assumed: the call succeeds. It fails only where `serde_json::to_value` fails
/// on the property, and on a `serde_json::Value` that call has no way to fail:
/// it gives the value back as it is. The call leaves the name and the
/// identifier alone; afterwards the key maps to the given value and every
/// other property is as it was.
#[verifier::external_body]
fn event_insert_prop(event: &mut posthog_rs::Event, key: String, value: serde_json::Value) -> (outcome:
    Result<(), posthog_rs::Error>)
    ensures
        outcome is Ok,
        event_name(*final(event)) == event_name(*old(event)),
        event_distinct_id(*final(event)) == event_distinct_id(*old(event)),
        event_properties(*final(event)) == event_properties(*old(event)).insert(
            key@,
            json_of(value),
        ),
{
    event.insert_prop(key, value)
}

/// The text of a `posthog_rs::Error`, by its `to_string`.
///
/// Assumed: the text depends on the error alone, which is what gives
/// [`event_error_message`] its meaning.
#[verifier::external_body]
fn event_error_text(error: &posthog_rs::Error) -> (text: String)
    ensures
        text@ == event_error_message(*error),
{
    error.to_string()
}

/// What an answer of `posthog_rs` comes to for the caller: success, or a send
/// failure of the analytics collector that carries what `posthog_rs` said.
pub fn property_outcome(outcome: Result<(), posthog_rs::Error>) -> (result: Result<
    (),
    TelemetryError,
>)
    ensures
        outcome is Ok ==> result is Ok,
        outcome matches Err(error) ==> (result matches Err(
            TelemetryError::SendError(collector, reason),
        ) && collector == Collector::Analytics && reason@ == event_error_message(error)),
{
    match outcome {
        Ok(_) => Ok(()),
        Err(error) => Err(
            TelemetryError::SendError(Collector::Analytics, event_error_text(&error)),
        ),
    }
}

impl EventMessage {
    /// The event as the analytics collector takes it: a `posthog_rs::Event`
    /// with the name, the identifier and the properties of this message.
    ///
    /// The event is built property by property, and it is always built: the
    /// properties are JSON values already, which `posthog_rs` has no reason to
    /// refuse. The result is a `Result` because the call that sets a property
    /// gives one.
    pub fn into_analytics_event(self) -> (outcome: Result<posthog_rs::Event, TelemetryError>)
        ensures
            outcome is Ok,
            outcome matches Ok(event) ==> {
                &&& event_name(event) == self.name@
                &&& event_distinct_id(event) == self.distinct_id@
                &&& event_properties(event) == entries_of(self.payload)
            },
    {
        let ghost entries = entries_of(self.payload);
        let mut event = event_new(self.name.as_str(), self.distinct_id.as_str());
        let pairs = object_into_entries(self.payload);
        for pair in iter: pairs
            invariant
                iter.seq() == pairs@,
                entries == entries_of(self.payload),
                event_name(event) == self.name@,
                event_distinct_id(event) == self.distinct_id@,
                forall|i: int, j: int|
                    0 <= i < j < pairs@.len() ==> (#[trigger] pairs@[i]).0@ != (
                    #[trigger] pairs@[j]).0@,
                forall|i: int|
                    0 <= i < pairs@.len() ==> entries.contains_key((#[trigger] pairs@[i]).0@),
                forall|i: int|
                    0 <= i < iter.index() ==> event_properties(event).contains_key(
                        (#[trigger] pairs@[i]).0@,
                    ) && event_properties(event)[pairs@[i].0@] == json_of(pairs@[i].1),
                forall|key: Seq<char>| #[trigger]
                    event_properties(event).contains_key(key) ==> exists|i: int|
                        0 <= i < iter.index() && (#[trigger] pairs@[i]).0@ == key,
        {
            let ghost before = event_properties(event);
            let ghost at = iter.index();
            let (key, value) = pair;
            match property_outcome(event_insert_prop(&mut event, key, value)) {
                Ok(_) => {},
                Err(error) => {
                    return Err(error);
                },
            }
            assert forall|known: Seq<char>| #[trigger]
                event_properties(event).contains_key(known) implies exists|i: int|
                0 <= i < at + 1 && (#[trigger] pairs@[i]).0@ == known by {
                if known == pairs@[at].0@ {
                } else {
                    assert(before.contains_key(known));
                }
            }
        }
        assert(event_properties(event) =~= entries);
        Ok(event)
    }
}

} // verus!
