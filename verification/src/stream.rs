//! The live stream of a template's events to a web page: for each entry the
//! event store hands over, whether to send an event, skip the entry, or end
//! the stream with an error.

use vstd::prelude::*;
use vstd::string::*;
use crate::event::TemplateEvent;
use horfimbor_eventsource::metadata::Metadata;

verus! {

/// Whether the metadata written with a stored entry marks it as an event
/// (rather than a command), as horfimbor's `Metadata` reads it from JSON;
/// `None` when the bytes are not such metadata.
pub uninterp spec fn metadata_is_event(bytes: Seq<u8>) -> Option<bool>;

/// `serde_json::from_slice::<horfimbor_eventsource::metadata::Metadata>`,
/// handed back as its `is_event()` flag, or `None` when the bytes do not
/// parse; that is `metadata_is_event` of the bytes.
#[verifier::external_body]
fn parse_metadata(bytes: &[u8]) -> (r: Option<bool>)
    ensures
        r == metadata_is_event(bytes@),
{
    serde_json::from_slice::<Metadata>(bytes).ok().map(|m| m.is_event())
}

/// What to do with one entry of the stream.
pub enum StreamStep {
    /// Send this event to the page.
    Send(TemplateEvent),
    /// The entry is not an event: go on with the next one.
    Skip,
    /// Send this error to the page and end the stream.
    Stop(String),
}

/// The abstract step: the event to send, nothing to send, or the error.
pub enum StreamStepView {
    Send(TemplateEvent),
    Skip,
    Stop(Seq<char>),
}

impl View for StreamStep {
    type V = StreamStepView;

    open spec fn view(&self) -> StreamStepView {
        match self {
            StreamStep::Send(e) => StreamStepView::Send(*e),
            StreamStep::Skip => StreamStepView::Skip,
            StreamStep::Stop(m) => StreamStepView::Stop(m@),
        }
    }
}

/// The step for an entry: `metadata` is the metadata of the entry received,
/// `None` when receiving failed; `event` is the entry's data read as an
/// event, `None` when it does not read as one.
pub open spec fn step_for(metadata: Option<Seq<u8>>, event: Option<TemplateEvent>) -> StreamStepView {
    match metadata {
        None => StreamStepView::Stop("cannot get event"@),
        Some(bytes) => match metadata_is_event(bytes) {
            None => StreamStepView::Stop("cannot get metdata"@),
            Some(false) => StreamStepView::Skip,
            Some(true) => match event {
                Some(e) => StreamStepView::Send(e),
                None => StreamStepView::Stop("cannot get original event"@),
            },
        },
    }
}

/// Decides what to do with one entry of the stream.
pub fn stream_step(metadata: Option<&[u8]>, event: Option<TemplateEvent>) -> (s: StreamStep)
    ensures
        s@ == step_for(
            match metadata {
                Some(b) => Some(b@),
                None => None,
            },
            event,
        ),
{
    match metadata {
        None => StreamStep::Stop(String::from_str("cannot get event")),
        Some(bytes) => match parse_metadata(bytes) {
            None => StreamStep::Stop(String::from_str("cannot get metdata")),
            Some(false) => StreamStep::Skip,
            Some(true) => match event {
                Some(e) => StreamStep::Send(e),
                None => StreamStep::Stop(String::from_str("cannot get original event")),
            },
        },
    }
}

/// Whatever the stream receives, it ends exactly when an entry cannot be
/// received or read, and it sends only events the entry's data reads as.
pub proof fn law_stream_sends_or_stops(metadata: Option<Seq<u8>>, event: Option<TemplateEvent>)
    ensures
        step_for(metadata, event) matches StreamStepView::Send(e) ==> event == Some(e),
        step_for(metadata, event) is Stop <==> (metadata is None || metadata_is_event(
            metadata->0,
        ) is None || (metadata_is_event(metadata->0) == Some(true) && event is None)),
{
}


/// Every entry marked as an event whose data reads as an event `e` is sent
/// as `e`; an entry is skipped exactly when its metadata marks it as no
/// event; an entry that could not be received ends the stream.
pub proof fn law_stream_sends_every_event(metadata: Seq<u8>, event: Option<TemplateEvent>)
    ensures
        metadata_is_event(metadata) == Some(true) && event is Some ==> step_for(Some(metadata), event)
            == StreamStepView::Send(event->0),
        step_for(Some(metadata), event) is Skip <==> metadata_is_event(metadata) == Some(false),
        step_for(None, event) is Stop,
{
}

} // verus!
