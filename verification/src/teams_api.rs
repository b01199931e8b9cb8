//! Decoding of inbound feed frames and the per-frame decision of the bridge
//! session's inbound activity: decode, diff against the shared snapshot, and
//! say whether the remote store is owed a notification.

use vstd::prelude::*;

use crate::configuration::TeamsConfiguration;
use crate::teams_states::{update_changed, updated, TeamsStates};

verus! {

pub const JSON_MEETING_UPDATE: &'static str = "meetingUpdate";

pub const JSON_MEETING_STATE: &'static str = "meetingState";

pub const JSON_IS_IN_MEETING: &'static str = "isInMeeting";

pub const JSON_IS_VIDEO_ON: &'static str = "isVideoOn";

/// The query string appended to the configured feed address: fixed protocol
/// version, device identity and application identity.
pub const FEED_URL_QUERY: &'static str = "?protocol-version=2.0.0&manufacturer=HA-Integration&device=MyPC&app=teams-status-rs&app-version=1.0";

/// Whether the text parses to a document with the given top-level key.
/// Relied on below; a function of text and key alone.
pub uninterp spec fn json_has_key_spec(text: Seq<char>, key: Seq<char>) -> bool;

/// The boolean found three keys deep in the parsed document, if any. Relied
/// on below; a function of the text and the keys alone.
pub uninterp spec fn json_bool_at_spec(
    text: Seq<char>,
    key1: Seq<char>,
    key2: Seq<char>,
    key3: Seq<char>,
) -> Option<bool>;

/// Relies on json::parse and JsonValue::has_key: whether the text parses to
/// a document carrying the given top-level key; unparsable text carries
/// none.
#[verifier::external_body]
fn json_has_key(text: &str, key: &str) -> (r: bool)
    ensures
        r == json_has_key_spec(text@, key@),
{
    match json::parse(text) {
        Ok(doc) => doc.has_key(key),
        Err(_) => false,
    }
}

/// Relies on json::parse, JsonValue's str indexing (an absent key or a
/// non-object indexes to null) and JsonValue::as_bool (Some exactly for a
/// boolean): the boolean three keys deep, if the document holds one there.
#[verifier::external_body]
fn json_bool_at(text: &str, key1: &str, key2: &str, key3: &str) -> (r: Option<bool>)
    ensures
        r == json_bool_at_spec(text@, key1@, key2@, key3@),
{
    match json::parse(text) {
        Ok(doc) => doc[key1][key2][key3].as_bool(),
        Err(_) => None,
    }
}

/// What one inbound frame decodes to.
#[derive(Clone, Copy, PartialEq, Eq, Structural, Debug)]
pub enum DecodedEvent {
    /// No meeting-update section: the frame carries unrelated data, or the
    /// feed has not yet activated. Nothing happens.
    Ignored,
    /// A meeting-state pair; a flag that was absent or of the wrong type has
    /// been defaulted to false.
    Pair { in_meeting: bool, video_on: bool },
}

/// A flag extracted from the document, defaulted to false when absent or of
/// the wrong type.
pub open spec fn flag_or_false(flag: Option<bool>) -> bool {
    match flag {
        Some(b) => b,
        None => false,
    }
}

/// What the extracted fields decode to: no section is a no-op, and each
/// missing flag of a present section defaults to false.
pub open spec fn decoded_of(fields: Option<(Option<bool>, Option<bool>)>) -> DecodedEvent {
    match fields {
        None => DecodedEvent::Ignored,
        Some((in_meeting, video_on)) => DecodedEvent::Pair {
            in_meeting: flag_or_false(in_meeting),
            video_on: flag_or_false(video_on),
        },
    }
}

/// The raw fields of a frame: none without a meeting-update section, else
/// the two optional flags of its meeting state.
pub open spec fn meeting_fields_spec(text: Seq<char>) -> Option<(Option<bool>, Option<bool>)> {
    if json_has_key_spec(text, JSON_MEETING_UPDATE@) {
        Some(
            (
                json_bool_at_spec(
                    text,
                    JSON_MEETING_UPDATE@,
                    JSON_MEETING_STATE@,
                    JSON_IS_IN_MEETING@,
                ),
                json_bool_at_spec(
                    text,
                    JSON_MEETING_UPDATE@,
                    JSON_MEETING_STATE@,
                    JSON_IS_VIDEO_ON@,
                ),
            ),
        )
    } else {
        None
    }
}

/// Turns the extracted fields into the decoded event.
pub fn decode_event(fields: Option<(Option<bool>, Option<bool>)>) -> (event: DecodedEvent)
    ensures
        event == decoded_of(fields),
{
    match fields {
        None => DecodedEvent::Ignored,
        Some((in_meeting, video_on)) => DecodedEvent::Pair {
            in_meeting: match in_meeting {
                Some(b) => b,
                None => false,
            },
            video_on: match video_on {
                Some(b) => b,
                None => false,
            },
        },
    }
}

/// Decodes one raw frame. Malformed text never fails: it decodes as an
/// empty document and is ignored.
pub fn decode_message(json_text: &str) -> (event: DecodedEvent)
    ensures
        event == decoded_of(meeting_fields_spec(json_text@)),
{
    let fields = if json_has_key(json_text, JSON_MEETING_UPDATE) {
        Some(
            (
                json_bool_at(json_text, JSON_MEETING_UPDATE, JSON_MEETING_STATE, JSON_IS_IN_MEETING),
                json_bool_at(json_text, JSON_MEETING_UPDATE, JSON_MEETING_STATE, JSON_IS_VIDEO_ON),
            ),
        )
    } else {
        None
    };
    decode_event(fields)
}

/// The snapshot left behind by one frame.
pub open spec fn frame_outcome_state(prior: TeamsStates, event: DecodedEvent) -> TeamsStates {
    match event {
        DecodedEvent::Ignored => prior,
        DecodedEvent::Pair { in_meeting, video_on } => updated(prior, in_meeting, video_on),
    }
}

/// The notification one frame owes the remote store: the fresh snapshot,
/// exactly when the decoded pair changed it.
pub open spec fn frame_outcome_notify(prior: TeamsStates, event: DecodedEvent) -> Option<
    (bool, bool),
> {
    match event {
        DecodedEvent::Ignored => None,
        DecodedEvent::Pair { in_meeting, video_on } => if update_changed(
            prior,
            in_meeting,
            video_on,
        ) {
            Some((in_meeting, video_on))
        } else {
            None
        },
    }
}

/// One step of the inbound activity: decode the frame, update the shared
/// snapshot, and return the snapshot to notify the remote store with, if the
/// frame changed it.
pub fn parse_data(json_text: &str, teams_states: &mut TeamsStates) -> (notify: Option<(bool, bool)>)
    ensures
        *final(teams_states) == frame_outcome_state(
            *old(teams_states),
            decoded_of(meeting_fields_spec(json_text@)),
        ),
        notify == frame_outcome_notify(
            *old(teams_states),
            decoded_of(meeting_fields_spec(json_text@)),
        ),
{
    match decode_message(json_text) {
        DecodedEvent::Ignored => None,
        DecodedEvent::Pair { in_meeting, video_on } => {
            if teams_states.update(in_meeting, video_on) {
                Some((in_meeting, video_on))
            } else {
                None
            }
        },
    }
}

/// Law: a frame without a meeting-update section decodes to a no-op, so it
/// mutates no state and triggers no notification.
pub proof fn lemma_no_meeting_update_section_is_ignored(text: Seq<char>, prior: TeamsStates)
    requires
        !json_has_key_spec(text, JSON_MEETING_UPDATE@),
    ensures
        decoded_of(meeting_fields_spec(text)) == DecodedEvent::Ignored,
        frame_outcome_state(prior, decoded_of(meeting_fields_spec(text))) == prior,
        frame_outcome_notify(prior, decoded_of(meeting_fields_spec(text))) is None,
{
}

/// Law: when any frame arrives a second time in a row, the second arrival
/// owes the remote store no notification, whatever the frame holds.
pub proof fn lemma_repeated_frame_notifies_nothing(text: Seq<char>, prior: TeamsStates)
    ensures
        frame_outcome_notify(
            frame_outcome_state(prior, decoded_of(meeting_fields_spec(text))),
            decoded_of(meeting_fields_spec(text)),
        ) is None,
{
}

/// Law: a meeting-update section whose in-meeting flag is absent decodes
/// with that flag defaulted to false rather than failing the whole decode.
pub proof fn lemma_missing_in_meeting_flag_defaults_false(video_on: Option<bool>)
    ensures
        decoded_of(Some((None::<bool>, video_on))) == (DecodedEvent::Pair {
            in_meeting: false,
            video_on: flag_or_false(video_on),
        }),
{
}

/// One bridge session's handle on the feed: the shared snapshot it decodes
/// into, and the resolved feed address.
pub struct TeamsAPI {
    pub teams_states: TeamsStates,
    pub url: String,
}

impl TeamsAPI {
    /// A fresh session handle: snapshot reset, feed address resolved from
    /// the configured base and the fixed query parameters.
    pub fn new(conf: &TeamsConfiguration) -> (api: TeamsAPI)
        ensures
            api.teams_states == (TeamsStates { is_in_meeting: false, is_video_on: false }),
            api.url@ == conf.url@ + FEED_URL_QUERY@,
    {
        let teams_states = TeamsStates::new();
        let mut url = conf.url.clone();
        url.append(FEED_URL_QUERY);
        TeamsAPI { teams_states, url }
    }
}

} // verus!
