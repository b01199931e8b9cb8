//! The shared meeting snapshot for one bridge session: whether the user is in
//! a meeting and whether video is active. Deduplication of notifications
//! happens here, not in the decoder.

use vstd::prelude::*;

verus! {

/// The last known meeting snapshot decoded from the feed.
#[derive(Clone, Copy, PartialEq, Eq, Structural, Debug)]
pub struct TeamsStates {
    pub is_in_meeting: bool,
    pub is_video_on: bool,
}

/// The snapshot that an update with the given pair leaves behind.
pub open spec fn updated(prior: TeamsStates, new_in_meeting: bool, new_video_on: bool) -> TeamsStates {
    TeamsStates { is_in_meeting: new_in_meeting, is_video_on: new_video_on }
}

/// Whether an update with the given pair differs from the stored snapshot in
/// at least one field, each field compared against its own previous value.
pub open spec fn update_changed(prior: TeamsStates, new_in_meeting: bool, new_video_on: bool) -> bool {
    prior.is_in_meeting != new_in_meeting || prior.is_video_on != new_video_on
}

impl TeamsStates {
    /// A fresh snapshot: not in a meeting, video off. Every new session
    /// starts from this state.
    pub fn new() -> (s: TeamsStates)
        ensures
            s == (TeamsStates { is_in_meeting: false, is_video_on: false }),
    {
        TeamsStates { is_in_meeting: false, is_video_on: false }
    }

    /// Replaces both flags with the decoded pair and reports whether either
    /// field's value differed from its prior value. This is the sole
    /// predicate deciding whether the remote notifier is invoked.
    pub fn update(&mut self, new_in_meeting: bool, new_video_on: bool) -> (changed: bool)
        ensures
            *final(self) == updated(*old(self), new_in_meeting, new_video_on),
            changed == update_changed(*old(self), new_in_meeting, new_video_on),
    {
        let changed = self.is_in_meeting != new_in_meeting || self.is_video_on != new_video_on;
        self.is_in_meeting = new_in_meeting;
        self.is_video_on = new_video_on;
        changed
    }
}

/// Law: an update that repeats the pair just stored reports no change, so a
/// repeated identical frame triggers no second notification.
pub proof fn lemma_repeated_update_reports_no_change(
    prior: TeamsStates,
    in_meeting: bool,
    video_on: bool,
)
    ensures
        !update_changed(updated(prior, in_meeting, video_on), in_meeting, video_on),
{
}

/// Law: an update reports a change exactly when at least one incoming field
/// differs from its own stored value, so each differing pair is reported
/// exactly once.
pub proof fn lemma_update_changed_iff_some_field_differs(
    prior: TeamsStates,
    in_meeting: bool,
    video_on: bool,
)
    ensures
        update_changed(prior, in_meeting, video_on) <==> (prior.is_in_meeting != in_meeting
            || prior.is_video_on != video_on),
{
}

} // verus!
