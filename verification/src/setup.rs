//! Calls that are made one after the other until one of them fails.

use vstd::prelude::*;

use crate::call::{Call, CallModel};
use crate::event::{Error, ErrorModel, EventModel};
use crate::raw::MpvEventId;

verus! {

/// How far an operation of several calls has come: the next call has to be made, or the outcome is
/// known.
pub enum Progress<T> {
    Ask(Call),
    Finished(Result<T, Error>),
}

/// What a `Progress` says.
pub enum ProgressModel<T> {
    Ask(CallModel),
    Finished(Result<T, ErrorModel>),
}

impl<T: View> View for Progress<T> {
    type V = ProgressModel<T::V>;

    open spec fn view(&self) -> ProgressModel<T::V> {
        match self {
            Progress::Ask(call) => ProgressModel::Ask(call@),
            Progress::Finished(result) => ProgressModel::Finished(
                match result {
                    Ok(value) => Ok(value@),
                    Err(error) => Err(error@),
                },
            ),
        }
    }
}

/// The position of the first call that was not answered with zero.
pub open spec fn first_failure(codes: Seq<i32>) -> Option<int>
    decreases codes.len(),
{
    if codes.len() == 0 {
        None
    } else {
        match first_failure(codes.drop_last()) {
            Some(i) => Some(i),
            None => if codes.last() != 0 {
                Some(codes.len() - 1)
            } else {
                None
            },
        }
    }
}

/// Finds the first call that was not answered with zero.
pub(crate) fn find_failure(codes: &Vec<i32>) -> (position: Option<usize>)
    ensures
        match position {
            Some(i) => i < codes@.len() && codes@[i as int] != 0 && first_failure(codes@) == Some(
                i as int,
            ),
            None => first_failure(codes@) is None,
        },
{
    for i in 0..codes.len()
        invariant
            first_failure(codes@.take(i as int)) is None,
    {
        assert(codes@.take(i + 1).drop_last() =~= codes@.take(i as int));
        if codes[i] != 0 {
            proof {
                lemma_first_failure_stays(codes@, i + 1);
            }
            return Some(i);
        }
    }
    assert(codes@.take(codes@.len() as int) =~= codes@);
    None
}

proof fn lemma_first_failure_stays(codes: Seq<i32>, i: int)
    requires
        0 <= i <= codes.len(),
        first_failure(codes.take(i)) is Some,
    ensures
        first_failure(codes) == first_failure(codes.take(i)),
    decreases codes.len(),
{
    if i == codes.len() {
        assert(codes.take(i) =~= codes);
    } else {
        assert(codes.drop_last().take(i) =~= codes.take(i));
        lemma_first_failure_stays(codes.drop_last(), i);
    }
}

/// The first failure is a failure, and everything before it went well; without one, all went well.
pub proof fn law_first_failure_is_the_first(codes: Seq<i32>)
    ensures
        first_failure(codes) matches Some(i) ==> {
            &&& 0 <= i < codes.len()
            &&& codes[i] != 0
            &&& forall|j: int| 0 <= j < i ==> #[trigger] codes[j] == 0
        },
        first_failure(codes) is None <==> forall|j: int|
            0 <= j < codes.len() ==> #[trigger] codes[j] == 0,
    decreases codes.len(),
{
    if codes.len() > 0 {
        let earlier = codes.drop_last();
        law_first_failure_is_the_first(earlier);
        assert forall|j: int| 0 <= j < earlier.len() implies #[trigger] codes[j] == earlier[j] by {}
        if first_failure(earlier) is Some {
            let i = first_failure(earlier).unwrap();
            assert(codes[i] == earlier[i]);
        } else {
            assert forall|j: int| 0 <= j < earlier.len() implies #[trigger] codes[j] == 0 by {
                assert(earlier[j] == 0);
            }
        }
        if forall|j: int| 0 <= j < codes.len() ==> #[trigger] codes[j] == 0 {
            assert(forall|j: int| 0 <= j < earlier.len() ==> #[trigger] earlier[j] == 0);
            assert(codes[codes.len() - 1] == 0);
        }
    }
}

/// The kinds of events that libmpv has deprecated. They are always disabled.
pub open spec fn deprecated_kinds() -> Seq<MpvEventId> {
    seq![
        MpvEventId::TracksChanged,
        MpvEventId::TrackSwitched,
        MpvEventId::Pause,
        MpvEventId::Unpause,
        MpvEventId::ScriptInputDispatch,
        MpvEventId::MetadataUpdate,
        MpvEventId::ChapterChange,
    ]
}

/// The other kinds of events that are fired unless they are disabled.
pub open spec fn remaining_kinds() -> Seq<MpvEventId> {
    seq![
        MpvEventId::LogMessage,
        MpvEventId::GetPropertyReply,
        MpvEventId::SetPropertyReply,
        MpvEventId::CommandReply,
        MpvEventId::StartFile,
        MpvEventId::EndFile,
        MpvEventId::FileLoaded,
        MpvEventId::Idle,
        MpvEventId::ClientMessage,
        MpvEventId::VideoReconfig,
        MpvEventId::AudioReconfig,
        MpvEventId::Seek,
        MpvEventId::PlaybackRestart,
        MpvEventId::PropertyChange,
        MpvEventId::QueueOverflow,
    ]
}

/// The calls that disable the events of `kinds`.
pub open spec fn disabling(kinds: Seq<MpvEventId>) -> Seq<CallModel> {
    kinds.map_values(|kind: MpvEventId| CallModel::RequestEvent { kind: kind, enable: false })
}

/// The calls that prepare the events of a new instance: the deprecated ones are disabled; then
/// libmpv is told whom to wake, or, where no events are wanted, the others are disabled too.
pub open spec fn setup_calls(check_events: bool) -> Seq<CallModel> {
    disabling(deprecated_kinds()) + if check_events {
        seq![CallModel::SetWakeupCallback]
    } else {
        disabling(remaining_kinds())
    }
}

fn disable(kind: MpvEventId) -> (call: Call)
    ensures
        call@ == (CallModel::RequestEvent { kind: kind, enable: false }),
{
    Call::RequestEvent { kind: kind, enable: false }
}

/// The call at position `i` of those that prepare the events of a new instance.
pub(crate) fn setup_call(check_events: bool, i: usize) -> (call: Option<Call>)
    ensures
        match call {
            Some(call) => i < setup_calls(check_events).len() && call@ == setup_calls(
                check_events,
            )[i as int],
            None => i >= setup_calls(check_events).len(),
        },
{
    match i {
        0 => Some(disable(MpvEventId::TracksChanged)),
        1 => Some(disable(MpvEventId::TrackSwitched)),
        2 => Some(disable(MpvEventId::Pause)),
        3 => Some(disable(MpvEventId::Unpause)),
        4 => Some(disable(MpvEventId::ScriptInputDispatch)),
        5 => Some(disable(MpvEventId::MetadataUpdate)),
        6 => Some(disable(MpvEventId::ChapterChange)),
        _ => if check_events {
            if i == 7 {
                Some(Call::SetWakeupCallback)
            } else {
                None
            }
        } else {
            match i {
                7 => Some(disable(MpvEventId::LogMessage)),
                8 => Some(disable(MpvEventId::GetPropertyReply)),
                9 => Some(disable(MpvEventId::SetPropertyReply)),
                10 => Some(disable(MpvEventId::CommandReply)),
                11 => Some(disable(MpvEventId::StartFile)),
                12 => Some(disable(MpvEventId::EndFile)),
                13 => Some(disable(MpvEventId::FileLoaded)),
                14 => Some(disable(MpvEventId::Idle)),
                15 => Some(disable(MpvEventId::ClientMessage)),
                16 => Some(disable(MpvEventId::VideoReconfig)),
                17 => Some(disable(MpvEventId::AudioReconfig)),
                18 => Some(disable(MpvEventId::Seek)),
                19 => Some(disable(MpvEventId::PlaybackRestart)),
                20 => Some(disable(MpvEventId::PropertyChange)),
                21 => Some(disable(MpvEventId::QueueOverflow)),
                _ => None,
            }
        },
    }
}

/// An instance with events leaves every event that can be observed as it is.
pub proof fn law_observable_events_stay_enabled(event: EventModel)
    ensures
        !setup_calls(true).contains(
            CallModel::RequestEvent { kind: event.id(), enable: false },
        ),
{
}

/// An instance without events disables every event that can be observed, except for the tick,
/// which libmpv does not fire unless it is enabled.
pub proof fn law_unwanted_events_are_disabled(event: EventModel)
    requires
        !(event is Tick),
    ensures
        setup_calls(false).contains(CallModel::RequestEvent { kind: event.id(), enable: false }),
{
    let calls = setup_calls(false);
    let i: int = match event {
        EventModel::LogMessage(_) => 7,
        EventModel::StartFile => 11,
        EventModel::EndFile(_) => 12,
        EventModel::FileLoaded => 13,
        EventModel::Idle => 14,
        EventModel::VideoReconfig => 16,
        EventModel::AudioReconfig => 17,
        EventModel::Seek => 18,
        EventModel::PlaybackRestart => 19,
        _ => 20,
    };
    assert(calls[i] == CallModel::RequestEvent { kind: event.id(), enable: false });
}

} // verus!
