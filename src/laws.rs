use vstd::prelude::*;
use crate::catalog::DescriptorModel;
use crate::manager::closed_event;
use crate::registry::{after_close, after_open, is_open_step, lookup, OpenStep};
use crate::shortcuts::{after_register, register_result, Chord, ShortcutError};

verus! {

/// Two open-or-focus requests for `id` in a row leave exactly one live window for `id`
/// once the first has succeeded: the second request only focuses that window, creates
/// nothing, and no identifier other than `id` was added.
pub proof fn lemma_open_twice_one_window(
    live: Map<Seq<char>, u64>,
    ws: Seq<DescriptorModel>,
    id: Seq<char>,
    h: u64,
    second: OpenStep,
    later: Option<u64>,
)
    requires
        is_open_step(after_open(live, id, Some(h)), ws, id, second),
    ensures
        after_open(live, id, Some(h)).contains_key(id),
        second is Focus,
        after_open(after_open(live, id, Some(h)), id, later) == after_open(live, id, Some(h)),
        after_open(live, id, Some(h)).dom() == live.dom().insert(id),
{
    assert(after_open(live, id, Some(h)).dom() =~= live.dom().insert(id));
}

/// Once the window `id` has been closed, the next open-or-focus request for `id` creates
/// a new window instead of reaching for the old handle.
pub proof fn lemma_close_then_open_creates(
    live: Map<Seq<char>, u64>,
    ws: Seq<DescriptorModel>,
    id: Seq<char>,
    next: OpenStep,
)
    requires
        live.contains_key(id),
        is_open_step(after_close(live, id, true), ws, id, next),
    ensures
        lookup(after_close(live, id, true), id) is None,
        next is Create,
{
}

/// Registering a chord twice: the second registration fails with `DuplicateChord`, and
/// the first binding stays in place and resolvable.
pub proof fn lemma_register_twice(
    bound: Map<Chord, Seq<char>>,
    chord: Chord,
    first: Seq<char>,
    second: Seq<char>,
)
    requires
        !bound.contains_key(chord),
    ensures
        register_result(bound, chord) is Ok,
        register_result(after_register(bound, chord, first), chord) == Err::<(), ShortcutError>(
            ShortcutError::DuplicateChord,
        ),
        after_register(after_register(bound, chord, first), chord, second) == after_register(
            bound,
            chord,
            first,
        ),
        after_register(after_register(bound, chord, first), chord, second)[chord] == first,
{
}

/// After a window is reported destroyed, it is no longer live, and the queue of events
/// holds exactly one more `window-closed` event for it than before.
pub proof fn lemma_destroyed_publishes_once(
    live: Map<Seq<char>, u64>,
    events: Seq<(Seq<char>, Seq<char>)>,
    id: Seq<char>,
)
    ensures
        !live.remove(id).contains_key(id),
        events.push(closed_event(id)).filter(|e: (Seq<char>, Seq<char>)| e == closed_event(id)).len()
            == events.filter(|e: (Seq<char>, Seq<char>)| e == closed_event(id)).len() + 1,
{
    let s = events.push(closed_event(id));
    assert(s.drop_last() =~= events);
    reveal_with_fuel(Seq::filter, 1);
}

} // verus!
