use vstd::prelude::*;

use crate::session::{needs_refresh, next_state, outcome, Event, Guard, State};
use crate::settings::{next_filter_mode, FilterMode};

verus! {

/// On a non-empty list, a selection event that leaves the session open keeps
/// the selection on the list: between row 0 and the last row.
pub proof fn lemma_selection_stays_on_list(s: State, e: Event, t: State)
    requires
        s.wf(),
        s.history@.len() > 0,
        e is Selection,
        outcome(s, e) is None,
        next_state(s, t, e),
    ensures
        0 <= t.results_state.selected < t.history@.len(),
{
}

/// Cycling the filter mode four times comes back to where it started, and
/// passes through four distinct modes on the way.
pub proof fn lemma_cycle_filter_mode(m: FilterMode)
    ensures
        next_filter_mode(next_filter_mode(next_filter_mode(next_filter_mode(m)))) == m,
        m != next_filter_mode(m),
        m != next_filter_mode(next_filter_mode(m)),
        m != next_filter_mode(next_filter_mode(next_filter_mode(m))),
        next_filter_mode(m) != next_filter_mode(next_filter_mode(m)),
        next_filter_mode(m) != next_filter_mode(next_filter_mode(next_filter_mode(m))),
        next_filter_mode(next_filter_mode(m)) != next_filter_mode(
            next_filter_mode(next_filter_mode(m)),
        ),
{
}

/// A batch opened on `s` and carried through any number of events asks for
/// one refresh at its close exactly where the query text or the filter mode
/// now differs from that of `s`, and for none otherwise.
pub proof fn lemma_batch_refresh_iff_changed(s: State, g: Guard)
    requires
        g.initial_input() == s.input.text(),
        g.initial_filter_mode() == s.filter_mode,
    ensures
        needs_refresh(g.initial_input(), g.initial_filter_mode(), g.inner()) <==> (
        g.inner().input.text() != s.input.text() || g.inner().filter_mode != s.filter_mode),
{
}

} // verus!
