//! Laws of the model of a session: what holds of every listing of panes,
//! and of the sequence numbers of the updates along every run.

use crate::events::{candidate, listed_panes, pane_fold, pane_fold_step, PaneFold};
use crate::events::panes_kept;
use crate::lines::pane_line;
use crate::model::StateUpdateView;
use crate::pane::PaneView;
use crate::parser::EventView;
use crate::snapshot::{tmux_state, touches_most, update_step};
use crate::events::event_step;
use crate::state::{lemma_pane_position, pane_position, AggView};
use vstd::prelude::*;

verus! {

/// The identifiers that the lines of a listing of panes list, in order.
pub open spec fn listed_ids(lines: Seq<Seq<char>>) -> Seq<Seq<char>> {
    pane_fold(
        PaneFold { panes: Seq::empty(), seen: Seq::empty(), refresh: Seq::empty() },
        lines,
        0,
    ).seen
}

/// Whether every line of `lines` that describes a pane tells its window.
pub open spec fn windows_told(lines: Seq<Seq<char>>) -> bool {
    forall|k: int|
        0 <= k < lines.len() && candidate(#[trigger] lines[k], '%') && pane_line(lines[k]).is_some()
            ==> pane_line(lines[k]).unwrap().window_id.len() > 0
}

/// Whether `id` is the identifier of one of `panes`, and of one that
/// belongs to a window where `told` holds.
pub open spec fn present(panes: Seq<PaneView>, id: Seq<char>, told: bool) -> bool {
    exists|i: int|
        0 <= i < panes.len() && (#[trigger] panes[i]).id == id && (told
            ==> panes[i].window_id.len() > 0)
}

/// Whether each identifier in `seen` is [`present`] in `panes`.
pub open spec fn all_present(panes: Seq<PaneView>, seen: Seq<Seq<char>>, told: bool) -> bool {
    forall|k: int| 0 <= k < seen.len() ==> present(panes, #[trigger] seen[k], told)
}

proof fn lemma_fold_keeps_present(acc: PaneFold, lines: Seq<Seq<char>>, k: int, told: bool)
    requires
        0 <= k <= lines.len(),
        all_present(acc.panes, acc.seen, told),
        told ==> windows_told(lines),
    ensures
        all_present(pane_fold(acc, lines, k).panes, pane_fold(acc, lines, k).seen, told),
    decreases lines.len() - k,
{
    if k < lines.len() {
        let line = lines[k];
        let next = pane_fold_step(acc, line);
        if candidate(line, '%') && pane_line(line).is_some() {
            let l = pane_line(line).unwrap();
            let i = pane_position(acc.panes, l.id, 0);
            lemma_pane_position(acc.panes, l.id, 0);
            let at = if i < acc.panes.len() {
                i
            } else {
                acc.panes.len() as int
            };
            assert(next.panes[at].id == l.id);
            assert(told ==> next.panes[at].window_id.len() > 0);
            assert forall|j: int| 0 <= j < next.seen.len() implies present(
                next.panes,
                #[trigger] next.seen[j],
                told,
            ) by {
                if j < acc.seen.len() && acc.seen[j] != l.id {
                    assert(present(acc.panes, acc.seen[j], told));
                    let m = choose|m: int|
                        0 <= m < acc.panes.len() && (#[trigger] acc.panes[m]).id == acc.seen[j] && (
                        told ==> acc.panes[m].window_id.len() > 0);
                    assert(m != at);
                    assert(next.panes[m] == acc.panes[m]);
                } else {
                    assert(next.seen[j] == l.id);
                    assert(next.panes[at].id == next.seen[j]);
                }
            }
        }
        lemma_fold_keeps_present(next, lines, k + 1, told);
    }
}

proof fn lemma_fold_seen(acc: PaneFold, other: PaneFold, lines: Seq<Seq<char>>, k: int)
    requires
        0 <= k <= lines.len(),
        acc.seen == other.seen,
    ensures
        pane_fold(acc, lines, k).seen == pane_fold(other, lines, k).seen,
    decreases lines.len() - k,
{
    if k < lines.len() {
        lemma_fold_seen(pane_fold_step(acc, lines[k]), pane_fold_step(other, lines[k]), lines, k + 1);
    }
}

proof fn lemma_panes_kept(panes: Seq<PaneView>, seen: Seq<Seq<char>>, k: int)
    requires
        0 <= k <= panes.len(),
    ensures
        forall|i: int|
            0 <= i < panes_kept(panes, seen, k).len() ==> seen.contains(
                (#[trigger] panes_kept(panes, seen, k)[i]).id,
            ) || panes_kept(panes, seen, k)[i].window_id.len() == 0,
        forall|j: int|
            k <= j < panes.len() && seen.contains((#[trigger] panes[j]).id) ==> exists|i: int|
                0 <= i < panes_kept(panes, seen, k).len() && #[trigger] panes_kept(panes, seen, k)[i]
                    == panes[j],
    decreases panes.len() - k,
{
    if k < panes.len() {
        lemma_panes_kept(panes, seen, k + 1);
        let rest = panes_kept(panes, seen, k + 1);
        let all = panes_kept(panes, seen, k);
        if seen.contains(panes[k].id) || panes[k].window_id.len() == 0 {
            assert(all =~= seq![panes[k]] + rest);
            assert forall|j: int|
                k <= j < panes.len() && seen.contains((#[trigger] panes[j]).id) implies exists|
                i: int,
            | 0 <= i < all.len() && #[trigger] all[i] == panes[j] by {
                if j == k {
                    assert(all[0] == panes[j]);
                } else {
                    let i = choose|i: int| 0 <= i < rest.len() && #[trigger] rest[i] == panes[j];
                    assert(all[i + 1] == panes[j]);
                }
            }
        }
    }
}

/// After a listing of panes in which at least one line describes a pane,
/// the panes that belong to a window are those listed: every pane that
/// belongs to a window is listed, and every pane listed is there, belonging
/// to a window where the lines tell the windows. What was known of the panes
/// before the listing plays no part, so this holds of a second listing as of
/// a first.
pub proof fn lemma_listing_replaces_panes(panes: Seq<PaneView>, lines: Seq<Seq<char>>)
    requires
        listed_ids(lines).len() > 0,
    ensures
        forall|i: int|
            0 <= i < listed_panes(panes, lines).len() && (#[trigger] listed_panes(
                panes,
                lines,
            )[i]).window_id.len() > 0 ==> listed_ids(lines).contains(
                listed_panes(panes, lines)[i].id,
            ),
        all_present(listed_panes(panes, lines), listed_ids(lines), windows_told(lines)),
{
    let start = PaneFold { panes, seen: Seq::empty(), refresh: Seq::empty() };
    let blank = PaneFold { panes: Seq::empty(), seen: Seq::empty(), refresh: Seq::empty() };
    let folded = pane_fold(start, lines, 0);
    let seen = listed_ids(lines);
    let told = windows_told(lines);
    lemma_fold_seen(start, blank, lines, 0);
    lemma_fold_keeps_present(start, lines, 0, told);
    lemma_panes_kept(folded.panes, seen, 0);
    let after = listed_panes(panes, lines);
    assert forall|k: int| 0 <= k < seen.len() implies present(after, #[trigger] seen[k], told) by {
        assert(present(folded.panes, seen[k], told));
        let j = choose|j: int|
            0 <= j < folded.panes.len() && (#[trigger] folded.panes[j]).id == seen[k] && (told
                ==> folded.panes[j].window_id.len() > 0);
        assert(seen.contains(folded.panes[j].id));
        let i = choose|i: int| 0 <= i < after.len() && #[trigger] after[i] == folded.panes[j];
        assert(after[i].id == seen[k]);
    }
}


/// One step in the life of a model: an event arrives from tmux, or an
/// update for the clients is asked for.
pub enum Step {
    Event { event: EventView },
    Update,
}

/// The model after one step.
pub open spec fn step(st: AggView, s: Step) -> AggView {
    match s {
        Step::Event { event } => event_step(st, event).0,
        Step::Update => update_step(st).0,
    }
}

/// What one step sends to the clients.
pub open spec fn sent(st: AggView, s: Step) -> Option<StateUpdateView> {
    match s {
        Step::Event { event } => None,
        Step::Update => update_step(st).1,
    }
}

/// The model after the first `k` of `steps`.
pub open spec fn after(st: AggView, steps: Seq<Step>, k: int) -> AggView
    decreases k,
{
    if k <= 0 || k > steps.len() {
        st
    } else {
        step(after(st, steps, k - 1), steps[k - 1])
    }
}

/// An event changes neither the sequence number nor the snapshot that
/// deltas are taken against.
pub proof fn lemma_event_keeps_sequence(st: AggView, event: EventView)
    ensures
        event_step(st, event).0.seq == st.seq,
        event_step(st, event).0.prev == st.prev,
{
}

proof fn lemma_after(st: AggView, steps: Seq<Step>, k: int)
    requires
        0 <= k <= steps.len(),
        st.prev.is_none() ==> st.seq == 0,
        st.seq + steps.len() <= u64::MAX,
    ensures
        after(st, steps, k).prev.is_none() ==> after(st, steps, k).seq == 0,
        st.seq <= after(st, steps, k).seq <= st.seq + k,
        k < steps.len() ==> after(st, steps, k).seq <= after(st, steps, k + 1).seq,
        k < steps.len() && sent(after(st, steps, k), steps[k]).is_some() ==> after(
            st,
            steps,
            k + 1,
        ).seq == after(st, steps, k).seq + 1,
    decreases k,
{
    if k > 0 {
        lemma_after(st, steps, k - 1);
    }
    if k < steps.len() {
        let at = after(st, steps, k);
        match steps[k] {
            Step::Event { event } => {
                lemma_event_keeps_sequence(at, event);
            },
            Step::Update => {},
        }
    }
}

proof fn lemma_sequence_rises(st: AggView, steps: Seq<Step>, i: int, j: int)
    requires
        0 <= i <= j <= steps.len(),
        st.prev.is_none() ==> st.seq == 0,
        st.seq + steps.len() <= u64::MAX,
    ensures
        after(st, steps, i).seq <= after(st, steps, j).seq,
    decreases j - i,
{
    if i < j {
        lemma_sequence_rises(st, steps, i, j - 1);
        lemma_after(st, steps, j - 1);
    }
}

/// Along every run of a model that starts before its first update or after
/// one, the sequence number after an update that is sent is higher than
/// after every update sent before. A delta that is sent carries that number,
/// is not empty, and touches half of the panes at most: where more have
/// changed, the update is a full snapshot.
pub proof fn lemma_sequence_grows(st: AggView, steps: Seq<Step>, i: int, j: int)
    requires
        0 <= i < j < steps.len(),
        st.prev.is_none() ==> st.seq == 0,
        st.seq + steps.len() <= u64::MAX,
        sent(after(st, steps, i), steps[i]).is_some(),
        sent(after(st, steps, j), steps[j]).is_some(),
    ensures
        after(st, steps, i + 1).seq < after(st, steps, j + 1).seq,
        match sent(after(st, steps, j), steps[j]) {
            Some(StateUpdateView::Delta { delta }) => delta.seq == after(st, steps, j + 1).seq
                && !delta.is_empty() && !touches_most(delta, tmux_state(after(st, steps, j))),
            _ => true,
        },
{
    lemma_sequence_rises(st, steps, i + 1, j);
    lemma_after(st, steps, j);
}

} // verus!
