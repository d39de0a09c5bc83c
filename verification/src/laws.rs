//! Laws of the session, proved over its views.

use vstd::prelude::*;
use crate::error::SessionError;
use crate::event::{refusal, run, step, EventView};
use crate::message::{log_wf, MessageView};
use crate::roster::picks;
use crate::session::{
    alias_added, alias_removed, alias_selected, initial_session, sent, session_wf, SessionView,
};
use crate::text::is_blank;

verus! {

/// Sending blank text, the empty text included, changes nothing in any
/// session: the log keeps its length and its messages.
pub proof fn lemma_blank_send_changes_nothing(v: SessionView, text: Seq<char>)
    requires
        is_blank(text),
    ensures
        sent(v, text) == v,
        sent(v, text).log.len() == v.log.len(),
{
}

/// Sending text that is not blank makes the log longer by one message. That
/// message has the number one above the earlier length, the alias in use at
/// that moment as its author and the text as its body.
pub proof fn lemma_send_appends_next(v: SessionView, text: Seq<char>)
    requires
        !is_blank(text),
    ensures
        sent(v, text).log.len() == v.log.len() + 1,
        sent(v, text).log.last() == (MessageView {
            sequence: v.log.len() + 1,
            author: v.roster.active,
            body: text,
        }),
        sent(v, text).log.drop_last() == v.log,
{
    assert(sent(v, text).log.drop_last() =~= v.log);
}

/// In a valid log the numbers run 1, 2, 3 and so on without a gap, so each
/// message has a smaller number than every later one.
pub proof fn lemma_numbers_count_up(log: Seq<MessageView>)
    requires
        log_wf(log),
    ensures
        forall|i: int| 0 <= i < log.len() ==> (#[trigger] log[i]).sequence == i + 1,
        forall|i: int, j: int|
            0 <= i < j < log.len() ==> (#[trigger] log[i]).sequence < (#[trigger] log[j]).sequence,
{
}

/// One event leaves a valid session valid.
pub proof fn lemma_step_keeps_valid(v: SessionView, e: EventView)
    requires
        session_wf(v),
    ensures
        session_wf(step(v, e)),
{
}

/// A run of events leaves a valid session valid.
pub proof fn lemma_run_keeps_valid(v: SessionView, events: Seq<EventView>)
    requires
        session_wf(v),
    ensures
        session_wf(run(v, events)),
    decreases events.len(),
{
    if events.len() > 0 {
        lemma_run_keeps_valid(v, events.drop_last());
        lemma_step_keeps_valid(run(v, events.drop_last()), events.last());
    }
}

/// Whatever happened since the start of a session, its log is numbered from
/// 1 without a gap.
pub proof fn lemma_every_session_counts_up(events: Seq<EventView>)
    ensures
        session_wf(run(initial_session(), events)),
        forall|i: int|
            0 <= i < run(initial_session(), events).log.len() ==> (#[trigger] run(
                initial_session(),
                events,
            ).log[i]).sequence == i + 1,
{
    reveal_strlit("guest");
    lemma_run_keeps_valid(initial_session(), events);
}

/// One event changes no message that is in the log: not its number, not its
/// author, not its body, whatever the event does to the roster.
pub proof fn lemma_step_keeps_history(v: SessionView, e: EventView)
    ensures
        v.log.is_prefix_of(step(v, e).log),
{
}

/// No run of events changes a message that is in the log. The author of a
/// message stays the alias that was in use when it was sent, also after
/// another alias was put in use or that name was removed from the roster.
pub proof fn lemma_history_never_changes(v: SessionView, events: Seq<EventView>)
    ensures
        v.log.len() <= run(v, events).log.len(),
        forall|i: int| 0 <= i < v.log.len() ==> run(v, events).log[i] == v.log[i],
    decreases events.len(),
{
    if events.len() > 0 {
        lemma_history_never_changes(v, events.drop_last());
        lemma_step_keeps_history(run(v, events.drop_last()), events.last());
    }
}

/// Removing a selected entry makes the roster shorter by exactly one entry
/// and leaves the alias in use as it was.
pub proof fn lemma_remove_takes_one(v: SessionView, selection: Option<usize>)
    requires
        picks(v.roster, selection),
    ensures
        alias_removed(v, selection).roster.entries.len() == v.roster.entries.len() - 1,
        alias_removed(v, selection).roster.active == v.roster.active,
        refusal(v, EventView::RemoveAlias(selection)) is None,
{
}

/// Removal never changes the alias in use, whether it is carried out or
/// refused.
pub proof fn lemma_remove_keeps_active(v: SessionView, selection: Option<usize>)
    ensures
        alias_removed(v, selection).roster.active == v.roster.active,
{
}

/// Selecting puts the selected entry in use. With no selection it is
/// refused as `NoSelection` and the alias in use stays.
pub proof fn lemma_select_sets_active(v: SessionView, selection: Option<usize>)
    ensures
        picks(v.roster, selection) ==> alias_selected(v, selection).roster.active
            == v.roster.entries[selection->0 as int] && refusal(
            v,
            EventView::SelectAlias(selection),
        ) is None,
        !picks(v.roster, selection) ==> alias_selected(v, selection) == v && refusal(
            v,
            EventView::SelectAlias(selection),
        ) == Some(SessionError::NoSelection),
        selection is None ==> !picks(v.roster, selection),
{
}

/// A pinned view stays pinned through any run of events in which no scroll
/// ends away from the bottom, however many messages are sent.
pub proof fn lemma_pinned_until_scrolled_away(v: SessionView, events: Seq<EventView>)
    requires
        v.pinned,
        forall|i: int| 0 <= i < events.len() ==> events[i] != EventView::Scrolled(false),
    ensures
        run(v, events).pinned,
    decreases events.len(),
{
    if events.len() > 0 {
        lemma_pinned_until_scrolled_away(v, events.drop_last());
    }
}

/// Only a scroll changes the scroll state: a run of events without one
/// leaves it as it was. Messages sent to a detached view do not pin it.
pub proof fn lemma_only_scrolls_move_the_pin(v: SessionView, events: Seq<EventView>)
    requires
        forall|i: int| 0 <= i < events.len() ==> !(events[i] is Scrolled),
    ensures
        run(v, events).pinned == v.pinned,
    decreases events.len(),
{
    if events.len() > 0 {
        lemma_only_scrolls_move_the_pin(v, events.drop_last());
    }
}

/// After a scroll the view is pinned exactly if the scroll ended at the
/// bottom, whatever the state was before and whatever happened before it:
/// a scroll away detaches, and a later scroll to the bottom pins again,
/// however many messages arrived in between.
pub proof fn lemma_last_scroll_decides(v: SessionView, events: Seq<EventView>, at_bottom: bool)
    ensures
        run(v, events.push(EventView::Scrolled(at_bottom))).pinned == at_bottom,
{
    let all = events.push(EventView::Scrolled(at_bottom));
    assert(all.drop_last() =~= events);
    assert(all.last() == EventView::Scrolled(at_bottom));
}

/// A detached view becomes pinned by one event only: a scroll that ends at
/// the bottom. No message sent and no change of the roster pins it.
pub proof fn lemma_only_a_scroll_to_the_bottom_pins(v: SessionView, e: EventView)
    requires
        !v.pinned,
        step(v, e).pinned,
    ensures
        e == EventView::Scrolled(true),
{
}

/// A refused event changes nothing in the session.
pub proof fn lemma_refused_event_changes_nothing(v: SessionView, e: EventView)
    requires
        refusal(v, e) is Some,
    ensures
        step(v, e) == v,
{
}

/// Adding a name that is not empty makes the roster longer by one entry: the
/// new name stands last, also where the roster had it already, the earlier
/// entries keep their places, and the alias in use stays.
pub proof fn lemma_add_appends(v: SessionView, name: Seq<char>)
    requires
        name.len() > 0,
    ensures
        alias_added(v, name).roster.entries.len() == v.roster.entries.len() + 1,
        alias_added(v, name).roster.entries.last() == name,
        alias_added(v, name).roster.entries.drop_last() == v.roster.entries,
        alias_added(v, name).roster.active == v.roster.active,
        refusal(v, EventView::AddAlias(name)) is None,
{
    assert(alias_added(v, name).roster.entries.drop_last() =~= v.roster.entries);
}

} // verus!
