//! The session: the roster, the message log and the scroll state, and the
//! operations that the user interface calls on them.

use vstd::prelude::*;
use crate::error::SessionError;
use crate::message::{appended, log_wf, messages_of, Message, MessageLog, MessageView};
use crate::roster::{
    added, initial_roster, names_of, picks, removed, roster_wf, selected, switched, LiveData,
    RosterView,
};
use crate::scroll::ScrollState;
use crate::text::{blank, is_blank};

verus! {

/// What a session holds.
pub struct SessionView {
    pub roster: RosterView,
    /// The messages, oldest first.
    pub log: Seq<MessageView>,
    /// Whether the view follows the newest message.
    pub pinned: bool,
}

/// The session at its start: the default alias, no message, pinned.
pub open spec fn initial_session() -> SessionView {
    SessionView { roster: initial_roster(), log: Seq::empty(), pinned: true }
}

/// The roster and the log are valid.
pub open spec fn session_wf(v: SessionView) -> bool {
    roster_wf(v.roster) && log_wf(v.log)
}

/// The session after `text` was sent. Blank text is ignored. Any other text
/// becomes the next message, under the alias in use. The roster and the
/// scroll state stay as they were.
pub open spec fn sent(v: SessionView, text: Seq<char>) -> SessionView {
    if is_blank(text) {
        v
    } else {
        SessionView {
            roster: v.roster,
            log: appended(v.log, v.roster.active, text),
            pinned: v.pinned,
        }
    }
}

/// The session with `name` in use.
pub open spec fn alias_switched(v: SessionView, name: Seq<char>) -> SessionView {
    SessionView { roster: switched(v.roster, name), log: v.log, pinned: v.pinned }
}

/// The session after a request to add `name`: an empty name changes nothing.
pub open spec fn alias_added(v: SessionView, name: Seq<char>) -> SessionView {
    if name.len() == 0 {
        v
    } else {
        SessionView { roster: added(v.roster, name), log: v.log, pinned: v.pinned }
    }
}

/// The session after a request to remove the selected entry: a selection
/// that picks no entry changes nothing.
pub open spec fn alias_removed(v: SessionView, selection: Option<usize>) -> SessionView {
    if picks(v.roster, selection) {
        SessionView {
            roster: removed(v.roster, selection->0 as int),
            log: v.log,
            pinned: v.pinned,
        }
    } else {
        v
    }
}

/// The session after a request to put the selected entry in use: a
/// selection that picks no entry changes nothing.
pub open spec fn alias_selected(v: SessionView, selection: Option<usize>) -> SessionView {
    if picks(v.roster, selection) {
        SessionView {
            roster: selected(v.roster, selection->0 as int),
            log: v.log,
            pinned: v.pinned,
        }
    } else {
        v
    }
}

/// The session after a scroll that ended with the view's lower edge on the
/// last message (`at_bottom`) or away from it.
pub open spec fn scrolled(v: SessionView, at_bottom: bool) -> SessionView {
    SessionView { roster: v.roster, log: v.log, pinned: at_bottom }
}

/// One session: a single owned value that every operation takes.
#[derive(Debug)]
pub struct Session {
    roster: LiveData,
    log: MessageLog,
    scroll: ScrollState,
}

impl View for Session {
    type V = SessionView;

    closed spec fn view(&self) -> SessionView {
        SessionView { roster: self.roster@, log: self.log@, pinned: self.scroll@ }
    }
}

impl Session {
    /// Whether the session is valid: see [`session_wf`].
    pub open spec fn wf(&self) -> bool {
        session_wf(self@)
    }

    /// A session at its start.
    pub fn new() -> (r: Session)
        ensures
            r@ == initial_session(),
            r.wf(),
    {
        Session { roster: LiveData::new(), log: MessageLog::new(), scroll: ScrollState::new() }
    }

    /// The roster as it is now.
    pub fn roster(&self) -> (r: &LiveData)
        ensures
            r@ == self@.roster,
    {
        &self.roster
    }

    /// The alias in use.
    pub fn active_alias(&self) -> (r: &str)
        ensures
            r@ == self@.roster.active,
    {
        self.roster.active()
    }

    /// The entries of the roster, oldest first.
    pub fn aliases(&self) -> (r: &Vec<String>)
        ensures
            names_of(r@) == self@.roster.entries,
    {
        self.roster.entries()
    }

    /// The messages sent so far, oldest first.
    pub fn messages(&self) -> (r: &Vec<Message>)
        ensures
            messages_of(r@) == self@.log,
    {
        self.log.messages()
    }

    /// How many messages were sent so far.
    pub fn message_count(&self) -> (r: usize)
        ensures
            r == self@.log.len(),
    {
        self.log.len()
    }

    /// Whether the view follows the newest message.
    pub fn is_pinned(&self) -> (r: bool)
        ensures
            r == self@.pinned,
    {
        self.scroll.is_pinned()
    }

    /// Sends `msg`. Blank text is ignored without a word: nothing changes.
    /// Any other text is appended to the log as it stands, numbered one
    /// above the number of messages before it and signed with the alias in
    /// use. Earlier messages, the roster and the scroll state are left
    /// alone: a detached view stays detached.
    pub fn send(&mut self, msg: &str)
        requires
            !is_blank(msg@) ==> old(self)@.log.len() < usize::MAX,
        ensures
            old(self).wf() ==> final(self).wf(),
            final(self)@ == sent(old(self)@, msg@),
            is_blank(msg@) ==> final(self)@.log == old(self)@.log,
            !is_blank(msg@) ==> final(self)@.log == old(self)@.log.push(
                MessageView {
                    sequence: old(self)@.log.len() + 1,
                    author: old(self)@.roster.active,
                    body: msg@,
                },
            ),
            final(self)@.roster == old(self)@.roster,
            final(self)@.pinned == old(self)@.pinned,
    {
        if blank(msg) {
            return;
        }
        let author: String = self.roster.active().to_owned();
        self.log.append(author, msg.to_owned());
    }

    /// Sends what was composed in `input`, as [`Session::send`] does, and
    /// empties `input`, whether or not a message came of it.
    pub fn send_message(&mut self, input: &mut String)
        requires
            !is_blank(old(input)@) ==> old(self)@.log.len() < usize::MAX,
        ensures
            old(self).wf() ==> final(self).wf(),
            final(self)@ == sent(old(self)@, old(input)@),
            final(input)@ == Seq::<char>::empty(),
    {
        self.send(input.as_str());
        *input = String::new();
    }

    /// Records a scroll of the message view. The view is pinned afterwards
    /// exactly if `at_bottom` holds, whatever the state was and however many
    /// messages arrived in between. Nothing else changes.
    pub fn on_scroll_position_changed(&mut self, at_bottom: bool)
        ensures
            final(self)@ == scrolled(old(self)@, at_bottom),
            final(self)@.pinned == at_bottom,
            final(self).wf() == old(self).wf(),
    {
        self.scroll.on_position_changed(at_bottom);
    }

    /// Puts `name` in use. The roster is not asked whether it has such an
    /// entry.
    pub fn switch_active_alias(&mut self, name: String)
        ensures
            final(self)@ == alias_switched(old(self)@, name@),
            final(self)@.roster.active == name@,
            final(self).wf() == old(self).wf(),
    {
        self.roster.switch_active(name);
        assert(self@.roster.entries == old(self)@.roster.entries);
    }

    /// Adds `name` to the roster behind its last entry and hands back the
    /// roster as it then is. An empty name is refused as `InvalidInput`,
    /// and nothing changes.
    pub fn add_alias(&mut self, name: String) -> (r: Result<LiveData, SessionError>)
        ensures
            old(self).wf() ==> final(self).wf(),
            final(self)@ == alias_added(old(self)@, name@),
            name@.len() == 0 <==> r == Err::<LiveData, SessionError>(SessionError::InvalidInput),
            name@.len() > 0 <==> r is Ok,
            r is Ok ==> r->Ok_0@ == final(self)@.roster && final(self)@.roster.entries
                == old(self)@.roster.entries.push(name@),
    {
        self.roster.add(name)
    }

    /// Removes the selected entry from the roster and hands back the roster
    /// as it then is. The roster then has exactly one entry fewer. The alias
    /// in use is never touched, not even where it is the name removed. A
    /// selection that picks no entry is refused as `NoSelection`, and nothing
    /// changes.
    pub fn remove_alias(&mut self, selection: Option<usize>) -> (r: Result<
        LiveData,
        SessionError,
    >)
        ensures
            old(self).wf() ==> final(self).wf(),
            final(self)@ == alias_removed(old(self)@, selection),
            final(self)@.roster.active == old(self)@.roster.active,
            picks(old(self)@.roster, selection) <==> r is Ok,
            !picks(old(self)@.roster, selection) <==> r == Err::<LiveData, SessionError>(
                SessionError::NoSelection,
            ),
            r is Ok ==> r->Ok_0@ == final(self)@.roster && final(self)@.roster.entries.len()
                == old(self)@.roster.entries.len() - 1,
    {
        self.roster.remove(selection)
    }

    /// Puts the selected entry in use and hands that alias back. A selection
    /// that picks no entry is refused as `NoSelection`, and the alias in use
    /// stays as it was.
    pub fn select_alias(&mut self, selection: Option<usize>) -> (r: Result<String, SessionError>)
        ensures
            final(self)@ == alias_selected(old(self)@, selection),
            final(self).wf() == old(self).wf(),
            picks(old(self)@.roster, selection) <==> r is Ok,
            !picks(old(self)@.roster, selection) <==> r == Err::<String, SessionError>(
                SessionError::NoSelection,
            ),
            r is Ok ==> r->Ok_0@ == old(self)@.roster.entries[selection->0 as int]
                && final(self)@.roster.active == r->Ok_0@,
            r is Err ==> final(self)@.roster.active == old(self)@.roster.active,
    {
        self.roster.select(selection)
    }
}

} // verus!
