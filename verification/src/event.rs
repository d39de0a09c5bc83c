//! The actions of the user as values, and the one function that applies
//! them to a session.

use vstd::prelude::*;
use crate::error::SessionError;
use crate::roster::picks;
use crate::text::is_blank;
use crate::session::{
    alias_added, alias_removed, alias_selected, alias_switched, scrolled, sent, Session,
    SessionView,
};

verus! {

/// What an event holds.
pub enum EventView {
    Send(Seq<char>),
    SwitchAlias(Seq<char>),
    AddAlias(Seq<char>),
    RemoveAlias(Option<usize>),
    SelectAlias(Option<usize>),
    Scrolled(bool),
}

/// An action of the user.
#[derive(Debug, PartialEq, Eq)]
pub enum Event {
    /// The composed text was submitted.
    Send(String),
    /// An alias was chosen by its name.
    SwitchAlias(String),
    /// A new alias was entered.
    AddAlias(String),
    /// Removal of the selected entry of the roster was asked for.
    RemoveAlias(Option<usize>),
    /// Use of the selected entry of the roster was asked for.
    SelectAlias(Option<usize>),
    /// The message view was scrolled; the value says whether its lower edge
    /// now lies on the last message.
    Scrolled(bool),
}

impl View for Event {
    type V = EventView;

    open spec fn view(&self) -> EventView {
        match *self {
            Event::Send(text) => EventView::Send(text@),
            Event::SwitchAlias(name) => EventView::SwitchAlias(name@),
            Event::AddAlias(name) => EventView::AddAlias(name@),
            Event::RemoveAlias(selection) => EventView::RemoveAlias(selection),
            Event::SelectAlias(selection) => EventView::SelectAlias(selection),
            Event::Scrolled(at_bottom) => EventView::Scrolled(at_bottom),
        }
    }
}

/// The session after one event.
pub open spec fn step(v: SessionView, e: EventView) -> SessionView {
    match e {
        EventView::Send(text) => sent(v, text),
        EventView::SwitchAlias(name) => alias_switched(v, name),
        EventView::AddAlias(name) => alias_added(v, name),
        EventView::RemoveAlias(selection) => alias_removed(v, selection),
        EventView::SelectAlias(selection) => alias_selected(v, selection),
        EventView::Scrolled(at_bottom) => scrolled(v, at_bottom),
    }
}

/// Why an event is refused in a session, if it is.
pub open spec fn refusal(v: SessionView, e: EventView) -> Option<SessionError> {
    match e {
        EventView::AddAlias(name) => if name.len() == 0 {
            Some(SessionError::InvalidInput)
        } else {
            None
        },
        EventView::RemoveAlias(selection) => if picks(v.roster, selection) {
            None
        } else {
            Some(SessionError::NoSelection)
        },
        EventView::SelectAlias(selection) => if picks(v.roster, selection) {
            None
        } else {
            Some(SessionError::NoSelection)
        },
        _ => None,
    }
}

/// The session after a run of events, the first of them applied first.
pub open spec fn run(v: SessionView, events: Seq<EventView>) -> SessionView
    decreases events.len(),
{
    if events.len() == 0 {
        v
    } else {
        step(run(v, events.drop_last()), events.last())
    }
}

impl Session {
    /// Applies one event: the session moves as [`step`] says, and a refused
    /// event is reported and changes nothing.
    pub fn apply(&mut self, event: Event) -> (r: Result<(), SessionError>)
        requires
            event@ matches EventView::Send(text) ==> (!is_blank(text) ==> old(self)@.log.len()
                < usize::MAX),
        ensures
            old(self).wf() ==> final(self).wf(),
            final(self)@ == step(old(self)@, event@),
            r == (match refusal(old(self)@, event@) {
                Some(e) => Err::<(), SessionError>(e),
                None => Ok::<(), SessionError>(()),
            }),
            r is Err ==> final(self)@ == old(self)@,
    {
        match event {
            Event::Send(text) => {
                self.send(text.as_str());
                Ok(())
            },
            Event::SwitchAlias(name) => {
                self.switch_active_alias(name);
                Ok(())
            },
            Event::AddAlias(name) => match self.add_alias(name) {
                Ok(_) => Ok(()),
                Err(e) => Err(e),
            },
            Event::RemoveAlias(selection) => match self.remove_alias(selection) {
                Ok(_) => Ok(()),
                Err(e) => Err(e),
            },
            Event::SelectAlias(selection) => match self.select_alias(selection) {
                Ok(_) => Ok(()),
                Err(e) => Err(e),
            },
            Event::Scrolled(at_bottom) => {
                self.on_scroll_position_changed(at_bottom);
                Ok(())
            },
        }
    }
}

} // verus!
