//! The roster: the aliases known to the session, in the order in which they
//! were added, and the alias that outgoing messages are sent under.

use vstd::prelude::*;
use crate::error::SessionError;

verus! {

/// What a roster holds.
pub struct RosterView {
    /// The aliases, oldest first. The same name may occur more than once.
    pub entries: Seq<Seq<char>>,
    /// The alias in use. It is a copy of a name, not a position in
    /// `entries`, and need not occur there.
    pub active: Seq<char>,
}

/// The alias that every session starts with.
pub const USERNAME: &'static str = "guest";

/// The alias that every session starts with, as the characters of
/// [`USERNAME`].
pub open spec fn default_alias() -> Seq<char> {
    USERNAME@
}

/// The roster at the start of a session: the default alias, which is also
/// the one in use.
pub open spec fn initial_roster() -> RosterView {
    RosterView { entries: seq![default_alias()], active: default_alias() }
}

/// Every entry is a name of at least one character.
pub open spec fn roster_wf(r: RosterView) -> bool {
    forall|i: int| 0 <= i < r.entries.len() ==> (#[trigger] r.entries[i]).len() > 0
}

/// The roster with `name` in use.
pub open spec fn switched(r: RosterView, name: Seq<char>) -> RosterView {
    RosterView { entries: r.entries, active: name }
}

/// The roster with `name` added behind the last entry.
pub open spec fn added(r: RosterView, name: Seq<char>) -> RosterView {
    RosterView { entries: r.entries.push(name), active: r.active }
}

/// A selection picks an entry when a position is given and the roster has
/// an entry there. On an empty roster no selection picks one.
pub open spec fn picks(r: RosterView, selection: Option<usize>) -> bool {
    selection is Some && selection->0 < r.entries.len()
}

/// The roster without the entry at position `i`: the entries behind it move
/// down by one, and the alias in use stays.
pub open spec fn removed(r: RosterView, i: int) -> RosterView {
    RosterView { entries: r.entries.remove(i), active: r.active }
}

/// The roster with the entry at position `i` in use.
pub open spec fn selected(r: RosterView, i: int) -> RosterView {
    RosterView { entries: r.entries, active: r.entries[i] }
}

/// The names that a list of strings holds.
pub open spec fn names_of(list: Seq<String>) -> Seq<Seq<char>> {
    Seq::new(list.len(), |i: int| list[i]@)
}

/// The roster of a session.
#[derive(Debug)]
pub struct LiveData {
    alias: String,
    alias_list: Vec<String>,
}

impl View for LiveData {
    type V = RosterView;

    closed spec fn view(&self) -> RosterView {
        RosterView { entries: names_of(self.alias_list@), active: self.alias@ }
    }
}

fn default_name() -> (r: String)
    ensures
        r@ == default_alias(),
        r@.len() > 0,
{
    proof {
        reveal_strlit("guest");
    }
    USERNAME.to_owned()
}

fn copy_of(list: &Vec<String>) -> (r: Vec<String>)
    ensures
        r@ == list@,
{
    let mut out: Vec<String> = Vec::new();
    let mut i: usize = 0;
    while i < list.len()
        invariant
            i <= list.len(),
            out@ == list@.take(i as int),
        decreases list.len() - i,
    {
        out.push(list[i].clone());
        assert(out@ =~= list@.take(i + 1));
        i += 1;
    }
    assert(list@.take(list.len() as int) =~= list@);
    out
}

impl LiveData {
    /// Whether the roster is valid: see [`roster_wf`].
    pub open spec fn wf(&self) -> bool {
        roster_wf(self@)
    }

    /// The roster at the start of a session.
    pub fn new() -> (r: LiveData)
        ensures
            r@ == initial_roster(),
            r.wf(),
    {
        let mut alias_list: Vec<String> = Vec::new();
        alias_list.push(default_name());
        let r = LiveData { alias: default_name(), alias_list };
        assert(r@.entries =~= seq![default_alias()]);
        r
    }

    /// The alias in use.
    pub fn active(&self) -> (r: &str)
        ensures
            r@ == self@.active,
    {
        self.alias.as_str()
    }

    /// The entries, oldest first.
    pub fn entries(&self) -> (r: &Vec<String>)
        ensures
            names_of(r@) == self@.entries,
    {
        &self.alias_list
    }

    /// How many entries the roster has.
    pub fn len(&self) -> (r: usize)
        ensures
            r == self@.entries.len(),
    {
        self.alias_list.len()
    }

    /// A copy of the roster as it is now.
    pub fn snapshot(&self) -> (r: LiveData)
        ensures
            r@ == self@,
    {
        LiveData { alias: self.alias.clone(), alias_list: copy_of(&self.alias_list) }
    }

    /// Puts `name` in use, whether or not the roster has such an entry.
    pub fn switch_active(&mut self, name: String)
        ensures
            final(self)@ == switched(old(self)@, name@),
    {
        self.alias = name;
    }

    /// Adds `name` behind the last entry, also where the roster has that
    /// name already, and hands back the roster as it then is. An empty name
    /// is refused as `InvalidInput`, and the roster stays as it was.
    pub fn add(&mut self, name: String) -> (r: Result<LiveData, SessionError>)
        ensures
            old(self).wf() ==> final(self).wf(),
            name@.len() == 0 ==> r == Err::<LiveData, SessionError>(SessionError::InvalidInput)
                && final(self)@ == old(self)@,
            name@.len() > 0 ==> r is Ok && final(self)@ == added(old(self)@, name@),
            r is Ok ==> r->Ok_0@ == final(self)@,
    {
        if name.as_str().is_empty() {
            return Err(SessionError::InvalidInput);
        }
        self.alias_list.push(name);
        assert(self@.entries =~= old(self)@.entries.push(name@));
        Ok(self.snapshot())
    }

    /// Removes the entry that `selection` picks and hands back the roster as
    /// it then is: one entry fewer, the entries behind the removed one moved
    /// down by one, the alias in use untouched, even where it was the name
    /// removed. A selection that picks no entry is refused as `NoSelection`,
    /// and the roster stays as it was.
    pub fn remove(&mut self, selection: Option<usize>) -> (r: Result<LiveData, SessionError>)
        ensures
            old(self).wf() ==> final(self).wf(),
            final(self)@.active == old(self)@.active,
            !picks(old(self)@, selection) ==> r == Err::<LiveData, SessionError>(
                SessionError::NoSelection,
            ) && final(self)@ == old(self)@,
            picks(old(self)@, selection) ==> r is Ok && final(self)@ == removed(
                old(self)@,
                selection->0 as int,
            ) && final(self)@.entries.len() == old(self)@.entries.len() - 1,
            r is Ok ==> r->Ok_0@ == final(self)@,
    {
        match selection {
            None => Err(SessionError::NoSelection),
            Some(i) => {
                if i < self.alias_list.len() {
                    let _gone: String = self.alias_list.remove(i);
                    assert(self@.entries =~= old(self)@.entries.remove(i as int));
                    Ok(self.snapshot())
                } else {
                    Err(SessionError::NoSelection)
                }
            },
        }
    }

    /// Puts the entry that `selection` picks in use and hands that alias
    /// back. A selection that picks no entry is refused as `NoSelection`,
    /// and the alias in use stays as it was.
    pub fn select(&mut self, selection: Option<usize>) -> (r: Result<String, SessionError>)
        ensures
            final(self)@.entries == old(self)@.entries,
            !picks(old(self)@, selection) ==> r == Err::<String, SessionError>(
                SessionError::NoSelection,
            ) && final(self)@ == old(self)@,
            picks(old(self)@, selection) ==> r is Ok
                && r->Ok_0@ == old(self)@.entries[selection->0 as int]
                && final(self)@ == selected(old(self)@, selection->0 as int),
    {
        match selection {
            None => Err(SessionError::NoSelection),
            Some(i) => {
                if i < self.alias_list.len() {
                    self.alias = self.alias_list[i].clone();
                    Ok(self.alias.clone())
                } else {
                    Err(SessionError::NoSelection)
                }
            },
        }
    }
}

} // verus!
