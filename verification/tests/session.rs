use chat_session::error::SessionError;
use chat_session::event::Event;
use chat_session::message::{Message, MessageLog};
use chat_session::roster::{LiveData, USERNAME};
use chat_session::scroll::ScrollState;
use chat_session::session::Session;
use chat_session::text::{blank, space};

fn names(list: &[String]) -> Vec<&str> {
    list.iter().map(|s| s.as_str()).collect()
}

#[test]
fn new_session_starts_with_guest_and_is_pinned() {
    let s = Session::new();
    assert_eq!(s.active_alias(), "guest");
    assert_eq!(names(s.aliases()), vec!["guest"]);
    assert_eq!(s.message_count(), 0);
    assert!(s.messages().is_empty());
    assert!(s.is_pinned());
}

#[test]
fn live_data_new_holds_the_default_alias() {
    let r = LiveData::new();
    assert_eq!(r.active(), "guest");
    assert_eq!(names(r.entries()), vec!["guest"]);
    assert_eq!(r.len(), 1);
}

#[test]
fn hello_becomes_the_first_message() {
    let mut s = Session::new();
    s.send("hello");
    assert_eq!(s.messages().len(), 1);
    let m = &s.messages()[0];
    assert_eq!(m.sequence, 1);
    assert_eq!(m.author, "guest");
    assert_eq!(m.body, "hello");
}

#[test]
fn blank_text_is_ignored() {
    let mut s = Session::new();
    s.send("first");
    for text in ["", " ", "   ", "\t", "\n", "\r\n", " \t\n\x0C\r "] {
        s.send(text);
        assert_eq!(s.message_count(), 1, "{:?} was sent", text);
    }
    assert_eq!(s.messages()[0].body, "first");
}

#[test]
fn text_with_other_characters_is_sent_as_it_stands() {
    let mut s = Session::new();
    s.send("  padded  ");
    s.send("\u{0B}");
    s.send("\u{A0}");
    s.send("\u{2003}");
    s.send("é");
    assert_eq!(s.message_count(), 5);
    assert_eq!(s.messages()[0].body, "  padded  ");
    assert_eq!(s.messages()[1].body, "\u{0B}");
    assert_eq!(s.messages()[4].body, "é");
}

#[test]
fn blank_and_space_agree_with_the_five_blank_characters() {
    for c in [' ', '\t', '\n', '\x0C', '\r'] {
        assert!(space(c));
    }
    for c in ['a', '\u{0B}', '\u{A0}', '\0', '0'] {
        assert!(!space(c));
    }
    assert!(blank(""));
    assert!(blank(" \t"));
    assert!(!blank(" x "));
    assert!(!blank("\u{3000}"));
}

#[test]
fn numbers_count_up_from_one() {
    let mut s = Session::new();
    for i in 0..25usize {
        assert_eq!(s.message_count(), i);
        s.send("m");
        s.send(" ");
        assert_eq!(s.messages()[i].sequence, i + 1);
    }
    for (i, m) in s.messages().iter().enumerate() {
        assert_eq!(m.sequence, i + 1);
    }
}

#[test]
fn author_is_the_alias_in_use_when_sent_and_stays() {
    let mut s = Session::new();
    s.send("one");
    s.switch_active_alias("ann".to_string());
    s.send("two");
    assert!(s.add_alias("bob".to_string()).is_ok());
    assert_eq!(s.select_alias(Some(1)), Ok("bob".to_string()));
    s.send("three");
    assert!(s.remove_alias(Some(1)).is_ok());
    assert!(s.remove_alias(Some(0)).is_ok());
    s.switch_active_alias("zed".to_string());
    let authors: Vec<&str> = s.messages().iter().map(|m| m.author.as_str()).collect();
    assert_eq!(authors, vec!["guest", "ann", "bob"]);
    let bodies: Vec<&str> = s.messages().iter().map(|m| m.body.as_str()).collect();
    assert_eq!(bodies, vec!["one", "two", "three"]);
}

#[test]
fn add_select_send_uses_the_new_alias() {
    let mut s = Session::new();
    let roster = s.add_alias("bob".to_string()).unwrap();
    assert_eq!(names(roster.entries()), vec!["guest", "bob"]);
    assert_eq!(names(s.aliases()), vec!["guest", "bob"]);
    assert_eq!(s.select_alias(Some(1)).unwrap(), "bob");
    assert_eq!(s.active_alias(), "bob");
    s.send("hi");
    let m = s.messages().last().unwrap();
    assert_eq!(m.author, "bob");
    assert_eq!(m.body, "hi");
    assert_eq!(m.sequence, 1);
}

#[test]
fn removing_the_first_entry_keeps_the_alias_in_use() {
    let mut s = Session::new();
    s.add_alias("bob".to_string()).unwrap();
    s.switch_active_alias("bob".to_string());
    let roster = s.remove_alias(Some(0)).unwrap();
    assert_eq!(names(roster.entries()), vec!["bob"]);
    assert_eq!(roster.active(), "bob");
    assert_eq!(names(s.aliases()), vec!["bob"]);
    assert_eq!(s.active_alias(), "bob");
}

#[test]
fn removing_the_alias_in_use_leaves_it_in_use() {
    let mut s = Session::new();
    s.add_alias("bob".to_string()).unwrap();
    s.select_alias(Some(1)).unwrap();
    s.remove_alias(Some(1)).unwrap();
    assert_eq!(names(s.aliases()), vec!["guest"]);
    assert_eq!(s.active_alias(), "bob");
    s.send("still here");
    assert_eq!(s.messages()[0].author, "bob");
}

#[test]
fn remove_takes_exactly_one_entry_and_shifts_the_rest() {
    let mut s = Session::new();
    for n in ["a", "b", "c", "b"] {
        s.add_alias(n.to_string()).unwrap();
    }
    assert_eq!(names(s.aliases()), vec!["guest", "a", "b", "c", "b"]);
    let before = s.aliases().len();
    s.remove_alias(Some(2)).unwrap();
    assert_eq!(s.aliases().len(), before - 1);
    assert_eq!(names(s.aliases()), vec!["guest", "a", "c", "b"]);
    assert_eq!(s.select_alias(Some(2)).unwrap(), "c");
    assert_eq!(s.active_alias(), "c");
}

#[test]
fn duplicates_are_kept() {
    let mut s = Session::new();
    s.add_alias("guest".to_string()).unwrap();
    s.add_alias("guest".to_string()).unwrap();
    assert_eq!(names(s.aliases()), vec!["guest", "guest", "guest"]);
}

#[test]
fn empty_alias_is_invalid_input() {
    let mut s = Session::new();
    let r = s.add_alias(String::new());
    assert_eq!(r.err(), Some(SessionError::InvalidInput));
    assert_eq!(names(s.aliases()), vec!["guest"]);
    assert_eq!(s.active_alias(), "guest");
}

#[test]
fn nothing_selected_is_no_selection() {
    let mut s = Session::new();
    s.add_alias("bob".to_string()).unwrap();
    assert_eq!(s.remove_alias(None).err(), Some(SessionError::NoSelection));
    assert_eq!(s.select_alias(None), Err(SessionError::NoSelection));
    assert_eq!(names(s.aliases()), vec!["guest", "bob"]);
    assert_eq!(s.active_alias(), "guest");
}

#[test]
fn empty_roster_always_gives_no_selection() {
    let mut s = Session::new();
    s.remove_alias(Some(0)).unwrap();
    assert!(s.aliases().is_empty());
    assert_eq!(s.remove_alias(None).err(), Some(SessionError::NoSelection));
    assert_eq!(s.remove_alias(Some(0)).err(), Some(SessionError::NoSelection));
    assert_eq!(s.select_alias(Some(0)), Err(SessionError::NoSelection));
    assert_eq!(s.active_alias(), "guest");
}

#[test]
fn position_without_an_entry_gives_no_selection() {
    let mut s = Session::new();
    assert_eq!(s.select_alias(Some(1)), Err(SessionError::NoSelection));
    assert_eq!(s.remove_alias(Some(7)).err(), Some(SessionError::NoSelection));
    assert_eq!(names(s.aliases()), vec!["guest"]);
}

#[test]
fn switching_does_not_ask_the_roster() {
    let mut s = Session::new();
    s.switch_active_alias("nobody".to_string());
    assert_eq!(s.active_alias(), "nobody");
    assert_eq!(names(s.aliases()), vec!["guest"]);
    assert_eq!(s.roster().active(), "nobody");
}

#[test]
fn scrolling_away_detaches_and_scrolling_back_pins() {
    let mut s = Session::new();
    assert!(s.is_pinned());
    s.on_scroll_position_changed(false);
    assert!(!s.is_pinned());
    s.send("x");
    assert!(!s.is_pinned());
    assert_eq!(s.message_count(), 1);
    s.on_scroll_position_changed(true);
    assert!(s.is_pinned());
}

#[test]
fn pinned_view_stays_pinned_while_messages_arrive() {
    let mut s = Session::new();
    for _ in 0..10 {
        s.send("m");
        s.on_scroll_position_changed(true);
        assert!(s.is_pinned());
    }
    s.on_scroll_position_changed(false);
    for _ in 0..10 {
        s.send("m");
        assert!(!s.is_pinned());
    }
    s.on_scroll_position_changed(false);
    assert!(!s.is_pinned());
    s.on_scroll_position_changed(true);
    assert!(s.is_pinned());
    assert_eq!(s.message_count(), 20);
}

#[test]
fn send_message_empties_the_input_either_way() {
    let mut s = Session::new();
    let mut input = String::from("hello");
    s.send_message(&mut input);
    assert_eq!(input, "");
    assert_eq!(s.message_count(), 1);
    assert_eq!(s.messages()[0].body, "hello");
    let mut input = String::from("   ");
    s.send_message(&mut input);
    assert_eq!(input, "");
    assert_eq!(s.message_count(), 1);
}

#[test]
fn snapshot_is_a_copy() {
    let mut s = Session::new();
    let before = s.roster().snapshot();
    s.add_alias("bob".to_string()).unwrap();
    s.switch_active_alias("bob".to_string());
    assert_eq!(names(before.entries()), vec!["guest"]);
    assert_eq!(before.active(), "guest");
}

#[test]
fn events_move_the_session_as_the_calls_do() {
    let mut s = Session::new();
    assert_eq!(s.apply(Event::Send("hello".to_string())), Ok(()));
    assert_eq!(s.apply(Event::Send(" ".to_string())), Ok(()));
    assert_eq!(s.apply(Event::AddAlias(String::new())), Err(SessionError::InvalidInput));
    assert_eq!(s.apply(Event::AddAlias("bob".to_string())), Ok(()));
    assert_eq!(s.apply(Event::SelectAlias(None)), Err(SessionError::NoSelection));
    assert_eq!(s.apply(Event::SelectAlias(Some(1))), Ok(()));
    assert_eq!(s.apply(Event::Scrolled(false)), Ok(()));
    assert_eq!(s.apply(Event::Send("hi".to_string())), Ok(()));
    assert_eq!(s.apply(Event::RemoveAlias(Some(0))), Ok(()));
    assert_eq!(s.apply(Event::RemoveAlias(Some(5))), Err(SessionError::NoSelection));
    assert_eq!(s.apply(Event::SwitchAlias("ann".to_string())), Ok(()));
    assert_eq!(s.message_count(), 2);
    assert_eq!(s.messages()[1].sequence, 2);
    assert_eq!(s.messages()[1].author, "bob");
    assert_eq!(names(s.aliases()), vec!["bob"]);
    assert_eq!(s.active_alias(), "ann");
    assert!(!s.is_pinned());
    assert_eq!(s.apply(Event::Scrolled(true)), Ok(()));
    assert!(s.is_pinned());
}

#[test]
fn notices_name_the_refusal() {
    assert_eq!(SessionError::InvalidInput.notice(), "An alias cannot be empty.");
    assert_eq!(SessionError::NoSelection.notice(), "No alias is selected.");
}

#[test]
fn log_after_hello_is_exactly_one_message() {
    let mut s = Session::new();
    s.send("hello");
    let expected = vec![Message {
        sequence: 1,
        author: "guest".to_string(),
        body: "hello".to_string(),
    }];
    assert_eq!(s.messages(), &expected);
}

#[test]
fn default_alias_is_guest() {
    assert_eq!(USERNAME, "guest");
    assert_eq!(Session::new().active_alias(), USERNAME);
}

#[test]
fn message_log_numbers_and_keeps_what_is_appended() {
    let mut log = MessageLog::new();
    assert_eq!(log.len(), 0);
    assert!(log.get(0).is_none());
    log.append("ann".to_string(), "one".to_string());
    log.append("bob".to_string(), "two".to_string());
    assert_eq!(log.len(), 2);
    let first = Message { sequence: 1, author: "ann".to_string(), body: "one".to_string() };
    let second = Message { sequence: 2, author: "bob".to_string(), body: "two".to_string() };
    assert_eq!(log.get(0), Some(&first));
    assert_eq!(log.get(1), Some(&second));
    assert_eq!(log.get(2), None);
    assert_eq!(log.messages(), &vec![first, second]);
}

#[test]
fn scroll_state_follows_the_last_scroll() {
    let mut scroll = ScrollState::new();
    assert!(scroll.is_pinned());
    scroll.on_position_changed(true);
    assert!(scroll.is_pinned());
    scroll.on_position_changed(false);
    assert!(!scroll.is_pinned());
    scroll.on_position_changed(false);
    assert!(!scroll.is_pinned());
    scroll.on_position_changed(true);
    assert!(scroll.is_pinned());
}

#[test]
fn roster_operations_on_their_own() {
    let mut r = LiveData::new();
    assert_eq!(r.add(String::new()).err(), Some(SessionError::InvalidInput));
    let after = r.add("bob".to_string()).unwrap();
    assert_eq!(names(after.entries()), vec!["guest", "bob"]);
    assert_eq!(after.active(), "guest");
    assert_eq!(r.select(Some(1)), Ok("bob".to_string()));
    assert_eq!(r.select(Some(2)), Err(SessionError::NoSelection));
    assert_eq!(r.active(), "bob");
    r.switch_active("carol".to_string());
    let after = r.remove(Some(0)).unwrap();
    assert_eq!(names(after.entries()), vec!["bob"]);
    assert_eq!(after.active(), "carol");
    assert_eq!(r.remove(None).err(), Some(SessionError::NoSelection));
    assert_eq!(r.len(), 1);
}

#[test]
fn a_refused_event_changes_nothing() {
    let mut s = Session::new();
    s.apply(Event::Send("one".to_string())).unwrap();
    s.apply(Event::Scrolled(false)).unwrap();
    let log = vec![Message { sequence: 1, author: "guest".to_string(), body: "one".to_string() }];
    let aliases = vec!["guest".to_string()];
    for event in [
        Event::AddAlias(String::new()),
        Event::RemoveAlias(None),
        Event::SelectAlias(None),
        Event::RemoveAlias(Some(1)),
        Event::SelectAlias(Some(1)),
    ] {
        assert!(s.apply(event).is_err());
        assert_eq!(s.messages(), &log);
        assert_eq!(s.aliases(), &aliases);
        assert_eq!(s.active_alias(), "guest");
        assert!(!s.is_pinned());
    }
}
