use aghast::relay::{
    attachment_rows, close_ticket, on_dm_message, on_message_edit, on_mirror_delivered,
    on_mirror_failed, on_thread_message, open_ticket, usage_text, ApiError, DmMessage, DmStep,
    EditStep, MirrorRecovery, MirrorSide, RelayAction, StaffStep,
};
use aghast::respond::{ButtonStyle, RowItem};
use aghast::store::{TicketChannels, TicketStore};

fn dm_event(channel: u64, message: u64, author: &str, content: &str) -> DmMessage {
    DmMessage {
        dm_channel: channel,
        message,
        author_name: author.to_string(),
        author_is_bot: false,
        content: content.to_string(),
        attachments: Vec::new(),
    }
}

#[test]
fn new_dm_with_no_ticket_opens_one_named_after_author() {
    let mut store = TicketStore::new();
    let ev = dm_event(10, 100, "wumpus", "hello");
    let step = on_dm_message(&store, &ev);
    let plan = match step {
        DmStep::OpenTicket { plan } => plan,
        _ => panic!("expected the open-ticket path"),
    };
    assert_eq!(plan.name, "wumpus");
    assert_eq!(plan.content, "wumpus: hello");

    // The thread came back from the platform; persist the row and notify.
    let acts = open_ticket(&mut store, 10, 20, &"ticket opened".to_string());
    assert_eq!(acts.len(), 1);
    match &acts[0] {
        RelayAction::SendDm { dm, content } => {
            assert_eq!(*dm, 10);
            assert_eq!(content, "ticket opened");
        }
        _ => panic!("expected exactly one notification"),
    }
    assert_eq!(store.get_ticket_by_dm(10), Some(TicketChannels { dm: 10, thread: 20 }));
    assert_eq!(store.get_ticket_by_thread(20), Some(TicketChannels { dm: 10, thread: 20 }));

    // The mirrored message landed: exactly one counterpart row, reaction on
    // the private-side original.
    let act = on_mirror_delivered(&mut store, 10, 100, 20, 200, MirrorSide::FromDm);
    match act {
        RelayAction::React { channel, message } => {
            assert_eq!(channel, 10);
            assert_eq!(message, 100);
        }
        _ => panic!("expected a reaction"),
    }
    let row = store.get_counterpart(100).unwrap();
    assert_eq!(row.dm.message, 100);
    assert_eq!(row.thread.message, 200);
    assert_eq!(store.get_counterpart(200), Some(row));
}

#[test]
fn new_dm_with_open_ticket_mirrors_into_thread() {
    let mut store = TicketStore::new();
    open_ticket(&mut store, 10, 20, &"open".to_string());
    let ev = dm_event(10, 101, "wumpus", "second message");
    match on_dm_message(&store, &ev) {
        DmStep::Mirror { thread, content, .. } => {
            assert_eq!(thread, 20);
            assert_eq!(content, "wumpus: second message");
        }
        _ => panic!("expected the mirror path"),
    }
}

#[test]
fn bot_authored_dm_is_ignored() {
    let store = TicketStore::new();
    let mut ev = dm_event(10, 100, "bot", "open msg");
    ev.author_is_bot = true;
    assert!(matches!(on_dm_message(&store, &ev), DmStep::Ignore));
}

#[test]
fn staff_close_deletes_row_and_both_lookups_return_absent() {
    let mut store = TicketStore::new();
    open_ticket(&mut store, 10, 20, &"open".to_string());
    open_ticket(&mut store, 11, 21, &"open".to_string());
    let step = on_thread_message(&mut store, 20, &"!close".to_string(), &"closed".to_string());
    let acts = match step {
        StaffStep::Close { acts } => acts,
        _ => panic!("expected the close path"),
    };
    assert_eq!(acts.len(), 2);
    match &acts[0] {
        RelayAction::SendDm { dm, content } => {
            assert_eq!(*dm, 10);
            assert_eq!(content, "closed");
        }
        _ => panic!("expected the close notification"),
    }
    match &acts[1] {
        RelayAction::ReplyThread { thread, content } => {
            assert_eq!(*thread, 20);
            assert_eq!(content, "Ticket closed.");
        }
        _ => panic!("expected the in-thread confirmation"),
    }
    assert_eq!(store.get_ticket_by_dm(10), None);
    assert_eq!(store.get_ticket_by_thread(20), None);
    // The other ticket is untouched.
    assert_eq!(store.get_ticket_by_dm(11), Some(TicketChannels { dm: 11, thread: 21 }));
}

#[test]
fn close_ticket_on_unknown_thread_notifies_nobody() {
    let mut store = TicketStore::new();
    let acts = close_ticket(&mut store, 99, &"closed".to_string());
    assert!(acts.is_empty());
}

#[test]
fn usage_text_lists_the_commands() {
    assert_eq!(usage_text(), "Commands: !help, !close, !r <text>");
}

#[test]
fn staff_help_and_reply_and_noise() {
    let mut store = TicketStore::new();
    open_ticket(&mut store, 10, 20, &"open".to_string());
    assert!(matches!(
        on_thread_message(&mut store, 20, &"!help".to_string(), &"c".to_string()),
        StaffStep::Help { thread: 20 }
    ));
    match on_thread_message(&mut store, 20, &"!r hi there".to_string(), &"c".to_string()) {
        StaffStep::ReplyToUser { dm, content } => {
            assert_eq!(dm, 10);
            assert_eq!(content, "hi there");
        }
        _ => panic!("expected the reply path"),
    }
    assert!(matches!(
        on_thread_message(&mut store, 20, &"just chatting".to_string(), &"c".to_string()),
        StaffStep::Ignore
    ));
    assert!(matches!(
        on_thread_message(&mut store, 99, &"!close".to_string(), &"c".to_string()),
        StaffStep::NoTicket
    ));
    // The ticket is still open after non-close traffic.
    assert!(store.get_ticket_by_thread(20).is_some());
}

#[test]
fn mirror_not_found_self_heals_with_one_reopen() {
    let mut store = TicketStore::new();
    open_ticket(&mut store, 10, 20, &"open".to_string());
    // The thread vanished remotely: the mirror send comes back not-found.
    let r = on_mirror_failed(&mut store, 20, ApiError::NotFound);
    assert_eq!(r, MirrorRecovery::Reopen);
    assert_eq!(store.get_ticket_by_thread(20), None);
    assert_eq!(store.get_ticket_by_dm(10), None);
    // The retry runs the open path once: one new row, one notification.
    let acts = open_ticket(&mut store, 10, 30, &"open".to_string());
    assert_eq!(acts.len(), 1);
    assert!(matches!(&acts[0], RelayAction::SendDm { dm: 10, .. }));
    assert_eq!(store.get_ticket_by_thread(20), None);
    assert_eq!(store.get_ticket_by_dm(10), Some(TicketChannels { dm: 10, thread: 30 }));
}

#[test]
fn mirror_failure_of_other_kinds_changes_nothing() {
    let mut store = TicketStore::new();
    open_ticket(&mut store, 10, 20, &"open".to_string());
    let r = on_mirror_failed(&mut store, 20, ApiError::Other);
    assert_eq!(r, MirrorRecovery::Surface);
    assert_eq!(store.get_ticket_by_thread(20), Some(TicketChannels { dm: 10, thread: 20 }));
}

#[test]
fn edit_with_no_counterpart_surfaces_the_dedicated_condition() {
    let store = TicketStore::new();
    let r = on_message_edit(&store, 12345, &"wumpus".to_string(), &"new text".to_string(), false);
    assert!(r.is_err());
}

#[test]
fn edit_propagates_to_the_other_side() {
    let mut store = TicketStore::new();
    open_ticket(&mut store, 10, 20, &"open".to_string());
    on_mirror_delivered(&mut store, 10, 100, 20, 200, MirrorSide::FromDm);
    match on_message_edit(&store, 100, &"wumpus".to_string(), &"edited".to_string(), false).unwrap() {
        EditStep::EditThread { thread_chan, thread_msg, content } => {
            assert_eq!(thread_chan, 20);
            assert_eq!(thread_msg, 200);
            assert_eq!(content, "wumpus: edited");
        }
        _ => panic!("expected propagation to the thread side"),
    }
    match on_message_edit(&store, 200, &"staff".to_string(), &"edited again".to_string(), false).unwrap() {
        EditStep::EditDm { dm_chan, dm_msg, content } => {
            assert_eq!(dm_chan, 10);
            assert_eq!(dm_msg, 100);
            assert_eq!(content, "edited again");
        }
        _ => panic!("expected propagation to the private side"),
    }
}

#[test]
fn bot_edit_is_ignored() {
    let store = TicketStore::new();
    let r = on_message_edit(&store, 1, &"me".to_string(), &"x".to_string(), true).unwrap();
    assert!(matches!(r, EditStep::Ignore));
}

#[test]
fn attachments_batch_five_link_buttons_per_row() {
    for (n, expected_rows) in [(0usize, 0usize), (1, 1), (5, 1), (6, 2), (11, 3)] {
        let urls: Vec<String> = (0..n).map(|i| format!("https://cdn.example/{i}")).collect();
        let rows = attachment_rows(&urls);
        assert_eq!(rows.len(), expected_rows);
        let mut seen = 0usize;
        for (r, row) in rows.iter().enumerate() {
            assert!(row.items.len() <= 5);
            if r + 1 < rows.len() {
                assert_eq!(row.items.len(), 5);
            }
            for item in &row.items {
                match item {
                    RowItem::Button(b) => {
                        assert_eq!(b.style, ButtonStyle::Link);
                        assert_eq!(b.url.as_deref(), Some(format!("https://cdn.example/{seen}").as_str()));
                        assert!(b.custom_id.is_none());
                        assert!(!b.disabled);
                    }
                    _ => panic!("expected a link button"),
                }
                seen += 1;
            }
        }
        assert_eq!(seen, n);
    }
}
