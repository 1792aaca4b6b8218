use tgbot::{
    dispatch, EditedMessage, LinkMessage, Message, Store, Update, WChat, WEditedMessage,
    WMessage, WUpdate,
};

fn text_update(update_id: i64, chat_id: i64, message_id: i64, text: &str) -> WUpdate {
    WUpdate {
        update_id,
        message: Some(WMessage {
            message_id,
            text: text.to_string(),
            chat: WChat { id: chat_id },
        }),
        callback_query: None,
        edited_message: None,
    }
}

fn edit_update(update_id: i64, message_id: i64, text: &str) -> WUpdate {
    WUpdate {
        update_id,
        message: None,
        callback_query: None,
        edited_message: Some(WEditedMessage { message_id, text: text.to_string() }),
    }
}

#[test]
fn insert_with_seen_id_keeps_first_text() {
    let mut store = Store::new(0);
    assert!(Message::new("first".to_string(), 5, 10).insert(&mut store));
    assert!(!Message::new("second".to_string(), 5, 10).insert(&mut store));
    let m = Message::select_first_user_message_by_chat_id(5, &store).unwrap();
    assert_eq!(m.message_id, 10);
    assert_eq!(m.text, "first");
    assert!(Message::select_next_message(5, &store, 10).is_none());
    assert!(Message::select_last_message(5, &store, 10).is_none());
}

#[test]
fn edit_rewrites_archived_text() {
    let mut store = Store::new(0);
    dispatch(&mut store, &text_update(1, 7, 42, "a"));
    let r = dispatch(&mut store, &edit_update(2, 42, "b"));
    assert_eq!(r.edited, Some(true));
    let m = Message::select_first_user_message_by_chat_id(7, &store).unwrap();
    assert_eq!(m.message_id, 42);
    assert_eq!(m.text, "b");
    assert!(Message::select_next_message(7, &store, 42).is_none());
    assert!(Message::select_last_message(7, &store, 42).is_none());
}

#[test]
fn edit_of_unknown_id_changes_nothing() {
    let mut store = Store::new(0);
    Message::new("keep".to_string(), 1, 3).insert(&mut store);
    assert!(!EditedMessage::new(4, "other".to_string()).change_message_text(&mut store));
    let m = Message::select_first_user_message_by_chat_id(1, &store).unwrap();
    assert_eq!(m.text, "keep");
}

#[test]
fn cursor_moves_past_each_update() {
    let mut store = Store::new(0);
    dispatch(&mut store, &text_update(17, 1, 1, "hello"));
    assert_eq!(Update::get_last_update(&store).update_id, 18);
    // an edit that matches nothing still moves the cursor
    let r = dispatch(&mut store, &edit_update(30, 999, "x"));
    assert_eq!(r.edited, Some(false));
    assert_eq!(Update::get_last_update(&store).update_id, 31);
    // so does an update that carries nothing
    let empty = WUpdate { update_id: 40, message: None, callback_query: None, edited_message: None };
    dispatch(&mut store, &empty);
    assert_eq!(Update::get_last_update(&store).update_id, 41);
    Update::new(1, 5).insert(&mut store);
    let cur = Update::get_last_update(&store);
    assert_eq!(cur.update_id, 6);
    assert_eq!(cur.id, 1);
}

#[test]
fn lookups_stay_inside_the_chat() {
    let mut store = Store::new(0);
    for (chat, id) in [(1, 9), (2, 4), (1, 3), (2, 8), (1, 7)] {
        Message::new(format!("m{}", id), chat, id).insert(&mut store);
    }
    assert_eq!(Message::select_first_user_message_by_chat_id(1, &store).unwrap().message_id, 3);
    assert_eq!(Message::select_first_user_message_by_chat_id(2, &store).unwrap().message_id, 4);
    assert_eq!(Message::select_next_message(1, &store, 3).unwrap().message_id, 7);
    assert_eq!(Message::select_next_message(2, &store, 4).unwrap().message_id, 8);
    assert_eq!(Message::select_last_message(1, &store, 7).unwrap().message_id, 3);
    assert_eq!(Message::select_last_message(1, &store, 9).unwrap().text, "m7");
    assert!(Message::select_last_message(2, &store, 4).is_none());
    assert!(Message::select_first_user_message_by_chat_id(3, &store).is_none());
}

#[test]
fn one_link_per_chat_first_write_wins() {
    let mut store = Store::new(0);
    assert!(LinkMessage::new(100, "history".to_string(), 1, 3).insert(&mut store));
    assert!(!LinkMessage::new(101, "next".to_string(), 1, 7).insert(&mut store));
    assert!(LinkMessage::new(100, "history".to_string(), 2, 3).insert(&mut store));
    let l = LinkMessage::delete_and_return_link(&mut store, 1).unwrap();
    assert_eq!(l.id, 100);
    assert_eq!(l.message_id, 3);
    assert!(LinkMessage::delete_and_return_link(&mut store, 1).is_none());
    assert!(LinkMessage::delete_and_return_link(&mut store, 2).is_some());
}
