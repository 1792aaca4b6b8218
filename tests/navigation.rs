use tgbot::{
    create_buttons, dispatch, finish_navigation, plan_navigation, poll_items, GatewayReply,
    LinkMessage, Message, NavRequest, Navigation, PollError, Store, Update, WCallbackQuery,
    WChat, WMessage, WUpdate, Wrapper,
};

fn archive(store: &mut Store, chat_id: i64, ids: &[i64]) {
    for id in ids {
        Message::new(format!("text {}", id), chat_id, *id).insert(store);
    }
}

fn step(store: &mut Store, chat_id: i64, kind: Navigation, card: i64) -> Option<i64> {
    let plan = plan_navigation(store, chat_id, kind);
    let posted = plan.target.as_ref().map(|_| card);
    let link = finish_navigation(store, &plan, posted);
    assert_eq!(link.is_some(), plan.target.is_some());
    plan.target.map(|t| t.message_id)
}

fn message(update_id: i64, chat_id: i64, text: &str) -> WUpdate {
    WUpdate {
        update_id,
        message: Some(WMessage { message_id: 500, text: text.to_string(), chat: WChat { id: chat_id } }),
        callback_query: None,
        edited_message: None,
    }
}

fn press(update_id: i64, chat_id: i64, data: &str) -> WUpdate {
    WUpdate {
        update_id,
        message: None,
        callback_query: Some(WCallbackQuery {
            data: data.to_string(),
            message: WMessage { message_id: 900, text: "card".to_string(), chat: WChat { id: chat_id } },
        }),
        edited_message: None,
    }
}

#[test]
fn history_then_next_walks_forward() {
    let mut store = Store::new(0);
    archive(&mut store, 8, &[7, 3, 9]);
    assert_eq!(step(&mut store, 8, Navigation::History, 100), Some(3));
    assert_eq!(step(&mut store, 8, Navigation::Next, 101), Some(7));
    assert_eq!(step(&mut store, 8, Navigation::Next, 102), Some(9));
    let plan = plan_navigation(&mut store, 8, Navigation::Next);
    assert_eq!(plan.removed.as_ref().map(|l| l.id), Some(102));
    assert!(plan.target.is_none());
    assert!(finish_navigation(&mut store, &plan, None).is_none());
    // the chat is back to no card
    assert!(LinkMessage::delete_and_return_link(&mut store, 8).is_none());
}

#[test]
fn last_walks_backward_and_stops() {
    let mut store = Store::new(0);
    archive(&mut store, 8, &[3, 7, 9]);
    archive(&mut store, 2, &[5]);
    assert_eq!(step(&mut store, 8, Navigation::History, 100), Some(3));
    assert_eq!(step(&mut store, 8, Navigation::Next, 101), Some(7));
    assert_eq!(step(&mut store, 8, Navigation::Last, 102), Some(3));
    assert_eq!(step(&mut store, 8, Navigation::Last, 103), None);
    assert!(LinkMessage::delete_and_return_link(&mut store, 8).is_none());
}

#[test]
fn next_without_card_does_nothing() {
    let mut store = Store::new(0);
    archive(&mut store, 8, &[3, 7]);
    let plan = plan_navigation(&mut store, 8, Navigation::Next);
    assert!(plan.removed.is_none());
    assert!(plan.target.is_none());
    let plan = plan_navigation(&mut store, 8, Navigation::Last);
    assert!(plan.removed.is_none());
    assert!(plan.target.is_none());
}

#[test]
fn history_replaces_the_card() {
    let mut store = Store::new(0);
    archive(&mut store, 8, &[3, 7]);
    step(&mut store, 8, Navigation::History, 100);
    step(&mut store, 8, Navigation::Next, 101);
    let plan = plan_navigation(&mut store, 8, Navigation::History);
    let removed = plan.removed.clone().unwrap();
    assert_eq!(removed.id, 101);
    assert_eq!(removed.message_id, 7);
    assert_eq!(removed.text, "next");
    let link = finish_navigation(&mut store, &plan, Some(102)).unwrap();
    assert_eq!(link.id, 102);
    assert_eq!(link.chat_id, 8);
    assert_eq!(link.message_id, 3);
    assert_eq!(link.text, "history");
    assert!(LinkMessage::delete_and_return_link(&mut store, 8).is_some());
    assert!(LinkMessage::delete_and_return_link(&mut store, 8).is_none());
}

#[test]
fn history_of_empty_chat_posts_nothing() {
    let mut store = Store::new(0);
    let plan = plan_navigation(&mut store, 4, Navigation::History);
    assert!(plan.target.is_none());
    assert!(finish_navigation(&mut store, &plan, Some(1)).is_none());
    assert!(LinkMessage::delete_and_return_link(&mut store, 4).is_none());
}

#[test]
fn card_carries_paging_buttons() {
    let b = create_buttons(12, "hello".to_string());
    assert_eq!(b.chat_id, 12);
    assert_eq!(b.text, "hello");
    let rows = &b.reply_markup.inline_keyboard;
    assert_eq!(rows.len(), 1);
    assert_eq!(rows[0].len(), 2);
    assert_eq!(rows[0][0].text, "next");
    assert_eq!(rows[0][0].callback_data, "/next");
    assert_eq!(rows[0][1].text, "last");
    assert_eq!(rows[0][1].callback_data, "/last");
}

#[test]
fn commands_are_routed_not_archived() {
    let mut store = Store::new(0);
    let r = dispatch(&mut store, &message(1, 3, "/history"));
    assert_eq!(r.navigation, vec![NavRequest { chat_id: 3, kind: Navigation::History }]);
    assert_eq!(r.archived, None);
    let r = dispatch(&mut store, &message(2, 3, "/next"));
    assert_eq!(r.navigation, vec![NavRequest { chat_id: 3, kind: Navigation::Next }]);
    let r = dispatch(&mut store, &message(3, 3, "/last"));
    assert_eq!(r.navigation, vec![NavRequest { chat_id: 3, kind: Navigation::Last }]);
    assert!(Message::select_first_user_message_by_chat_id(3, &store).is_none());
    let r = dispatch(&mut store, &message(4, 3, "/exit"));
    assert!(r.navigation.is_empty());
    assert_eq!(r.archived, Some(true));
}

#[test]
fn button_presses_route_by_data() {
    let mut store = Store::new(0);
    let r = dispatch(&mut store, &press(1, 6, "/next"));
    assert_eq!(r.navigation, vec![NavRequest { chat_id: 6, kind: Navigation::Next }]);
    let r = dispatch(&mut store, &press(2, 6, "/last"));
    assert_eq!(r.navigation, vec![NavRequest { chat_id: 6, kind: Navigation::Last }]);
    let r = dispatch(&mut store, &press(3, 6, "other"));
    assert!(r.navigation.is_empty());
    assert_eq!(Update::get_last_update(&store).update_id, 4);
}

fn envelope(result: Option<Vec<WUpdate>>) -> Wrapper<Vec<WUpdate>> {
    Wrapper { ok: true, result, error_code: None, description: None }
}

#[test]
fn failed_poll_yields_one_error_and_keeps_cursor() {
    let store = Store::new(55);
    let items = poll_items(GatewayReply::Answered(401, Some(envelope(Some(vec![message(55, 1, "x")])))));
    assert_eq!(items.len(), 1);
    assert!(matches!(items[0], Err(PollError::Status(401))));
    assert_eq!(Update::get_last_update(&store).update_id, 55);
    let items = poll_items(GatewayReply::Unreachable);
    assert_eq!(items.len(), 1);
    assert!(matches!(items[0], Err(PollError::Transport)));
    let items = poll_items(GatewayReply::Answered(200, None));
    assert_eq!(items.len(), 1);
    assert!(matches!(items[0], Err(PollError::Decode)));
    assert_eq!(Update::get_last_update(&store).update_id, 55);
}

#[test]
fn poll_keeps_gateway_order() {
    let items = poll_items(GatewayReply::Answered(
        200,
        Some(envelope(Some(vec![message(9, 1, "a"), message(4, 1, "b"), message(6, 1, "c")]))),
    ));
    let ids: Vec<i64> = items.iter().map(|i| i.as_ref().unwrap().update_id).collect();
    assert_eq!(ids, vec![9, 4, 6]);
    assert!(poll_items(GatewayReply::Answered(200, Some(envelope(None)))).is_empty());
    assert!(poll_items(GatewayReply::Answered(204, Some(envelope(Some(vec![]))))).is_empty());
}
