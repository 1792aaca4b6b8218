use vstd::prelude::*;

use crate::models::{
    above_ids, below_ids, is_highest_in, is_lowest_in, linked, window_occupied, LinkMessage,
    Message, Store,
};
use crate::web::{InlineKeyboardMarkup, KeyboardButton, WButtons};

verus! {

/// The three paging commands of the navigation card.
#[derive(Clone, Copy, Debug, PartialEq, Eq, Structural)]
pub enum Navigation {
    /// Show the first archived message of the chat.
    History,
    /// Show the archived message after the one on the card.
    Next,
    /// Show the archived message before the one on the card.
    Last,
}

/// The first half of a paging transition: the link that was taken down and the archived
/// message the new card is to show.
#[derive(Clone, Debug)]
pub struct NavPlan {
    pub chat_id: i64,
    pub kind: Navigation,
    /// The chat's previous card; its remote message is to be deleted.
    pub removed: Option<LinkMessage>,
    /// The archived message for the new card; `None` ends the transition without a card.
    pub target: Option<Message>,
}

/// `target` is what a `kind` transition in chat `chat_id` shows, over archive `s`, once
/// `removed` was taken down.
pub open spec fn is_target(
    s: Seq<Message>,
    chat_id: i64,
    kind: Navigation,
    removed: Option<LinkMessage>,
    target: Option<Message>,
) -> bool {
    match kind {
        Navigation::History => match target {
            Some(m) => is_lowest_in(s, m, chat_id, below_ids(), above_ids()),
            None => !window_occupied(s, chat_id, below_ids(), above_ids()),
        },
        Navigation::Next => match removed {
            Some(l) => match target {
                Some(m) => is_lowest_in(s, m, chat_id, l.message_id as int, above_ids()),
                None => !window_occupied(s, chat_id, l.message_id as int, above_ids()),
            },
            None => target is None,
        },
        Navigation::Last => match removed {
            Some(l) => match target {
                Some(m) => is_highest_in(s, m, chat_id, below_ids(), l.message_id as int),
                None => !window_occupied(s, chat_id, below_ids(), l.message_id as int),
            },
            None => target is None,
        },
    }
}

/// The label recorded with a link made by a `kind` transition.
pub open spec fn label_of(kind: Navigation) -> Seq<char> {
    match kind {
        Navigation::History => "history"@,
        Navigation::Next => "next"@,
        Navigation::Last => "last"@,
    }
}

/// `b` posts `text` to chat `chat_id` with one row of two buttons, "next" and "last",
/// whose callback data are the commands `/next` and `/last`.
pub open spec fn is_card(b: WButtons, chat_id: i64, text: Seq<char>) -> bool {
    let rows = b.reply_markup.inline_keyboard@;
    &&& b.chat_id == chat_id
    &&& b.text@ == text
    &&& rows.len() == 1
    &&& rows[0]@.len() == 2
    &&& rows[0]@[0].text@ == "next"@
    &&& rows[0]@[0].callback_data@ == "/next"@
    &&& rows[0]@[1].text@ == "last"@
    &&& rows[0]@[1].callback_data@ == "/last"@
}

/// The control message that shows `link_text` in chat `chat_id` with its paging buttons.
pub fn create_buttons(chat_id: i64, link_text: String) -> (r: WButtons)
    ensures
        is_card(r, chat_id, link_text@),
{
    let row = vec![
        KeyboardButton::new("next".to_owned(), "/next".to_owned()),
        KeyboardButton::new("last".to_owned(), "/last".to_owned()),
    ];
    WButtons::new(chat_id, link_text, InlineKeyboardMarkup::new(vec![row]))
}

/// Starts a paging transition in chat `chat_id`: takes down the chat's link and picks the
/// archived message for the new card. `History` starts from the first message of the chat;
/// `Next` and `Last` step from the message of the removed card, and pick nothing when the
/// chat had no card.
pub fn plan_navigation(store: &mut Store, chat_id: i64, kind: Navigation) -> (r: NavPlan)
    requires
        old(store).wf(),
    ensures
        final(store).wf(),
        r.chat_id == chat_id,
        r.kind == kind,
        !linked(final(store).links(), chat_id),
        match r.removed {
            Some(l) => {
                &&& l.chat_id == chat_id
                &&& exists|i: int|
                    0 <= i < old(store).links().len() && old(store).links()[i] == l
                        && final(store).links() == old(store).links().remove(i)
            },
            None => !linked(old(store).links(), chat_id) && final(store).links() == old(
                store,
            ).links(),
        },
        is_target(old(store).messages(), chat_id, kind, r.removed, r.target),
        final(store).messages() == old(store).messages(),
        final(store).cursor() == old(store).cursor(),
{
    let removed = LinkMessage::delete_and_return_link(store, chat_id);
    let target = match kind {
        Navigation::History => Message::select_first_user_message_by_chat_id(chat_id, store),
        Navigation::Next => match &removed {
            Some(l) => Message::select_next_message(chat_id, store, l.message_id),
            None => None,
        },
        Navigation::Last => match &removed {
            Some(l) => Message::select_last_message(chat_id, store, l.message_id),
            None => None,
        },
    };
    NavPlan { chat_id, kind, removed, target }
}

/// Completes a paging transition once the new card was posted as remote message `posted`
/// (`None`: no card was posted). Records the link from the card to the planned message and
/// returns it; records nothing when there is no target, no card, or the chat already has a
/// link again.
pub fn finish_navigation(store: &mut Store, plan: &NavPlan, posted: Option<i64>) -> (r: Option<
    LinkMessage,
>)
    requires
        old(store).wf(),
    ensures
        final(store).wf(),
        match (plan.target, posted) {
            (Some(t), Some(card)) => if linked(old(store).links(), plan.chat_id) {
                r is None
            } else {
                r matches Some(l) && l.id == card && l.chat_id == plan.chat_id && l.message_id
                    == t.message_id && l.text@ == label_of(plan.kind)
            },
            _ => r is None,
        },
        final(store).links() == match r {
            Some(l) => old(store).links().push(l),
            None => old(store).links(),
        },
        final(store).messages() == old(store).messages(),
        final(store).cursor() == old(store).cursor(),
{
    match (&plan.target, posted) {
        (Some(t), Some(card)) => {
            let label = match plan.kind {
                Navigation::History => "history".to_owned(),
                Navigation::Next => "next".to_owned(),
                Navigation::Last => "last".to_owned(),
            };
            let link = LinkMessage::new(card, label, plan.chat_id, t.message_id);
            if link.insert(store) {
                Some(link)
            } else {
                None
            }
        },
        _ => None,
    }
}

} // verus!
