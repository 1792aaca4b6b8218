use vstd::prelude::*;

use crate::models::{archived, with_archived, with_edit, EditedMessage, Message, Store, Update};
use crate::navigation::Navigation;
use crate::web::WUpdate;

verus! {

/// A paging transition that an update asks for in chat `chat_id`.
#[derive(Clone, Copy, Debug, PartialEq, Eq, Structural)]
pub struct NavRequest {
    pub chat_id: i64,
    pub kind: Navigation,
}

/// What dispatching one update did to the archive and which transitions it asks for.
#[derive(Clone, Debug)]
pub struct Dispatched {
    /// For an edit event: whether an archived message matched its id.
    pub edited: Option<bool>,
    /// For a plain text message: whether it was added to the archive.
    pub archived: Option<bool>,
    /// The paging transitions to run, in order.
    pub navigation: Vec<NavRequest>,
}

/// The command that a message text stands for.
pub open spec fn text_command(text: Seq<char>) -> Option<Navigation> {
    if text == "/history"@ {
        Some(Navigation::History)
    } else if text == "/next"@ {
        Some(Navigation::Next)
    } else if text == "/last"@ {
        Some(Navigation::Last)
    } else {
        None
    }
}

/// The command that the data of a button press stands for.
pub open spec fn button_command(data: Seq<char>) -> Option<Navigation> {
    if data == "/next"@ {
        Some(Navigation::Next)
    } else if data == "/last"@ {
        Some(Navigation::Last)
    } else {
        None
    }
}

/// The transitions that update `u` asks for: the one of its message, then the one of its
/// button press.
pub open spec fn nav_requests(u: WUpdate) -> Seq<NavRequest> {
    let from_message = match u.message {
        Some(m) => match text_command(m.text@) {
            Some(k) => seq![NavRequest { chat_id: m.chat.id, kind: k }],
            None => Seq::empty(),
        },
        None => Seq::empty(),
    };
    let from_button = match u.callback_query {
        Some(c) => match button_command(c.data@) {
            Some(k) => seq![NavRequest { chat_id: c.message.chat.id, kind: k }],
            None => Seq::empty(),
        },
        None => Seq::empty(),
    };
    from_message + from_button
}

/// The archive after the edit of `u`, if any.
pub open spec fn after_edit(s: Seq<Message>, u: WUpdate) -> Seq<Message> {
    match u.edited_message {
        Some(e) => with_edit(s, e.message_id, e.text),
        None => s,
    }
}

/// The archive after `u`: its edit first, then its plain text message.
pub open spec fn after_update(s: Seq<Message>, u: WUpdate) -> Seq<Message> {
    let s1 = after_edit(s, u);
    match u.message {
        Some(m) => if text_command(m.text@) is None {
            with_archived(s1, Message { text: m.text, chat_id: m.chat.id, message_id: m.message_id })
        } else {
            s1
        },
        None => s1,
    }
}

/// The command that a message text stands for.
pub fn command_of_text(text: &String) -> (r: Option<Navigation>)
    ensures
        r == text_command(text@),
{
    if text.eq(&"/history".to_owned()) {
        Some(Navigation::History)
    } else if text.eq(&"/next".to_owned()) {
        Some(Navigation::Next)
    } else if text.eq(&"/last".to_owned()) {
        Some(Navigation::Last)
    } else {
        None
    }
}

/// The command that the data of a button press stands for.
pub fn command_of_button(data: &String) -> (r: Option<Navigation>)
    ensures
        r == button_command(data@),
{
    if data.eq(&"/next".to_owned()) {
        Some(Navigation::Next)
    } else if data.eq(&"/last".to_owned()) {
        Some(Navigation::Last)
    } else {
        None
    }
}

/// Processes one inbound update against the store: applies its edit, archives its plain
/// text message, moves the cursor past it, and returns the paging transitions it asks
/// for, which the caller runs with the gateway.
pub fn dispatch(store: &mut Store, update: &WUpdate) -> (r: Dispatched)
    requires
        old(store).wf(),
        update.update_id < i64::MAX,
    ensures
        final(store).wf(),
        final(store).cursor() == update.update_id + 1,
        final(store).messages() == after_update(old(store).messages(), *update),
        final(store).links() == old(store).links(),
        r.edited == match update.edited_message {
            Some(e) => Some(archived(old(store).messages(), e.message_id)),
            None => None,
        },
        r.archived == match update.message {
            Some(m) => if text_command(m.text@) is None {
                Some(!archived(after_edit(old(store).messages(), *update), m.message_id))
            } else {
                None
            },
            None => None,
        },
        r.navigation@ == nav_requests(*update),
{
    let mut navigation: Vec<NavRequest> = Vec::new();
    let edited = match &update.edited_message {
        Some(e) => {
            let edit = EditedMessage::new(e.message_id, e.text.clone());
            Some(edit.change_message_text(store))
        },
        None => None,
    };
    let archived = match &update.message {
        Some(m) => match command_of_text(&m.text) {
            Some(k) => {
                navigation.push(NavRequest { chat_id: m.chat.id, kind: k });
                None
            },
            None => {
                let msg = Message::new(m.text.clone(), m.chat.id, m.message_id);
                Some(msg.insert(store))
            },
        },
        None => None,
    };
    match &update.callback_query {
        Some(c) => match command_of_button(&c.data) {
            Some(k) => {
                navigation.push(NavRequest { chat_id: c.message.chat.id, kind: k });
            },
            None => {},
        },
        None => {},
    }
    Update::new(1, update.update_id).insert(store);
    assert(navigation@ =~= nav_requests(*update));
    Dispatched { edited, archived, navigation }
}

} // verus!
