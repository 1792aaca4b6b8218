//! Chat history archive with a single navigation card per chat.
//!
//! The library holds the durable state (archived messages, navigation links and the
//! update cursor) as a verified in-memory store, classifies inbound updates, plans the
//! history/next/last transitions of the navigation card, and decides what a poll cycle
//! yields. Talking to the remote gateway and to the database is left to the caller.

pub mod dispatch;
pub mod models;
pub mod navigation;
pub mod poller;
pub mod web;

pub use dispatch::{dispatch, Dispatched, NavRequest};
pub use models::{EditedMessage, LinkMessage, Message, Store, Update};
pub use navigation::{create_buttons, finish_navigation, plan_navigation, NavPlan, Navigation};
pub use poller::{poll_items, GatewayReply, PollError, CONSUMER_INTERVAL, IDLE_DELAY};
pub use web::{
    DeleteMessage, InlineKeyboardMarkup, KeyboardButton, TgClientConfig, WButtons,
    WCallbackQuery, WChat, WEditedMessage, WMessage, WUpdate, Wrapper,
};
