//! The rules of a chat server: which requests it takes, what they have to pass, and how each is
//! handled.
//!
//! A request (`requests`) is looked up by its path (`routes`), put through the checks of its route
//! (`admission`), and handed to a handler (`handlers`). A handler is a state machine (`flow`): it
//! asks for one action after the other, and decides on what came of each. The server around the
//! library performs the actions.

pub mod admission;
pub mod channels;
pub mod cors;
pub mod effects;
pub mod flow;
pub mod guilds;
pub mod handlers;
pub mod laws;
pub mod limiter;
pub mod members;
pub mod messages;
pub mod model;
pub mod path;
pub mod reply;
pub mod requests;
pub mod routes;
pub mod secret;
pub mod stored;
pub mod text;
pub mod users;
