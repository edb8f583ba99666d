//! The records the server keeps: notes, users, notifications, invitations and
//! the servers it federates with.
pub mod invite;
pub mod note;
pub mod notification;
pub mod server_mutuals;
pub mod status;
pub mod user;
