//! Notifications and who has seen them.
use vstd::prelude::*;

verus! {

/// A stored notification.
#[derive(Clone)]
pub struct Notification {
    pub id: i32,
    pub notification_html: String,
    /// A message sent to everyone.
    pub server_message: bool,
    pub created_time: String,
}

/// Whether user `user_id` has seen notification `notification_id`.
#[derive(Clone)]
pub struct NotificationViewer {
    pub notification_id: i32,
    pub user_id: i32,
    pub viewed: bool,
}

/// A notification ready to be stored.
pub struct NewNotification {
    pub notification_html: String,
    pub server_message: bool,
}

/// A notification's recipient, ready to be stored.
pub struct NewNotificationViewer {
    pub notification_id: i32,
    pub user_id: i32,
    pub viewed: bool,
}

} // verus!
