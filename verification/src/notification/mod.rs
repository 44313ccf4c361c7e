//! Notifications: what a message holds, where it goes, and the notifier that
//! sends nothing.

pub mod feishu;
pub mod sender;
pub mod template;
