//! What is sent from one terminal to the others.

use vstd::prelude::*;

verus! {

/// One line of the chat.
#[derive(Debug, Clone)]
pub struct ChatMessage {
    /// Who wrote it.
    pub username: String,
    /// What it says.
    pub content: String,
    /// When it was written, as hours, minutes and seconds.
    pub timestamp: String,
    /// Whether a user wrote it or the server.
    pub message_type: MessageType,
}

/// The kinds of messages.
#[derive(Debug, Clone)]
pub enum MessageType {
    /// A line that a user typed.
    UserMessage,
    /// A note of the server: somebody came or went.
    SystemNotification,
}

} // verus!
