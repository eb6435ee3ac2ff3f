//! A message as the server pushes it, and the notification shown for it.

use vstd::prelude::*;
use vstd::string::*;

verus! {

/// Priority from which a message is announced with a sound.
pub const HIGH_PRIORITY: u32 = 5;

/// One message received from the server. It lives from the frame that
/// carried it to the effects that the frame causes.
#[derive(Debug, PartialEq, Eq)]
pub struct InboundMessage {
    pub id: u64,
    /// The application on the server that sent it.
    pub app_id: u64,
    pub body: String,
    pub title: String,
    /// Usually 0 to 10.
    pub priority: u32,
    /// When the server took it in, as the server wrote it.
    pub timestamp: String,
}

impl Clone for InboundMessage {
    fn clone(&self) -> (r: Self)
        ensures
            r == *self,
    {
        InboundMessage {
            id: self.id,
            app_id: self.app_id,
            body: self.body.clone(),
            title: self.title.clone(),
            priority: self.priority,
            timestamp: self.timestamp.clone(),
        }
    }
}

/// The sound that goes with a notification.
#[derive(Debug, Clone, Copy, PartialEq, Eq)]
pub enum Sound {
    /// The system's default sound.
    Default,
}

impl Sound {
    /// The name by which the notification service knows this sound.
    pub fn name(&self) -> (r: &'static str)
        ensures
            r@ == "default"@,
    {
        "default"
    }
}

/// What the operating system is asked to show.
#[derive(Debug, PartialEq, Eq)]
pub struct Notification {
    pub title: String,
    pub body: String,
    pub sound: Option<Sound>,
}

/// Whether a message of this priority is announced with a sound.
pub open spec fn is_high(priority: u32) -> bool {
    priority >= HIGH_PRIORITY
}

/// The notification for a message: its title and body, and the default
/// sound exactly when its priority is high.
pub open spec fn notification_for(message: InboundMessage) -> Notification {
    Notification {
        title: message.title,
        body: message.body,
        sound: if is_high(message.priority) {
            Some(Sound::Default)
        } else {
            None
        },
    }
}

impl InboundMessage {
    /// Builds the notification for this message.
    pub fn notification(&self) -> (r: Notification)
        ensures
            r == notification_for(*self),
    {
        let sound = if self.priority >= HIGH_PRIORITY {
            Some(Sound::Default)
        } else {
            None
        };
        Notification { title: self.title.clone(), body: self.body.clone(), sound }
    }
}

} // verus!
