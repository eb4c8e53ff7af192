//! What the rest of the service can ask of the brightness controller.
use vstd::prelude::*;

verus! {

/// A request to the brightness controller. The static string, where there is one, names the
/// source of the request and is for the log only.
pub enum Message {
    /// Stop the controller.
    Shutdown,
    /// Apply the brightness again.
    Refresh(&'static str),
    /// Leave the screens alone until enabled again.
    Disable(&'static str),
    /// Look after the screens again.
    Enable(&'static str),
    /// End a pause.
    Unpause(&'static str),
    /// Show the day brightness for so many seconds, or until the next sunrise if negative.
    Pause(&'static str, i64),
    /// A window fills the monitor with this name.
    FullscreenAdd(String),
    /// No window fills the monitor with this name any more.
    FullscreenRemove(String),
}

/// The contents of a `Message`.
pub ghost enum MessageView {
    Shutdown,
    Refresh(Seq<char>),
    Disable(Seq<char>),
    Enable(Seq<char>),
    Unpause(Seq<char>),
    Pause(Seq<char>, int),
    FullscreenAdd(Seq<char>),
    FullscreenRemove(Seq<char>),
}

impl View for Message {
    type V = MessageView;

    open spec fn view(&self) -> MessageView {
        match *self {
            Message::Shutdown => MessageView::Shutdown,
            Message::Refresh(source) => MessageView::Refresh(source@),
            Message::Disable(source) => MessageView::Disable(source@),
            Message::Enable(source) => MessageView::Enable(source@),
            Message::Unpause(source) => MessageView::Unpause(source@),
            Message::Pause(source, secs) => MessageView::Pause(source@, secs as int),
            Message::FullscreenAdd(monitor) => MessageView::FullscreenAdd(monitor@),
            Message::FullscreenRemove(monitor) => MessageView::FullscreenRemove(monitor@),
        }
    }
}

/// The view of an optional message.
pub open spec fn optional(message: Option<Message>) -> Option<MessageView> {
    match message {
        Some(message) => Some(message@),
        None => None,
    }
}

/// A message is seen as what it is: of the same kind, with the same contents.
pub proof fn messages_are_seen_as_they_are(
    source: &'static str,
    secs: i64,
    monitor: String,
)
    ensures
        Message::Shutdown@ == MessageView::Shutdown,
        Message::Refresh(source)@ == MessageView::Refresh(source@),
        Message::Disable(source)@ == MessageView::Disable(source@),
        Message::Enable(source)@ == MessageView::Enable(source@),
        Message::Unpause(source)@ == MessageView::Unpause(source@),
        Message::Pause(source, secs)@ == MessageView::Pause(source@, secs as int),
        Message::FullscreenAdd(monitor)@ == MessageView::FullscreenAdd(monitor@),
        Message::FullscreenRemove(monitor)@ == MessageView::FullscreenRemove(monitor@),
        optional(Some(Message::FullscreenAdd(monitor))) == Some(
            MessageView::FullscreenAdd(monitor@),
        ),
        optional(Some(Message::FullscreenRemove(monitor))) == Some(
            MessageView::FullscreenRemove(monitor@),
        ),
        optional(None) == None::<MessageView>,
{
}

} // verus!
