//! What the window system has to say, and what of it concerns the brightness controller.
use crate::message::{optional, Message, MessageView};
use crate::wide::{decode_lossy, until_nul, wchar_to_string};
use vstd::prelude::*;

verus! {

/// The first window message that a program may give a meaning of its own.
pub const WM_APP: u32 = 0x8000;

/// The window message that comes when the resolution of a display has changed.
pub const WM_DISPLAYCHANGE: u32 = 0x007E;

/// The window message that comes when a session changes its state.
pub const WM_WTSSESSION_CHANGE: u32 = 0x02B1;

/// The state of a session that has been locked.
pub const WTS_SESSION_LOCK: u32 = 0x7;

/// The state of a session that has been unlocked.
pub const WTS_SESSION_UNLOCK: u32 = 0x8;

/// The window message that ends the message loop of the watcher.
pub const EXIT_LOOP: u32 = WM_APP + 999;

/// What the watcher keeps between two calls from the window system.
#[derive(Clone, Copy, Debug, PartialEq, Eq, Structural)]
pub struct WindowData {
    /// The window message by which another instance asks for the window to be opened.
    pub open_window_msg_code: u32,
    /// Whether there is a window to be opened.
    pub has_main_loop: bool,
    /// Whether the foreground window filled its monitor when it was last looked at.
    pub is_foreground_window_fullscreen: bool,
}

/// What a window message asks for, before it goes on to the default procedure.
pub enum WindowAction {
    /// Nothing.
    Ignore,
    /// Tell the brightness controller.
    Send(Message),
    /// End the message loop.
    Quit,
    /// Open the window, for the reason given.
    OpenWindow(&'static str),
}

/// The contents of a `WindowAction`.
pub ghost enum WindowActionView {
    Ignore,
    Send(MessageView),
    Quit,
    OpenWindow(Seq<char>),
}

impl View for WindowAction {
    type V = WindowActionView;

    open spec fn view(&self) -> WindowActionView {
        match *self {
            WindowAction::Ignore => WindowActionView::Ignore,
            WindowAction::Send(message) => WindowActionView::Send(message@),
            WindowAction::Quit => WindowActionView::Quit,
            WindowAction::OpenWindow(reason) => WindowActionView::OpenWindow(reason@),
        }
    }
}

/// What a window message asks for. Of `wparam` only the lower 32 bits count, and a message that
/// has a fixed meaning keeps it even if `open_window_msg_code` happens to be the same.
pub open spec fn window_action(data: WindowData, message: u32, wparam: int) -> WindowActionView {
    if message == WM_DISPLAYCHANGE {
        WindowActionView::Send(MessageView::Refresh("WM_DISPLAYCHANGE"@))
    } else if message == EXIT_LOOP {
        WindowActionView::Quit
    } else if message == WM_WTSSESSION_CHANGE {
        if wparam % 0x1_0000_0000 == WTS_SESSION_LOCK {
            WindowActionView::Send(MessageView::Disable("WTS_SESSION_LOCK"@))
        } else if wparam % 0x1_0000_0000 == WTS_SESSION_UNLOCK {
            WindowActionView::Send(MessageView::Enable("WTS_SESSION_UNLOCK"@))
        } else {
            WindowActionView::Ignore
        }
    } else if message == data.open_window_msg_code && data.has_main_loop {
        WindowActionView::OpenWindow("Broadcast Message"@)
    } else {
        WindowActionView::Ignore
    }
}

/// Decides what to do about a window message.
pub fn wndproc(data: &WindowData, message: u32, wparam: usize) -> (action: WindowAction)
    ensures
        action@ == window_action(*data, message, wparam as int),
{
    if message == WM_DISPLAYCHANGE {
        WindowAction::Send(Message::Refresh("WM_DISPLAYCHANGE"))
    } else if message == EXIT_LOOP {
        WindowAction::Quit
    } else if message == WM_WTSSESSION_CHANGE {
        let session: u32 = #[verifier::truncate] (wparam as u32);
        assert(session as int == wparam as int % 0x1_0000_0000) by {
            let wide: u64 = wparam as u64;
            assert(wide as u32 == wide % 0x1_0000_0000) by (bit_vector);
            assert(wparam as u32 == wide as u32);
        }
        if session == WTS_SESSION_LOCK {
            WindowAction::Send(Message::Disable("WTS_SESSION_LOCK"))
        } else if session == WTS_SESSION_UNLOCK {
            WindowAction::Send(Message::Enable("WTS_SESSION_UNLOCK"))
        } else {
            WindowAction::Ignore
        }
    } else if message == data.open_window_msg_code && data.has_main_loop {
        WindowAction::OpenWindow("Broadcast Message")
    } else {
        WindowAction::Ignore
    }
}

/// A rectangle on the desktop.
#[derive(Clone, Copy, Debug, PartialEq, Eq, Structural)]
pub struct Rect {
    pub left: i32,
    pub top: i32,
    pub right: i32,
    pub bottom: i32,
}

/// What the watcher tells the controller when the foreground window changes from one that did
/// (or did not) fill its monitor to one that does (or does not) fill the monitor `name`.
pub open spec fn fullscreen_change(was: bool, is: bool, name: Seq<char>) -> Option<MessageView> {
    if was == is {
        None
    } else if is {
        Some(MessageView::FullscreenAdd(name))
    } else {
        Some(MessageView::FullscreenRemove(name))
    }
}

/// Whether the watcher goes from `pre` to `post`, and tells the controller `message`, when a
/// window at `window` comes to the foreground on the monitor at `monitor` with the name in
/// `device`.
pub open spec fn foreground_step(
    pre: WindowData,
    window: Rect,
    monitor: Rect,
    device: Seq<u16>,
    post: WindowData,
    message: Option<MessageView>,
) -> bool {
    &&& post == WindowData { is_foreground_window_fullscreen: window == monitor, ..pre }
    &&& message == fullscreen_change(
        pre.is_foreground_window_fullscreen,
        window == monitor,
        decode_lossy(until_nul(device)),
    )
}

/// Takes note of another foreground window. `window` is where it is, `monitor` and `device` are
/// the rectangle and the name of the monitor it is on.
pub fn win_event_hook_proc(
    data: &mut WindowData,
    window: &Rect,
    monitor: &Rect,
    device: &[u16],
) -> (message: Option<Message>)
    ensures
        final(data).is_foreground_window_fullscreen == (*window == *monitor),
        final(data).open_window_msg_code == old(data).open_window_msg_code,
        final(data).has_main_loop == old(data).has_main_loop,
        optional(message) == fullscreen_change(
            old(data).is_foreground_window_fullscreen,
            *window == *monitor,
            decode_lossy(until_nul(device@)),
        ),
        foreground_step(*old(data), *window, *monitor, device@, *final(data), optional(message)),
{
    let is_fullscreen: bool = window.left == monitor.left && window.top == monitor.top
        && window.right == monitor.right && window.bottom == monitor.bottom;
    let display_name = wchar_to_string(device);
    if data.is_foreground_window_fullscreen == is_fullscreen {
        return None;
    }
    data.is_foreground_window_fullscreen = is_fullscreen;
    if is_fullscreen {
        Some(Message::FullscreenAdd(display_name))
    } else {
        Some(Message::FullscreenRemove(display_name))
    }
}

/// A display change always refreshes the brightness.
pub proof fn a_display_change_always_refreshes(data: WindowData, wparam: int)
    ensures
        window_action(data, 0x7E, wparam) == WindowActionView::Send(
            MessageView::Refresh("WM_DISPLAYCHANGE"@),
        ),
{
}

/// A lock always disables the controller, an unlock always enables it, and no other change of a
/// session does anything.
pub proof fn a_session_change_always_counts(data: WindowData, wparam: int)
    ensures
        wparam % 4_294_967_296 == 7 ==> window_action(data, 0x2B1, wparam)
            == WindowActionView::Send(MessageView::Disable("WTS_SESSION_LOCK"@)),
        wparam % 4_294_967_296 == 8 ==> window_action(data, 0x2B1, wparam)
            == WindowActionView::Send(MessageView::Enable("WTS_SESSION_UNLOCK"@)),
        wparam % 4_294_967_296 != 7 && wparam % 4_294_967_296 != 8 ==> window_action(
            data,
            0x2B1,
            wparam,
        ) is Ignore,
{
}

/// The message loop is ended by its own message, and by no other.
pub proof fn only_the_exit_message_quits(data: WindowData, message: u32, wparam: int)
    ensures
        window_action(data, message, wparam) is Quit <==> message == 0x8000 + 999,
{
}

/// The message by which another instance asks for the window opens it exactly when there is one;
/// any other message without a fixed meaning is ignored.
pub proof fn other_messages_open_the_window_or_nothing(data: WindowData, message: u32, wparam: int)
    requires
        message != 0x7E,
        message != 0x2B1,
        message != 0x8000 + 999,
    ensures
        message == data.open_window_msg_code && data.has_main_loop ==> window_action(
            data,
            message,
            wparam,
        ) == WindowActionView::OpenWindow("Broadcast Message"@),
        message != data.open_window_msg_code || !data.has_main_loop ==> window_action(
            data,
            message,
            wparam,
        ) is Ignore,
{
}

/// What a window message asks for does not depend on whether the foreground window fills its
/// monitor, nor on the upper half of the parameter, nor, unless it is about a session, on the
/// parameter at all.
pub proof fn what_does_not_count_for_window_messages(
    data: WindowData,
    fullscreen: bool,
    message: u32,
    wparam: int,
    upper: int,
    other: int,
)
    ensures
        window_action(
            WindowData { is_foreground_window_fullscreen: fullscreen, ..data },
            message,
            wparam,
        ) == window_action(data, message, wparam),
        window_action(data, message, wparam + upper * 4_294_967_296) == window_action(
            data,
            message,
            wparam,
        ),
        message != 0x2B1 ==> window_action(data, message, other) == window_action(
            data,
            message,
            wparam,
        ),
{
}

/// An action is seen as what it is.
pub proof fn actions_are_seen_as_they_are(message: Message, reason: &'static str)
    ensures
        WindowAction::Ignore@ == WindowActionView::Ignore,
        WindowAction::Send(message)@ == WindowActionView::Send(message@),
        WindowAction::Quit@ == WindowActionView::Quit,
        WindowAction::OpenWindow(reason)@ == WindowActionView::OpenWindow(reason@),
{
}

/// The controller hears of a foreground window exactly when it fills its monitor and the one
/// before did not, or the other way round; and it is told which of the two, and the monitor.
pub proof fn a_change_of_fullscreen_is_always_reported(was: bool, is: bool, name: Seq<char>)
    ensures
        fullscreen_change(was, is, name) is Some <==> was != is,
        fullscreen_change(false, true, name) == Some(MessageView::FullscreenAdd(name)),
        fullscreen_change(true, false, name) == Some(MessageView::FullscreenRemove(name)),
{
}

/// A window fills its monitor exactly if all four edges are those of the monitor. The watcher
/// keeps that in mind and nothing else, and tells the controller exactly when it has changed:
/// that a window fills, or none fills any more, the monitor whose name the buffer holds up to its
/// first NUL.
pub proof fn a_foreground_window_is_held_against_its_monitor(
    pre: WindowData,
    window: Rect,
    monitor: Rect,
    device: Seq<u16>,
    post: WindowData,
    message: Option<MessageView>,
)
    requires
        foreground_step(pre, window, monitor, device, post, message),
    ensures
        post.is_foreground_window_fullscreen <==> (window.left == monitor.left && window.top
            == monitor.top && window.right == monitor.right && window.bottom == monitor.bottom),
        post.open_window_msg_code == pre.open_window_msg_code,
        post.has_main_loop == pre.has_main_loop,
        message is Some <==> post.is_foreground_window_fullscreen
            != pre.is_foreground_window_fullscreen,
        message matches Some(told) ==> if post.is_foreground_window_fullscreen {
            told == MessageView::FullscreenAdd(decode_lossy(until_nul(device)))
        } else {
            told == MessageView::FullscreenRemove(decode_lossy(until_nul(device)))
        },
{
}

} // verus!
