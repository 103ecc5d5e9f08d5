//! The decisions of the injected DLL: its client loop, which forwards what
//! the hooks report to the launcher until it is told to stop, and the
//! start-up and shut-down of its state.
use vstd::prelude::*;

use crate::backend::ClientServerMessage;
use crate::text::{string_of, trim, trim_str};

verus! {

/// The flag that tells the client loop to stop.
pub struct ClientControl {
    pub shutdown: bool,
}

impl ClientControl {
    /// A loop that is not told to stop.
    pub fn new() -> (r: ClientControl)
        ensures
            !r.shutdown,
    {
        ClientControl { shutdown: false }
    }

    /// Starting the client loop clears the flag.
    pub fn ensure_client(&mut self)
        ensures
            !final(self).shutdown,
    {
        self.shutdown = false;
    }

    /// Whether the loop stops before its next step.
    pub fn should_stop(&self) -> (r: bool)
        ensures
            r == self.shutdown,
    {
        self.shutdown
    }
}

/// Tells the client loop to stop; this cannot fail.
pub fn shutdown_client(control: &mut ClientControl) -> (r: Result<(), String>)
    ensures
        final(control).shutdown,
        r is Ok,
{
    control.shutdown = true;
    Ok(())
}

/// What the client loop's look at its queue found.
pub enum ClientLoopEvent {
    /// A message from the hooks.
    Received(ClientServerMessage),
    /// Nothing queued.
    Empty,
    /// The hooks' end of the queue is gone.
    Disconnected,
}

/// What the client loop does next.
pub enum ClientLoopAction {
    /// Send the bytes to the launcher as sent by the game.
    ForwardSendTo(Vec<u8>),
    /// Send the bytes to the launcher as received by the game.
    ForwardRecvFrom(Vec<u8>),
    /// Send the chat text to the launcher.
    ForwardChat(String),
    /// Wait and look again.
    Wait,
    /// Leave the loop.
    Stop,
}

/// The client loop's step on `event`: forward a packet or a chat line, wait
/// when nothing is queued, stop when the queue is gone. The hooks send no
/// other message (the loop would panic on a log line).
pub fn client_loop_action(event: ClientLoopEvent) -> (r: ClientLoopAction)
    requires
        event matches ClientLoopEvent::Received(m) ==> (m is HandleSendTo || m is HandleRecvFrom
            || m is HandleAddTextToScroll),
    ensures
        match event {
            ClientLoopEvent::Received(ClientServerMessage::HandleSendTo(v)) => r
                == ClientLoopAction::ForwardSendTo(v),
            ClientLoopEvent::Received(ClientServerMessage::HandleRecvFrom(v)) => r
                == ClientLoopAction::ForwardRecvFrom(v),
            ClientLoopEvent::Received(ClientServerMessage::HandleAddTextToScroll(t)) => r
                == ClientLoopAction::ForwardChat(t),
            ClientLoopEvent::Empty => r is Wait,
            _ => r is Stop,
        },
{
    match event {
        ClientLoopEvent::Received(m) => match m {
            ClientServerMessage::HandleSendTo(v) => ClientLoopAction::ForwardSendTo(v),
            ClientServerMessage::HandleRecvFrom(v) => ClientLoopAction::ForwardRecvFrom(v),
            ClientServerMessage::HandleAddTextToScroll(t) => ClientLoopAction::ForwardChat(t),
            _ => ClientLoopAction::Stop,
        },
        ClientLoopEvent::Empty => ClientLoopAction::Wait,
        ClientLoopEvent::Disconnected => ClientLoopAction::Stop,
    }
}

/// How many bytes the network hooks copy out of the game's buffer: what
/// `sendto` sent or `recvfrom` read, when that was more than nothing.
pub fn hook_bytes_to_copy(ret: i32) -> (r: Option<usize>)
    ensures
        ret > 0 ==> r == Some(ret as usize),
        ret <= 0 ==> r is None,
{
    if ret > 0 {
        Some(ret as usize)
    } else {
        None
    }
}

/// The message a chat hook sends for the text it read; the wide-character
/// hook trims the text first.
pub fn chat_hook_message(text: &str, wide: bool) -> (r: ClientServerMessage)
    ensures
        r matches ClientServerMessage::HandleAddTextToScroll(t) && t@ == if wide {
            trim(text@)
        } else {
            text@
        },
{
    if wide {
        ClientServerMessage::HandleAddTextToScroll(trim_str(text))
    } else {
        ClientServerMessage::HandleAddTextToScroll(string_of(text))
    }
}

/// The flags of the DLL's state.
pub struct DllLifecycle {
    pub init_result: bool,
    pub shutdown_requested: bool,
    pub is_initialized: bool,
}

impl DllLifecycle {
    /// Nothing started.
    pub fn new() -> (r: DllLifecycle)
        ensures
            !r.init_result,
            !r.shutdown_requested,
            !r.is_initialized,
    {
        DllLifecycle { init_result: false, shutdown_requested: false, is_initialized: false }
    }

    /// Whether start-up has work to do (it has none once initialized).
    pub fn needs_startup(&self) -> (r: bool)
        ensures
            r == !self.is_initialized,
    {
        !self.is_initialized
    }

    /// Start-up's work was done.
    pub fn finish_startup(&mut self)
        ensures
            final(self).is_initialized,
            final(self).init_result,
            final(self).shutdown_requested == old(self).shutdown_requested,
    {
        self.is_initialized = true;
        self.init_result = true;
    }

    /// Shut-down begins, if the state was initialized: the stop is
    /// requested. Tells whether there is work to do.
    pub fn begin_shutdown(&mut self) -> (r: bool)
        ensures
            r == old(self).is_initialized,
            final(self).shutdown_requested == (old(self).shutdown_requested || r),
            final(self).is_initialized == old(self).is_initialized,
            final(self).init_result == old(self).init_result,
    {
        if !self.is_initialized {
            return false;
        }
        self.shutdown_requested = true;
        true
    }

    /// Shut-down's work was done.
    pub fn finish_shutdown(&mut self)
        ensures
            !final(self).is_initialized,
            final(self).shutdown_requested == old(self).shutdown_requested,
            final(self).init_result == old(self).init_result,
    {
        self.is_initialized = false;
    }
}

} // verus!
