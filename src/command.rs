use crate::canvas::PendingUpdate;
use crate::color::{rgba_of, to_internal_color};
use crate::frame::SourceAddr;
use vstd::prelude::*;

verus! {

/// A decoded drawing-protocol message. Colours travel packed as
/// `0xRRGGBBAA`.
#[derive(Clone, Copy, Debug, PartialEq, Eq, Structural)]
pub enum Command {
    /// The sender asks for the canvas dimensions.
    SizeQuery,
    /// The answer to a size query; the service only ever sends it.
    SizeReply { width: u16, height: u16 },
    /// Paint cell `(x, y)`.
    SetPixel { x: u16, y: u16, color: u32 },
}

/// What the service does about one received command.
#[derive(Clone, Copy, Debug, PartialEq, Eq)]
pub enum Action {
    /// Nothing: no reply and no change to the canvas.
    Ignore,
    /// Send an echo reply to `to` that carries a size reply.
    SendSizeReply { to: SourceAddr, width: u16, height: u16 },
    /// Queue a pixel write for the canvas.
    Enqueue(PendingUpdate),
}

/// The action a command from `source` calls for on a `width` by `height`
/// canvas. Pixel writes are queued unchecked: their range is checked when
/// they are applied.
pub open spec fn action_for(command: Command, source: SourceAddr, width: u16, height: u16) -> Action {
    match command {
        Command::SizeQuery => Action::SendSizeReply { to: source, width, height },
        Command::SizeReply { .. } => Action::Ignore,
        Command::SetPixel { x, y, color } => Action::Enqueue(PendingUpdate { x, y, color: rgba_of(color) }),
    }
}

/// The action for the outcome of decoding a payload: a payload that did not
/// decode calls for nothing.
pub open spec fn action_for_decoded(
    decoded: Option<Command>,
    source: SourceAddr,
    width: u16,
    height: u16,
) -> Action {
    match decoded {
        Some(c) => action_for(c, source, width, height),
        None => Action::Ignore,
    }
}

/// Decides what to do about one command.
pub fn dispatch(command: Command, source: SourceAddr, width: u16, height: u16) -> (a: Action)
    ensures
        a == action_for(command, source, width, height),
{
    match command {
        Command::SizeQuery => Action::SendSizeReply { to: source, width, height },
        Command::SizeReply { .. } => Action::Ignore,
        Command::SetPixel { x, y, color } => Action::Enqueue(
            PendingUpdate { x, y, color: to_internal_color(color) },
        ),
    }
}

/// Decides what to do about the outcome of decoding an echo payload.
pub fn dispatch_decoded(decoded: Option<Command>, source: SourceAddr, width: u16, height: u16) -> (a: Action)
    ensures
        a == action_for_decoded(decoded, source, width, height),
        decoded is None ==> a == Action::Ignore,
{
    match decoded {
        Some(c) => dispatch(c, source, width, height),
        None => Action::Ignore,
    }
}

} // verus!
