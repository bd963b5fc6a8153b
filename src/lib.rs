//! A pixel canvas drawn on by ICMP echo requests: frame decoding, command
//! dispatch, the pending-update queue and the framebuffer that applies it.

pub mod canvas;
pub mod color;
pub mod command;
pub mod frame;
pub mod queue;
