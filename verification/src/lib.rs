//! Commands for the Graphics Synthesizer of the PlayStation 2.
//!
//! The Graphics Synthesizer draws what it is told in packed words: register
//! values made of bit fields, carried in packets behind a tag, moved by a
//! DMA channel while the processor runs on. This crate puts those words
//! together and keeps the order in which they go out.
//!
//! - [`bits`]: fields of a word, cut, placed, read and written.
//! - [`tags`]: the words of the general purpose registers and of the tag.
//! - [`privileged`]: the privileged registers, field by field.
//! - [`packet`]: transfer buffers and the packets written into them.
//! - [`graphics`]: the packets of a flat triangle and of the screen's
//!   set-up.
//! - [`dma`]: the hand-off of a buffer to a DMA channel and back.
//! - [`frame`]: the driver that redraws the picture on every vertical
//!   blanking.
//! - [`bios`]: the system calls of the kernel.
//! - [`timer`]: the timers of the Emotion Engine.
//!
//! Nothing in the crate touches the hardware. Where the hardware is to be
//! written, read or trapped into, a function gives the write, the address or
//! the call, and the caller carries it out.

pub mod bios;
pub mod bits;
pub mod dma;
pub mod frame;
pub mod graphics;
pub mod packet;
pub mod privileged;
pub mod tags;
pub mod timer;
