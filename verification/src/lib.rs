//! Descriptor compiler and runtime for the BCM2835 DMA engine.
//!
//! Symbolic transfer operations are resolved against the memory regions of
//! an [`dma::Executive`], compiled into the engine's control blocks, linked
//! into chains and run by a register protocol that the caller carries out
//! step by step.

pub mod fault;
pub mod dilf;
pub mod dma;
pub mod mailbox;
pub mod text;
pub mod uart;
