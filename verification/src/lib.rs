//! Verified account layouts and instruction logic for a family of Solana escrow programs.
//!
//! The runtime-facing parts (entrypoints, sysvar reads, cross-program invocations) live in
//! the companion application crate; this library decides what they do and proves it.
pub mod account;
pub mod anchor_escrow;
pub mod codec;
pub mod error;
pub mod fundraiser;
pub mod instructions;
pub mod processor;
pub mod state;
pub mod steps;
