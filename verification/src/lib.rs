//! Data types, status codes, console protocol structures and table layouts of the
//! Unified Extensible Firmware Interface (UEFI), together with verified models of
//! the behaviour the UEFI Specification requires of a conformant implementation.
//!
//! The ABI surface itself — byte-exact structure layouts and status constants — is
//! described twice: once as the types and constants below, and once as layout
//! descriptors (see [`layout`]) whose computed field offsets are proved to match
//! the offsets the UEFI Specification documents for a 64-bit target.
//!
//! The protocol structures here are models: each holds the state a conformant
//! device maintains (pending keystrokes, screen contents, the current text mode),
//! and each operation's contract states exactly which status code the UEFI
//! Specification allows and how the device state changes. The raw
//! function-pointer tables that firmware populates live outside this crate; they
//! cannot be verified, because the pointers are firmware-owned.

#![allow(non_camel_case_types)]
#![allow(non_snake_case)]

pub mod crc32;
pub mod layout;
pub mod runtime_services;
pub mod simple_text_input;
pub mod simple_text_input_ex;
pub mod simple_text_output;
pub mod status;
pub mod system;
pub mod tables;
pub mod types;
