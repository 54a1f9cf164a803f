//! Building blocks of a disposable home-directory overlay: session layout,
//! identity-map payloads, the ordered mount plan, command resolution and the
//! parent/child rendezvous protocol. Creating processes, namespaces, mounts
//! and files is left to the caller: this crate decides what is done, with
//! which bytes, and in which order.
pub mod text;
pub mod identity;
pub mod command;
pub mod session;
pub mod mounts;
pub mod protocol;
