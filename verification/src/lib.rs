//! Control logic of a transparent TCP relay.

pub mod copy;
pub mod error;
pub mod guard;
pub mod proxy;
pub mod split;
pub mod transfer;
