//! A minimal stateful record holding a phone number and a phone name,
//! with read, write and reset operations whose effects are verified.

pub mod phone;
