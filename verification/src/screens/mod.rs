//! The phases that have a screen of their own.

pub mod battle;
pub mod start;
