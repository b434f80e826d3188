//! What a wired display bridge between an Android phone and a desktop decides.
//!
//! Whoever runs a session asks it for its next action, carries the action out,
//! and hands back what came of it.
pub mod adb;
pub mod capture;
pub mod cli;
pub mod decode;
pub mod extend;
pub mod failure;
pub mod frame;
pub mod locate;
pub mod mirror;
pub mod preview;
pub mod protocol;
pub mod render;
pub mod screencap;
pub mod text;
pub mod tunnel_test;
