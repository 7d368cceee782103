use vstd::prelude::*;

pub mod about;
pub mod activity;
pub mod arith;
pub mod badge;
pub mod config;
pub mod console;
pub mod editability;
pub mod events;
pub mod focus;
pub mod ime;
pub mod ime_cache;
pub mod ime_scan;
pub mod layout;
pub mod order;
pub mod outlook;
pub mod settings;
pub mod text;
pub mod uia;
pub mod win;

verus! {
}
