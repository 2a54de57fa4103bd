//! Core of a sidebar search panel: a two-step remote search (chats, then
//! contacts) merged into one duplicate-free result list, the view state that
//! follows it, and the resolution of an activated result into navigation.
pub mod entry;
pub mod result_list;
pub mod search;
pub mod selection;
