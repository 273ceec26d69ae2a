//! The status bar: key hints, an information text and a message.

use vstd::prelude::*;
use crate::text::{join, joined, views};

verus! {

#[derive(Debug, Clone, PartialEq, Eq)]
pub struct StatusBar {
    pub keys: Vec<String>,
    pub info: String,
    pub message: String,
}

impl StatusBar {
    pub fn new() -> (s: StatusBar)
        ensures
            s.keys@.len() == 0,
            s.info@.len() == 0,
            s.message@.len() == 0,
    {
        StatusBar { keys: Vec::new(), info: String::new(), message: String::new() }
    }

    pub fn set_keys(&mut self, keys: Vec<String>)
        ensures
            final(self).keys == keys,
            final(self).info == old(self).info,
            final(self).message == old(self).message,
    {
        self.keys = keys;
    }

    pub fn set_info(&mut self, info: String)
        ensures
            final(self).info == info,
            final(self).keys == old(self).keys,
            final(self).message == old(self).message,
    {
        self.info = info;
    }

    pub fn set_message(&mut self, message: String)
        ensures
            final(self).message == message,
            final(self).keys == old(self).keys,
            final(self).info == old(self).info,
    {
        self.message = message;
    }

    pub fn clear_message(&mut self)
        ensures
            final(self).message@.len() == 0,
            final(self).keys == old(self).keys,
            final(self).info == old(self).info,
    {
        self.message = String::new();
    }

    /// The key hints, two spaces between each two.
    pub fn keys_text(&self) -> (t: String)
        ensures
            t@ == joined(views(self.keys@), "  "@),
    {
        join(&self.keys, "  ")
    }
}

impl Default for StatusBar {
    fn default() -> (s: StatusBar)
        ensures
            s.keys@.len() == 0,
            s.info@.len() == 0,
            s.message@.len() == 0,
    {
        StatusBar::new()
    }
}

} // verus!
