//! The library's error value.

use vstd::prelude::*;

verus! {

/// An error with a human-readable message.
#[derive(Debug)]
pub struct WxChatError {
    pub message: String,
}

impl WxChatError {
    pub fn new(message: &str) -> (r: WxChatError)
        ensures
            r.message@ == message@,
    {
        WxChatError { message: String::from_str(message) }
    }

    /// The text shown to a user: the message after a fixed prefix.
    pub fn to_string(&self) -> (r: String)
        ensures
            r@ == "WxChatError: "@ + self.message@,
    {
        String::from_str("WxChatError: ").concat(self.message.as_str())
    }
}

} // verus!
