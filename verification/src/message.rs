//! What the bots read of an incoming chat message.

use vstd::prelude::*;

verus! {

/// The account that sent a message.
#[derive(Clone, Debug, PartialEq, Eq)]
pub struct Sender {
    /// The account's number.
    pub id: i64,
    pub first_name: String,
    pub last_name: Option<String>,
}

/// An incoming message.
#[derive(Clone, Debug, PartialEq, Eq)]
pub struct Message {
    pub from: Sender,
    /// The text, where the message is a text message.
    pub text: Option<String>,
}

} // verus!
