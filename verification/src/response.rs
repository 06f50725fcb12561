//! Structured results of a successful operation.
//!
//! An operation returns observability attributes plus zero or one
//! deferred [`Instruction`]: an effect the host carries out only after
//! the operation's ledger writes are finalized.  The contract never
//! observes an instruction's outcome within the same invocation.

use vstd::prelude::*;
use crate::msg::Coin;

verus! {

/// One key-value pair of observability data.
#[derive(Clone, Debug, PartialEq, Eq)]
pub struct Attribute {
    pub key: String,
    pub value: String,
}

/// A deferred, host-executed side effect.
#[derive(Clone, Debug, PartialEq, Eq)]
pub enum Instruction {
    /// Directs the token registry `contract` to mint token `token_id`
    /// to `recipient`, with no initial metadata.
    MintToken { contract: String, recipient: String, token_id: u64 },
    /// Directs the host bank to transfer `amount` to `to_address`.
    SendFunds { to_address: String, amount: Coin },
}

/// The structured result of a successful operation.
#[derive(Clone, Debug, PartialEq, Eq)]
pub struct Response {
    pub attributes: Vec<Attribute>,
    pub messages: Vec<Instruction>,
}

impl Response {
    /// An empty result.
    pub fn new() -> (r: Response)
        ensures
            r.attributes@ == Seq::<Attribute>::empty(),
            r.messages@ == Seq::<Instruction>::empty(),
    {
        Response { attributes: Vec::new(), messages: Vec::new() }
    }

    /// Appends one observability attribute.
    pub fn add_attribute(self, key: String, value: String) -> (r: Response)
        ensures
            r.attributes@ == self.attributes@.push((Attribute { key, value })),
            r.messages@ == self.messages@,
    {
        let mut attributes = self.attributes;
        attributes.push(Attribute { key, value });
        Response { attributes, messages: self.messages }
    }

    /// Appends one deferred instruction.
    pub fn add_message(self, msg: Instruction) -> (r: Response)
        ensures
            r.attributes@ == self.attributes@,
            r.messages@ == self.messages@.push(msg),
    {
        let mut messages = self.messages;
        messages.push(msg);
        Response { attributes: self.attributes, messages }
    }
}

impl Default for Response {
    /// An empty result.
    fn default() -> (r: Response)
        ensures
            r.attributes@ == Seq::<Attribute>::empty(),
            r.messages@ == Seq::<Instruction>::empty(),
    {
        Response::new()
    }
}

} // verus!
