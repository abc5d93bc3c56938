//! The status record of one cross-chain message.

use vstd::prelude::*;

verus! {

/// One cross-chain message as the status service reports it.
#[derive(Clone, Debug, PartialEq, Eq)]
pub struct Message {
    /// Delivery status, such as `INFLIGHT`, `SUCCESS`, `DELIVERED` or `STORED`.
    pub status: String,
    pub src_chain_id: u32,
    pub dst_chain_id: u32,
    /// Address of the sending application.
    pub src_ua_address: String,
    /// Address of the receiving application.
    pub dst_ua_address: String,
    pub src_block_hash: String,
    /// Block number on the source chain, in decimal digits.
    pub src_block_number: String,
    pub src_ua_nonce: u128,
    /// Hash of the delivering transaction, once there is one.
    pub dst_tx_hash: Option<String>,
    /// Why delivery failed, if it did.
    pub dst_tx_error: Option<String>,
}

/// A message with its strings as character sequences.
pub struct MessageView {
    pub status: Seq<char>,
    pub src_chain_id: u32,
    pub dst_chain_id: u32,
    pub src_ua_address: Seq<char>,
    pub dst_ua_address: Seq<char>,
    pub src_block_hash: Seq<char>,
    pub src_block_number: Seq<char>,
    pub src_ua_nonce: u128,
    pub dst_tx_hash: Option<Seq<char>>,
    pub dst_tx_error: Option<Seq<char>>,
}

impl View for Message {
    type V = MessageView;

    open spec fn view(&self) -> MessageView {
        MessageView {
            status: self.status@,
            src_chain_id: self.src_chain_id,
            dst_chain_id: self.dst_chain_id,
            src_ua_address: self.src_ua_address@,
            dst_ua_address: self.dst_ua_address@,
            src_block_hash: self.src_block_hash@,
            src_block_number: self.src_block_number@,
            src_ua_nonce: self.src_ua_nonce,
            dst_tx_hash: self.dst_tx_hash.deep_view(),
            dst_tx_error: self.dst_tx_error.deep_view(),
        }
    }
}

impl DeepView for Message {
    type V = MessageView;

    open spec fn deep_view(&self) -> MessageView {
        self@
    }
}

impl MessageView {
    /// What stands for the destination transaction: its hash if there is one,
    /// else `Error!` if an error was reported, else nothing.
    pub open spec fn dst_tx(self) -> Seq<char> {
        match self.dst_tx_hash {
            Some(hash) => hash,
            None => if self.dst_tx_error is Some {
                "Error!"@
            } else {
                Seq::empty()
            },
        }
    }
}

impl Message {
    /// The text shown for the destination transaction. A hash wins over an
    /// error; the error's own text is never shown.
    pub fn dst_tx(&self) -> (shown: String)
        ensures
            shown@ == self@.dst_tx(),
            self.dst_tx_hash matches Some(hash) ==> shown@ == hash@,
            self.dst_tx_hash is None && self.dst_tx_error is Some ==> shown@ == "Error!"@,
            self.dst_tx_hash is None && self.dst_tx_error is None ==> shown@.len() == 0,
    {
        match &self.dst_tx_hash {
            Some(hash) => hash.clone(),
            None => match &self.dst_tx_error {
                Some(_) => String::from_str("Error!"),
                None => String::new(),
            },
        }
    }
}

/// The messages of one response, in the order the service sent them.
#[derive(Clone, Debug, PartialEq, Eq)]
pub struct MessageList {
    pub messages: Vec<Message>,
}

impl View for MessageList {
    type V = Seq<MessageView>;

    open spec fn view(&self) -> Seq<MessageView> {
        self.messages.deep_view()
    }
}

} // verus!
