//! What an operation hands back: attributes that tell what was done, and
//! the transfers that it orders.

use vstd::prelude::*;

verus! {

/// A key and a value that tell of an operation.
#[derive(Clone, Debug, PartialEq, Eq)]
pub struct Attribute {
    pub key: String,
    pub value: String,
}

/// An attribute as a mathematical value.
pub struct AttributeView {
    pub key: Seq<char>,
    pub value: Seq<char>,
}

impl View for Attribute {
    type V = AttributeView;

    open spec fn view(&self) -> AttributeView {
        AttributeView { key: self.key@, value: self.value@ }
    }
}

/// A transfer that an operation orders. Contracts and recipients are
/// canonical addresses.
#[derive(Clone, Debug, PartialEq, Eq)]
pub enum Transfer {
    /// The asset contract hands the token back.
    Nft { contract: Vec<u8>, recipient: Vec<u8>, token_id: String },
    /// The reward contract pays the reward out.
    Reward { contract: Vec<u8>, recipient: Vec<u8>, amount: u128 },
}

/// A transfer as a mathematical value.
pub enum TransferView {
    Nft { contract: Seq<u8>, recipient: Seq<u8>, token_id: Seq<char> },
    Reward { contract: Seq<u8>, recipient: Seq<u8>, amount: u128 },
}

impl View for Transfer {
    type V = TransferView;

    open spec fn view(&self) -> TransferView {
        match self {
            Transfer::Nft { contract, recipient, token_id } => TransferView::Nft {
                contract: contract@,
                recipient: recipient@,
                token_id: token_id@,
            },
            Transfer::Reward { contract, recipient, amount } => TransferView::Reward {
                contract: contract@,
                recipient: recipient@,
                amount: *amount,
            },
        }
    }
}

/// What an operation hands back, each part in the order in which it was
/// added.
#[derive(Clone, Debug, PartialEq, Eq)]
pub struct Response {
    pub attributes: Vec<Attribute>,
    pub messages: Vec<Transfer>,
}

/// A response as a mathematical value.
pub struct ResponseView {
    pub attributes: Seq<AttributeView>,
    pub messages: Seq<TransferView>,
}

impl View for Response {
    type V = ResponseView;

    open spec fn view(&self) -> ResponseView {
        ResponseView {
            attributes: Seq::new(self.attributes@.len(), |i: int| self.attributes@[i]@),
            messages: Seq::new(self.messages@.len(), |i: int| self.messages@[i]@),
        }
    }
}

/// The attribute with the key `key` and the value `value`.
pub open spec fn attribute(key: Seq<char>, value: Seq<char>) -> AttributeView {
    AttributeView { key: key, value: value }
}

impl Response {
    /// A response with nothing in it.
    pub fn new() -> (response: Response)
        ensures
            response@.attributes == Seq::<AttributeView>::empty(),
            response@.messages == Seq::<TransferView>::empty(),
    {
        let response = Response { attributes: Vec::new(), messages: Vec::new() };
        response
    }

    /// The response with one attribute more.
    pub fn add_attribute(self, key: &str, value: &str) -> (response: Response)
        ensures
            response@.attributes == self@.attributes.push(attribute(key@, value@)),
            response@.messages == self@.messages,
    {
        let mut response = self;
        response.attributes.push(Attribute { key: key.to_owned(), value: value.to_owned() });
        response
    }

    /// The response with one transfer more.
    pub fn add_message(self, message: Transfer) -> (response: Response)
        ensures
            response@.attributes == self@.attributes,
            response@.messages == self@.messages.push(message@),
    {
        let mut response = self;
        response.messages.push(message);
        response
    }
}

} // verus!
