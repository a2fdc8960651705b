//! What an executed message hands back to the chain: event attributes,
//! messages to other contracts, and optional result data.

use vstd::prelude::*;

use crate::types::credential_registry::{ExecuteMsg as RegistryExecuteMsg, ExecuteMsgView as RegistryExecuteMsgView};
use crate::types::credential_verifier::{BatchVerifyResponse, VerificationResultView};

verus! {

/// A key-value pair of the event that a message emits.
#[derive(Debug, Clone, PartialEq, Eq)]
pub struct Attribute {
    pub key: String,
    pub value: String,
}

/// A message to the credential registry, sent after the current one
/// succeeds, with no funds and no reply asked for.
#[derive(Debug, Clone, PartialEq, Eq)]
pub struct SubMsg {
    pub contract_addr: String,
    pub msg: RegistryExecuteMsg,
}

/// The outcome of an executed message.
#[derive(Debug, Clone, PartialEq, Eq)]
pub struct Response {
    pub messages: Vec<SubMsg>,
    pub attributes: Vec<Attribute>,
    pub data: Option<BatchVerifyResponse>,
}

pub struct ResponseView {
    pub messages: Seq<(Seq<char>, RegistryExecuteMsgView)>,
    pub attributes: Seq<(Seq<char>, Seq<char>)>,
    pub data: Option<Seq<VerificationResultView>>,
}

impl View for Response {
    type V = ResponseView;

    open spec fn view(&self) -> ResponseView {
        ResponseView {
            messages: Seq::new(
                self.messages@.len(),
                |i: int| (self.messages@[i].contract_addr@, self.messages@[i].msg@),
            ),
            attributes: Seq::new(
                self.attributes@.len(),
                |i: int| (self.attributes@[i].key@, self.attributes@[i].value@),
            ),
            data: match self.data {
                Some(d) => Some(d.results.deep_view()),
                None => None,
            },
        }
    }
}

/// A response that carries only the attributes `attrs`.
pub open spec fn attributes_response(attrs: Seq<(Seq<char>, Seq<char>)>) -> ResponseView {
    ResponseView { messages: Seq::empty(), attributes: attrs, data: None }
}

impl Response {
    /// A response with no messages, attributes or data.
    pub fn new() -> (r: Response)
        ensures
            r@.messages == Seq::<(Seq<char>, RegistryExecuteMsgView)>::empty(),
            r@.attributes == Seq::<(Seq<char>, Seq<char>)>::empty(),
            r@.data is None,
    {
        let r = Response { messages: Vec::new(), attributes: Vec::new(), data: None };
        assert(r@.messages =~= Seq::<(Seq<char>, RegistryExecuteMsgView)>::empty());
        assert(r@.attributes =~= Seq::<(Seq<char>, Seq<char>)>::empty());
        r
    }

    /// Adds the attribute `key`=`value`.
    pub fn add_attribute(&mut self, key: &str, value: String)
        ensures
            final(self)@.attributes == old(self)@.attributes.push((key@, value@)),
            final(self)@.messages == old(self)@.messages,
            final(self)@.data == old(self)@.data,
    {
        self.attributes.push(Attribute { key: String::from_str(key), value });
        assert(self@.attributes =~= old(self)@.attributes.push((key@, value@)));
        assert(self@.messages =~= old(self)@.messages);
    }

    /// Adds a message to the credential registry at `contract_addr`.
    pub fn add_message(&mut self, contract_addr: String, msg: RegistryExecuteMsg)
        ensures
            final(self)@.messages == old(self)@.messages.push((contract_addr@, msg@)),
            final(self)@.attributes == old(self)@.attributes,
            final(self)@.data == old(self)@.data,
    {
        self.messages.push(SubMsg { contract_addr, msg });
        assert(self@.messages =~= old(self)@.messages.push((contract_addr@, msg@)));
        assert(self@.attributes =~= old(self)@.attributes);
    }
}

} // verus!
