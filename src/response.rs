use vstd::prelude::*;

use crate::state::{coins_view, Coin, CoinView};

verus! {

/// A payment: the destination account and the coins sent to it.
pub type SendView = (Seq<char>, Seq<CoinView>);

/// An attribute, as its key and value.
pub type AttributeView = (Seq<char>, Seq<char>);

/// What an operation hands back to the host: payments, then attributes.
pub struct ResponseView {
    pub sends: Seq<SendView>,
    pub attributes: Seq<AttributeView>,
}

/// An instruction to the host's bank to pay coins to an account.
#[derive(Clone, Debug, PartialEq, Eq)]
pub struct BankMsg {
    pub to_address: String,
    pub amount: Vec<Coin>,
}

impl View for BankMsg {
    type V = SendView;

    open spec fn view(&self) -> SendView {
        (self.to_address@, coins_view(self.amount@))
    }
}

/// A key and value reported for observability.
#[derive(Clone, Debug, PartialEq, Eq)]
pub struct Attribute {
    pub key: String,
    pub value: String,
}

impl View for Attribute {
    type V = AttributeView;

    open spec fn view(&self) -> AttributeView {
        (self.key@, self.value@)
    }
}

/// The outcome of a successful operation, carried out by the host afterwards.
#[derive(Clone, Debug, PartialEq, Eq)]
pub struct Response {
    pub messages: Vec<BankMsg>,
    pub attributes: Vec<Attribute>,
}

impl View for Response {
    type V = ResponseView;

    open spec fn view(&self) -> ResponseView {
        ResponseView {
            sends: self.messages@.map_values(|m: BankMsg| m@),
            attributes: self.attributes@.map_values(|a: Attribute| a@),
        }
    }
}

impl Response {
    pub fn new() -> (r: Response)
        ensures
            r@.sends == Seq::<SendView>::empty(),
            r@.attributes == Seq::<AttributeView>::empty(),
    {
        let r = Response { messages: Vec::new(), attributes: Vec::new() };
        proof {
            assert(r@.sends =~= Seq::<SendView>::empty());
            assert(r@.attributes =~= Seq::<AttributeView>::empty());
        }
        r
    }

    /// Appends a payment of `amount` to `to_address`.
    pub fn add_message(&mut self, to_address: String, amount: Vec<Coin>)
        ensures
            final(self)@.sends == old(self)@.sends.push((to_address@, coins_view(amount@))),
            final(self)@.attributes == old(self)@.attributes,
    {
        self.messages.push(BankMsg { to_address, amount });
        proof {
            assert(final(self)@.sends =~= old(self)@.sends.push((to_address@, coins_view(amount@))));
            assert(final(self)@.attributes =~= old(self)@.attributes);
        }
    }

    /// Appends the attribute `key` = `value`.
    pub fn add_attribute(&mut self, key: &str, value: &str)
        ensures
            final(self)@.sends == old(self)@.sends,
            final(self)@.attributes == old(self)@.attributes.push((key@, value@)),
    {
        self.attributes.push(Attribute { key: key.to_owned(), value: value.to_owned() });
        proof {
            assert(final(self)@.sends =~= old(self)@.sends);
            assert(final(self)@.attributes =~= old(self)@.attributes.push((key@, value@)));
        }
    }
}

} // verus!
