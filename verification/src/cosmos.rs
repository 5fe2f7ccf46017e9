//! The messages that a command hands back to the host ledger.
//!
//! The host delivers each message of a response after the command has
//! committed: a call of another contract on the same ledger, or a custom
//! message for a module of the host.

use crate::external::{ExternalExecuteMsg, ExternalExecuteMsgView};
use vstd::prelude::*;
use vstd::string::*;

verus! {

/// An amount of one denomination of funds.
#[derive(Debug, PartialEq, Eq)]
pub struct Coin {
    pub denom: String,
    pub amount: u128,
}

/// What a `Coin` stands for.
pub struct CoinView {
    pub denom: Seq<char>,
    pub amount: u128,
}

impl View for Coin {
    type V = CoinView;

    open spec fn view(&self) -> CoinView {
        CoinView { denom: self.denom@, amount: self.amount }
    }
}

impl DeepView for Coin {
    type V = CoinView;

    open spec fn deep_view(&self) -> CoinView {
        self@
    }
}

impl Clone for Coin {
    fn clone(&self) -> (copy: Self)
        ensures
            copy@ == self@,
    {
        Coin { denom: self.denom.clone(), amount: self.amount }
    }
}

/// A key and a value that describe a successful command.
#[derive(Debug, PartialEq, Eq)]
pub struct Attribute {
    pub key: String,
    pub value: String,
}

impl View for Attribute {
    type V = (Seq<char>, Seq<char>);

    open spec fn view(&self) -> (Seq<char>, Seq<char>) {
        (self.key@, self.value@)
    }
}

impl DeepView for Attribute {
    type V = (Seq<char>, Seq<char>);

    open spec fn deep_view(&self) -> (Seq<char>, Seq<char>) {
        self@
    }
}

impl Clone for Attribute {
    fn clone(&self) -> (copy: Self)
        ensures
            copy@ == self@,
    {
        Attribute { key: self.key.clone(), value: self.value.clone() }
    }
}

impl Attribute {
    /// The attribute with this key and this value.
    pub fn new(key: &str, value: &str) -> (attribute: Self)
        ensures
            attribute@ == (key@, value@),
    {
        Attribute { key: String::from_str(key), value: String::from_str(value) }
    }
}

/// A call of a contract on the same ledger.
#[derive(Debug, PartialEq, Eq)]
pub enum WasmMsg {
    /// Calls `contract_addr` with `msg` and hands it `funds`.
    Execute { contract_addr: String, msg: ExternalExecuteMsg, funds: Vec<Coin> },
}

/// What a `WasmMsg` stands for.
pub enum WasmMsgView {
    Execute { contract_addr: Seq<char>, msg: ExternalExecuteMsgView, funds: Seq<CoinView> },
}

impl View for WasmMsg {
    type V = WasmMsgView;

    open spec fn view(&self) -> WasmMsgView {
        match self {
            WasmMsg::Execute { contract_addr, msg, funds } => WasmMsgView::Execute {
                contract_addr: contract_addr@,
                msg: msg@,
                funds: funds.deep_view(),
            },
        }
    }
}

/// A message for the host ledger; `T` is the kind of its custom messages.
#[derive(Debug, PartialEq, Eq)]
pub enum CosmosMsg<T> {
    /// A call of a contract on the same ledger.
    Wasm(WasmMsg),
    /// A message for a module of the host.
    Custom(T),
}

/// What a `CosmosMsg` stands for.
pub enum CosmosMsgView<V> {
    Wasm(WasmMsgView),
    Custom(V),
}

impl<T: View> View for CosmosMsg<T> {
    type V = CosmosMsgView<T::V>;

    open spec fn view(&self) -> CosmosMsgView<T::V> {
        match self {
            CosmosMsg::Wasm(msg) => CosmosMsgView::Wasm(msg@),
            CosmosMsg::Custom(msg) => CosmosMsgView::Custom(msg@),
        }
    }
}

impl<T: View> DeepView for CosmosMsg<T> {
    type V = CosmosMsgView<T::V>;

    open spec fn deep_view(&self) -> CosmosMsgView<T::V> {
        self@
    }
}

/// What a successful command hands back: the messages to deliver and the
/// attributes that describe the command.
#[derive(Debug, PartialEq, Eq)]
pub struct Response<T> {
    pub messages: Vec<CosmosMsg<T>>,
    pub attributes: Vec<Attribute>,
}

/// What a `Response` stands for.
pub struct ResponseView<V> {
    pub messages: Seq<CosmosMsgView<V>>,
    pub attributes: Seq<(Seq<char>, Seq<char>)>,
}

impl<T: View> View for Response<T> {
    type V = ResponseView<T::V>;

    open spec fn view(&self) -> ResponseView<T::V> {
        ResponseView {
            messages: self.messages.deep_view(),
            attributes: self.attributes.deep_view(),
        }
    }
}

/// The attribute that names the action of a command.
pub open spec fn action(name: Seq<char>) -> Seq<(Seq<char>, Seq<char>)> {
    seq![("action"@, name)]
}

/// The answer to the command `name` that is relayed as `msg`.
pub open spec fn relayed<V>(msg: WasmMsgView, name: Seq<char>) -> ResponseView<V> {
    ResponseView { messages: seq![CosmosMsgView::Wasm(msg)], attributes: action(name) }
}

/// The answer to the command `name` that hands over the custom message
/// `msg`.
pub open spec fn handed<V>(msg: V, name: Seq<char>) -> ResponseView<V> {
    ResponseView { messages: seq![CosmosMsgView::Custom(msg)], attributes: action(name) }
}

/// The answer to the command `name` that only changes the state.
pub open spec fn noted<V>(name: Seq<char>) -> ResponseView<V> {
    ResponseView { messages: seq![], attributes: action(name) }
}

impl<T: View> Response<T> {
    /// The response without messages or attributes.
    pub fn new() -> (response: Self)
        ensures
            response@ == (ResponseView::<T::V> { messages: seq![], attributes: seq![] }),
    {
        let response = Response { messages: Vec::new(), attributes: Vec::new() };
        assert(response.messages.deep_view() =~= seq![]);
        assert(response.attributes.deep_view() =~= seq![]);
        response
    }

    /// The response with `msg` added after its messages.
    pub fn add_message(self, msg: CosmosMsg<T>) -> (response: Self)
        ensures
            response@ == (ResponseView {
                messages: self@.messages.push(msg@),
                attributes: self@.attributes,
            }),
    {
        let mut response = self;
        response.messages.push(msg);
        assert(response.messages.deep_view() =~= self.messages.deep_view().push(msg@));
        response
    }

    /// The response with the attribute `(key, value)` added after its
    /// attributes.
    pub fn add_attribute(self, key: &str, value: &str) -> (response: Self)
        ensures
            response@ == (ResponseView {
                messages: self@.messages,
                attributes: self@.attributes.push((key@, value@)),
            }),
    {
        let mut response = self;
        response.attributes.push(Attribute::new(key, value));
        assert(response.attributes.deep_view() =~= self.attributes.deep_view().push(
            (key@, value@),
        ));
        response
    }
}

} // verus!
