//! Plain-value models of what the execution host hands to a contract and
//! takes back from it: attached funds, replies, and responses made of
//! messages, attributes and events.

use vstd::prelude::*;
use vstd::string::*;
use crate::verification::msg::ExecuteMsg as VerifierExecuteMsg;

verus! {

/// The views of the elements of a sequence, in order.
pub open spec fn views<T: View>(s: Seq<T>) -> Seq<T::V> {
    Seq::new(s.len(), |i: int| s[i]@)
}

/// An amount of one currency unit.
#[derive(Clone, Debug, PartialEq, Eq)]
pub struct Coin {
    pub denom: String,
    pub amount: u128,
}

pub struct CoinView {
    pub denom: Seq<char>,
    pub amount: u128,
}

impl View for Coin {
    type V = CoinView;

    open spec fn view(&self) -> CoinView {
        CoinView { denom: self.denom@, amount: self.amount }
    }
}

/// The list of one coin: `amount` of `denom`.
pub fn coins(amount: u128, denom: &str) -> (r: Vec<Coin>)
    ensures
        views(r@) == seq![CoinView { denom: denom@, amount }],
{
    let r = vec![Coin { denom: denom.to_owned(), amount }];
    assert(views(r@) =~= seq![CoinView { denom: denom@, amount }]);
    r
}

/// Who called, and the funds attached to the call.
#[derive(Clone, Debug, PartialEq, Eq)]
pub struct MessageInfo {
    pub sender: String,
    pub funds: Vec<Coin>,
}

/// A key and a value attached to a response or to an event.
#[derive(Clone, Debug, PartialEq, Eq)]
pub struct Attribute {
    pub key: String,
    pub value: String,
}

pub struct AttributeView {
    pub key: Seq<char>,
    pub value: Seq<char>,
}

impl View for Attribute {
    type V = AttributeView;

    open spec fn view(&self) -> AttributeView {
        AttributeView { key: self.key@, value: self.value@ }
    }
}

/// A typed event record.
#[derive(Clone, Debug, PartialEq, Eq)]
pub struct Event {
    pub ty: String,
    pub attributes: Vec<Attribute>,
}

pub struct EventView {
    pub ty: Seq<char>,
    pub attributes: Seq<AttributeView>,
}

impl View for Event {
    type V = EventView;

    open spec fn view(&self) -> EventView {
        EventView { ty: self.ty@, attributes: views(self.attributes@) }
    }
}

impl Event {
    /// An event of the type `ty`, without attributes.
    pub fn new(ty: &str) -> (r: Event)
        ensures
            r@ == (EventView { ty: ty@, attributes: Seq::empty() }),
    {
        let r = Event { ty: ty.to_owned(), attributes: Vec::new() };
        assert(r@.attributes =~= Seq::empty());
        r
    }

    /// Appends the attribute `key = value`.
    pub fn add_attribute(self, key: &str, value: String) -> (r: Event)
        ensures
            r@ == (EventView { attributes: self@.attributes.push(attr(key@, value@)), ..self@ }),
    {
        let mut r = self;
        r.attributes.push(Attribute { key: key.to_owned(), value });
        assert(r@.attributes =~= self@.attributes.push(attr(key@, value@)));
        r
    }
}

/// An instruction for the host to carry out after the call returns.
#[derive(Clone, Debug, PartialEq, Eq)]
pub enum CosmosMsg {
    /// Transfer `amount` from the contract's balance to `to_address`.
    BankSend { to_address: String, amount: Vec<Coin> },
    /// Call the verifier at `contract_addr` with `msg`.
    WasmExecute { contract_addr: String, msg: VerifierExecuteMsg, funds: Vec<Coin> },
}

pub enum CosmosMsgView {
    BankSend { to_address: Seq<char>, amount: Seq<CoinView> },
    ValidateMigration {
        contract_addr: Seq<char>,
        current_version: u32,
        new_version: u32,
        reason: Seq<char>,
        funds: Seq<CoinView>,
    },
}

impl View for CosmosMsg {
    type V = CosmosMsgView;

    open spec fn view(&self) -> CosmosMsgView {
        match *self {
            CosmosMsg::BankSend { to_address, amount } => CosmosMsgView::BankSend {
                to_address: to_address@,
                amount: views(amount@),
            },
            CosmosMsg::WasmExecute {
                contract_addr,
                msg: VerifierExecuteMsg::ValidateMigrationMsg { current_version, new_version, reason },
                funds,
            } => CosmosMsgView::ValidateMigration {
                contract_addr: contract_addr@,
                current_version,
                new_version,
                reason: reason@,
                funds: views(funds@),
            },
        }
    }
}

/// When the host calls back with the outcome of a message.
#[derive(Clone, Copy, Debug, PartialEq, Eq)]
pub enum ReplyOn {
    Always,
    Error,
    Success,
    Never,
}

/// A message together with its correlation tag and callback policy.
#[derive(Clone, Debug, PartialEq, Eq)]
pub struct SubMsg {
    pub id: u64,
    pub msg: CosmosMsg,
    pub reply_on: ReplyOn,
}

pub struct SubMsgView {
    pub id: u64,
    pub msg: CosmosMsgView,
    pub reply_on: ReplyOn,
}

impl View for SubMsg {
    type V = SubMsgView;

    open spec fn view(&self) -> SubMsgView {
        SubMsgView { id: self.id, msg: self.msg@, reply_on: self.reply_on }
    }
}

/// The tag of a message for which no callback is wanted.
pub const UNUSED_MSG_ID: u64 = 0;

impl SubMsg {
    /// `msg` without a callback.
    pub fn new(msg: CosmosMsg) -> (r: SubMsg)
        ensures
            r == (SubMsg { id: UNUSED_MSG_ID, msg, reply_on: ReplyOn::Never }),
    {
        SubMsg { id: UNUSED_MSG_ID, msg, reply_on: ReplyOn::Never }
    }

    /// `msg` with a callback under the tag `id`, whatever its outcome.
    pub fn reply_always(msg: CosmosMsg, id: u64) -> (r: SubMsg)
        ensures
            r == (SubMsg { id, msg, reply_on: ReplyOn::Always }),
    {
        SubMsg { id, msg, reply_on: ReplyOn::Always }
    }
}

/// What a successful call hands back to the host.
#[derive(Clone, Debug, PartialEq, Eq)]
pub struct Response {
    pub messages: Vec<SubMsg>,
    pub attributes: Vec<Attribute>,
    pub events: Vec<Event>,
}

pub struct ResponseView {
    pub messages: Seq<SubMsgView>,
    pub attributes: Seq<AttributeView>,
    pub events: Seq<EventView>,
}

impl View for Response {
    type V = ResponseView;

    open spec fn view(&self) -> ResponseView {
        ResponseView {
            messages: views(self.messages@),
            attributes: views(self.attributes@),
            events: views(self.events@),
        }
    }
}

/// The response without messages, attributes or events.
pub open spec fn empty_response() -> ResponseView {
    ResponseView { messages: Seq::empty(), attributes: Seq::empty(), events: Seq::empty() }
}

/// The attribute `key = value`.
pub open spec fn attr(key: Seq<char>, value: Seq<char>) -> AttributeView {
    AttributeView { key, value }
}

impl Response {
    /// A response without messages, attributes or events.
    pub fn new() -> (r: Response)
        ensures
            r@ == empty_response(),
    {
        let r = Response { messages: Vec::new(), attributes: Vec::new(), events: Vec::new() };
        assert(r@.messages =~= Seq::empty());
        assert(r@.attributes =~= Seq::empty());
        assert(r@.events =~= Seq::empty());
        r
    }

    /// Appends the attribute `key = value`.
    pub fn add_attribute(self, key: &str, value: String) -> (r: Response)
        ensures
            r@ == (ResponseView { attributes: self@.attributes.push(attr(key@, value@)), ..self@ }),
    {
        let mut r = self;
        r.attributes.push(Attribute { key: key.to_owned(), value });
        assert(r@.attributes =~= self@.attributes.push(attr(key@, value@)));
        r
    }

    /// Appends `msg` as a message without callback.
    pub fn add_message(self, msg: CosmosMsg) -> (r: Response)
        ensures
            r@ == (ResponseView {
                messages: self@.messages.push(
                    SubMsgView { id: UNUSED_MSG_ID, msg: msg@, reply_on: ReplyOn::Never },
                ),
                ..self@
            }),
    {
        let mut r = self;
        r.messages.push(SubMsg::new(msg));
        assert(r@.messages =~= self@.messages.push(
            SubMsgView { id: UNUSED_MSG_ID, msg: msg@, reply_on: ReplyOn::Never },
        ));
        r
    }

    /// Appends `msg` with its own tag and callback policy.
    pub fn add_submessage(self, msg: SubMsg) -> (r: Response)
        ensures
            r@ == (ResponseView { messages: self@.messages.push(msg@), ..self@ }),
    {
        let mut r = self;
        r.messages.push(msg);
        assert(r@.messages =~= self@.messages.push(msg@));
        r
    }

    /// Appends `event`.
    pub fn add_event(self, event: Event) -> (r: Response)
        ensures
            r@ == (ResponseView { events: self@.events.push(event@), ..self@ }),
    {
        let mut r = self;
        r.events.push(event);
        assert(r@.events =~= self@.events.push(event@));
        r
    }
}

/// The host's callback for a message that asked for one: the message's tag
/// and its outcome, with the failure's text where it failed.
#[derive(Debug, PartialEq, Eq)]
pub struct Reply {
    pub id: u64,
    pub result: Result<(), String>,
}

/// A failure of the host's standard kind.
#[derive(Clone, Debug, PartialEq, Eq)]
pub enum StdError {
    GenericErr { msg: String },
}

impl StdError {
    /// The failure of no more specific kind, with its text.
    pub fn generic_err(msg: &str) -> (r: StdError)
        ensures
            r matches StdError::GenericErr { msg: text } && text@ == msg@,
    {
        StdError::GenericErr { msg: msg.to_owned() }
    }

    /// The failure in words.
    pub open spec fn text(&self) -> Seq<char> {
        match *self {
            StdError::GenericErr { msg } => "Generic error: "@ + msg@,
        }
    }

    /// The failure in words, as a caller is shown it.
    pub fn message(&self) -> (s: String)
        ensures
            s@ == self.text(),
    {
        match self {
            StdError::GenericErr { msg } => {
                let mut s = "Generic error: ".to_owned();
                s.append(msg.as_str());
                s
            },
        }
    }
}

} // verus!
