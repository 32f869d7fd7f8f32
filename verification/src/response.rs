//! What an operation hands back: the event it emits and the transfers it
//! asks the host to make.

use vstd::prelude::*;
use vstd::string::StringExecFns;
use crate::error::ContractError;
use crate::reward_pool::{AssetInfo, AssetInfoView};

verus! {

/// The character for one decimal digit.
pub open spec fn digit(d: nat) -> char {
    if d == 0 {
        '0'
    } else if d == 1 {
        '1'
    } else if d == 2 {
        '2'
    } else if d == 3 {
        '3'
    } else if d == 4 {
        '4'
    } else if d == 5 {
        '5'
    } else if d == 6 {
        '6'
    } else if d == 7 {
        '7'
    } else if d == 8 {
        '8'
    } else {
        '9'
    }
}

/// `n` in decimal, without leading zeros.
pub open spec fn decimal_text(n: nat) -> Seq<char>
    decreases n,
{
    if n < 10 {
        seq![digit(n)]
    } else {
        decimal_text(n / 10).push(digit(n % 10))
    }
}

fn digit_text(d: u128) -> (s: &'static str)
    requires
        d < 10,
    ensures
        s@ == seq![digit(d as nat)],
{
    proof {
        reveal_strlit("0");
        reveal_strlit("1");
        reveal_strlit("2");
        reveal_strlit("3");
        reveal_strlit("4");
        reveal_strlit("5");
        reveal_strlit("6");
        reveal_strlit("7");
        reveal_strlit("8");
        reveal_strlit("9");
    }
    let s = if d == 0 {
        "0"
    } else if d == 1 {
        "1"
    } else if d == 2 {
        "2"
    } else if d == 3 {
        "3"
    } else if d == 4 {
        "4"
    } else if d == 5 {
        "5"
    } else if d == 6 {
        "6"
    } else if d == 7 {
        "7"
    } else if d == 8 {
        "8"
    } else {
        "9"
    };
    assert(s@ =~= seq![digit(d as nat)]);
    s
}

/// `amount` written in decimal.
pub fn amount_text(amount: u128) -> (s: String)
    ensures
        s@ == decimal_text(amount as nat),
    decreases amount,
{
    if amount < 10 {
        digit_text(amount).to_owned()
    } else {
        let s = amount_text(amount / 10).concat(digit_text(amount % 10));
        assert(s@ =~= decimal_text(amount as nat));
        s
    }
}

/// One key and value of the event that an operation emits.
#[derive(Clone, Debug, PartialEq, Eq)]
pub struct Attribute {
    pub key: String,
    pub value: String,
}

/// What an `Attribute` stands for in contracts.
pub struct AttributeView {
    pub key: Seq<char>,
    pub value: Seq<char>,
}

impl View for Attribute {
    type V = AttributeView;

    open spec fn view(&self) -> AttributeView {
        AttributeView { key: self.key@, value: self.value@ }
    }
}

/// An amount of one asset.
#[derive(Clone, Debug, PartialEq, Eq)]
pub struct Asset {
    pub info: AssetInfo,
    pub amount: u128,
}

/// A request to the host to transfer `asset` to `recipient`. The amount is
/// the amount asked for; what fees the host takes from it is the host's
/// affair.
#[derive(Clone, Debug, PartialEq, Eq)]
pub struct Transfer {
    pub asset: Asset,
    pub recipient: String,
}

/// What a `Transfer` stands for in contracts.
pub struct TransferView {
    pub info: AssetInfoView,
    pub amount: u128,
    pub recipient: Seq<char>,
}

impl View for Transfer {
    type V = TransferView;

    open spec fn view(&self) -> TransferView {
        TransferView {
            info: self.asset.info@,
            amount: self.asset.amount,
            recipient: self.recipient@,
        }
    }
}

/// What a successful operation hands back: the attributes of its event and,
/// in order, the transfers that the host is to make once the operation's
/// changes are committed.
#[derive(Clone, Debug, PartialEq, Eq)]
pub struct Response {
    pub attributes: Vec<Attribute>,
    pub messages: Vec<Transfer>,
}

/// What a `Response` stands for in contracts.
pub struct ResponseView {
    pub attributes: Seq<AttributeView>,
    pub messages: Seq<TransferView>,
}

impl View for Response {
    type V = ResponseView;

    open spec fn view(&self) -> ResponseView {
        ResponseView {
            attributes: self.attributes@.map_values(|a: Attribute| a@),
            messages: self.messages@.map_values(|t: Transfer| t@),
        }
    }
}

impl ResponseView {
    /// The response without attributes and transfers.
    pub open spec fn empty() -> ResponseView {
        ResponseView { attributes: Seq::empty(), messages: Seq::empty() }
    }

    /// This response with one more attribute.
    pub open spec fn attribute(self, key: Seq<char>, value: Seq<char>) -> ResponseView {
        ResponseView { attributes: self.attributes.push(AttributeView { key, value }), ..self }
    }

    /// This response with one more transfer.
    pub open spec fn transfer(self, info: AssetInfoView, amount: u128, recipient: Seq<char>)
        -> ResponseView {
        ResponseView {
            messages: self.messages.push(TransferView { info, amount, recipient }),
            ..self
        }
    }

    /// The event of an operation that moved `amount`: its name under
    /// `action`, the amount in decimal under `amount`.
    pub open spec fn event(action: Seq<char>, amount: u128) -> ResponseView {
        ResponseView::empty().attribute("action"@, action).attribute(
            "amount"@,
            decimal_text(amount as nat),
        )
    }
}

impl Response {
    /// The response without attributes and transfers.
    pub fn new() -> (response: Response)
        ensures
            response@ == ResponseView::empty(),
    {
        let response = Response { attributes: Vec::new(), messages: Vec::new() };
        assert(response@.attributes =~= Seq::empty());
        assert(response@.messages =~= Seq::empty());
        response
    }

    /// Adds an attribute after those that are there.
    pub fn add_attribute(&mut self, key: &str, value: String)
        ensures
            final(self)@ == old(self)@.attribute(key@, value@),
    {
        let ghost before = self@;
        self.attributes.push(Attribute { key: key.to_owned(), value });
        assert(self@.attributes =~= before.attribute(key@, value@).attributes);
        assert(self@.messages =~= before.messages);
    }

    /// Adds a transfer after those that are there.
    pub fn add_message(&mut self, transfer: Transfer)
        ensures
            final(self)@ == old(self)@.transfer(
                transfer.asset.info@,
                transfer.asset.amount,
                transfer.recipient@,
            ),
    {
        let ghost before = self@;
        let ghost added = transfer@;
        self.messages.push(transfer);
        assert(self@.messages =~= before.messages.push(added));
        assert(self@.attributes =~= before.attributes);
    }

    /// The event of an operation that moved `amount`.
    pub fn event(action: &str, amount: u128) -> (response: Response)
        ensures
            response@ == ResponseView::event(action@, amount),
    {
        let mut response = Response::new();
        response.add_attribute("action", action.to_owned());
        response.add_attribute("amount", amount_text(amount));
        response
    }
}

impl Default for Response {
    fn default() -> (response: Response)
        ensures
            response@ == ResponseView::empty(),
    {
        Response::new()
    }
}

/// What came of an operation, as contracts see it.
pub open spec fn result_view(result: Result<Response, ContractError>) -> Result<
    ResponseView,
    ContractError,
> {
    match result {
        Ok(response) => Ok(response@),
        Err(error) => Err(error),
    }
}

} // verus!
