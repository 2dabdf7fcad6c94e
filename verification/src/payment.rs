//! Validation of the funds attached to a call.

use vstd::prelude::*;
use vstd::string::*;
use crate::host::{views, CoinView, MessageInfo};

verus! {

/// Why the attached funds were not accepted.
#[derive(Clone, Debug, PartialEq, Eq)]
pub enum PaymentError {
    /// The one coin sent is not of the wanted denomination, which is named.
    MissingDenom(String),
    /// A coin of an unsupported denomination was sent.
    ExtraDenom(String),
    /// More than one coin was sent.
    MultipleDenoms {  },
    /// Nothing was sent, or an amount of zero.
    NoFunds {  },
    /// Funds were sent where none are taken.
    NonPayable {  },
}

pub enum PaymentErrorView {
    MissingDenom(Seq<char>),
    ExtraDenom(Seq<char>),
    MultipleDenoms,
    NoFunds,
    NonPayable,
}

impl View for PaymentError {
    type V = PaymentErrorView;

    open spec fn view(&self) -> PaymentErrorView {
        match *self {
            PaymentError::MissingDenom(d) => PaymentErrorView::MissingDenom(d@),
            PaymentError::ExtraDenom(d) => PaymentErrorView::ExtraDenom(d@),
            PaymentError::MultipleDenoms {  } => PaymentErrorView::MultipleDenoms,
            PaymentError::NoFunds {  } => PaymentErrorView::NoFunds,
            PaymentError::NonPayable {  } => PaymentErrorView::NonPayable,
        }
    }
}

impl PaymentError {
    /// The refusal in words.
    pub open spec fn text(&self) -> Seq<char> {
        match *self {
            PaymentError::MissingDenom(d) => "Must send reserve token '"@ + d@ + "'"@,
            PaymentError::ExtraDenom(d) => "Received unsupported denom '"@ + d@ + "'"@,
            PaymentError::MultipleDenoms {  } => "Sent more than one denomination"@,
            PaymentError::NoFunds {  } => "No funds sent"@,
            PaymentError::NonPayable {  } => "This message does no accept funds"@,
        }
    }

    /// The refusal in words, as a caller is shown it.
    pub fn message(&self) -> (s: String)
        ensures
            s@ == self.text(),
    {
        match self {
            PaymentError::MissingDenom(d) => {
                let mut s = "Must send reserve token '".to_owned();
                s.append(d.as_str());
                s.append("'");
                s
            },
            PaymentError::ExtraDenom(d) => {
                let mut s = "Received unsupported denom '".to_owned();
                s.append(d.as_str());
                s.append("'");
                s
            },
            PaymentError::MultipleDenoms {  } => "Sent more than one denomination".to_owned(),
            PaymentError::NoFunds {  } => "No funds sent".to_owned(),
            PaymentError::NonPayable {  } => "This message does no accept funds".to_owned(),
        }
    }
}

/// The outcome of a payment check, with the error taken by its view.
pub open spec fn payment_view(r: Result<u128, PaymentError>) -> Result<u128, PaymentErrorView> {
    match r {
        Ok(amount) => Ok(amount),
        Err(e) => Err(e@),
    }
}

/// What is owed for funds that must be one non-zero coin of `denom`: the
/// coin's amount, or the reason why the funds are not that.
pub open spec fn required_payment(funds: Seq<CoinView>, denom: Seq<char>) -> Result<
    u128,
    PaymentErrorView,
> {
    if funds.len() == 0 {
        Err(PaymentErrorView::NoFunds)
    } else if funds.len() > 1 {
        Err(PaymentErrorView::MultipleDenoms)
    } else if funds[0].amount == 0 {
        Err(PaymentErrorView::NoFunds)
    } else if funds[0].denom != denom {
        Err(PaymentErrorView::MissingDenom(denom))
    } else {
        Ok(funds[0].amount)
    }
}

/// Calls `cw_utils::must_pay` on the attached funds. Trusted: the contract
/// restates that function's source, which accepts exactly one coin, of a
/// non-zero amount and of the denomination `denom`, and returns its amount;
/// it reports no funds for an empty list or a zero amount, several
/// denominations for more than one coin, and otherwise the missing
/// denomination by name.
#[verifier::external_body]
pub(crate) fn must_pay(info: &MessageInfo, denom: &str) -> (r: Result<u128, PaymentError>)
    ensures
        payment_view(r) == required_payment(views(info.funds@), denom@),
{
    let funds = info.funds.iter().map(|c| cosmwasm_std::coin(c.amount, c.denom.clone())).collect();
    let sender = cosmwasm_std::Addr::unchecked(info.sender.clone());
    match cw_utils::must_pay(&cosmwasm_std::MessageInfo { sender, funds }, denom) {
        Ok(amount) => Ok(amount.u128()),
        Err(cw_utils::PaymentError::MissingDenom(d)) => Err(PaymentError::MissingDenom(d)),
        Err(cw_utils::PaymentError::ExtraDenom(d)) => Err(PaymentError::ExtraDenom(d)),
        Err(cw_utils::PaymentError::MultipleDenoms {  }) => Err(PaymentError::MultipleDenoms {  }),
        Err(cw_utils::PaymentError::NoFunds {  }) => Err(PaymentError::NoFunds {  }),
        Err(cw_utils::PaymentError::NonPayable {  }) => Err(PaymentError::NonPayable {  }),
    }
}

/// A payment is accepted exactly when it is a single coin of the wanted
/// denomination with a non-zero amount; the amount owed is then that coin's.
pub proof fn lemma_payment_accepted(funds: Seq<CoinView>, denom: Seq<char>)
    ensures
        required_payment(funds, denom) is Ok <==> funds.len() == 1 && funds[0].denom == denom
            && funds[0].amount > 0,
        required_payment(funds, denom) is Ok ==> required_payment(funds, denom)->Ok_0
            == funds[0].amount,
{
}

} // verus!
