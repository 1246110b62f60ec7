//! The balance query: which URL to ask for an address's unspent outputs, and
//! what balance or failure follows from the reply.

use vstd::prelude::*;
use vstd::string::StringExecFns;
use crate::address::Address;
use crate::balance::{checked_total, sum_values, Utxo};

verus! {

/// The URL under which the block explorer lists the unspent outputs of the
/// address written `address`.
pub open spec fn utxo_url_text(address: Seq<char>) -> Seq<char> {
    "https://blockstream.info/api/address/"@ + address + "/utxo"@
}

/// The URL to request with `GET` for the unspent outputs of `address`.
pub fn utxo_url(address: &Address) -> (url: String)
    ensures
        url@ == utxo_url_text(address@),
{
    let mut url = String::from_str("https://blockstream.info/api/address/");
    url.append(address.as_str());
    url.append("/utxo");
    url
}

/// How the one request for an address's unspent outputs ended.
#[derive(Debug)]
pub enum Reply {
    /// No response arrived: the request could not be sent, or the connection
    /// broke before the response was complete.
    Unreachable,
    /// A response arrived.
    Answered {
        /// The HTTP status code of the response.
        status: u16,
        /// The records in the body, or `None` where the body is not a JSON
        /// list of records that each hold a `value`.
        records: Option<Vec<Utxo>>,
    },
}

/// Why a balance query gave no balance.
#[derive(Clone, Copy, Debug, PartialEq, Eq, Structural)]
pub enum BalanceError {
    /// No response arrived.
    Network,
    /// The response carried this status code, which is not a success.
    Status(u16),
    /// The body of the response could not be read as a list of records.
    Decode,
    /// The values add up to more than 64 bits hold.
    Overflow,
}

/// Whether `status` is an HTTP success code: 200 to 299.
pub open spec fn is_success(status: u16) -> bool {
    200 <= status <= 299
}

/// The outcome of a balance query that ended with `reply`.
pub open spec fn balance_of_reply(reply: Reply) -> Result<u64, BalanceError> {
    match reply {
        Reply::Unreachable => Err(BalanceError::Network),
        Reply::Answered { status, records } => {
            if !is_success(status) {
                Err(BalanceError::Status(status))
            } else {
                match records {
                    None => Err(BalanceError::Decode),
                    Some(records) => match checked_total(records@) {
                        Some(total) => Ok(total),
                        None => Err(BalanceError::Overflow),
                    },
                }
            }
        },
    }
}

/// Whether `status` is an HTTP success code.
pub fn status_is_success(status: u16) -> (success: bool)
    ensures
        success == is_success(status),
{
    200 <= status && status <= 299
}

/// The balance that follows from `reply`, or the reason why there is none.
pub fn balance_from_reply(reply: &Reply) -> (outcome: Result<u64, BalanceError>)
    ensures
        outcome == balance_of_reply(*reply),
{
    match reply {
        Reply::Unreachable => Err(BalanceError::Network),
        Reply::Answered { status, records } => {
            if !status_is_success(*status) {
                Err(BalanceError::Status(*status))
            } else {
                match records {
                    None => Err(BalanceError::Decode),
                    Some(records) => match sum_values(records.as_slice()) {
                        Some(total) => Ok(total),
                        None => Err(BalanceError::Overflow),
                    },
                }
            }
        },
    }
}

/// A reply that is no success, or whose body is no list of records, gives a
/// failure and never a balance.
pub proof fn lemma_bad_reply_is_a_failure(reply: Reply)
    requires
        reply is Unreachable || !is_success(reply->status) || reply->records is None,
    ensures
        balance_of_reply(reply) is Err,
{
}

/// A successful reply gives the sum of its records, and fails only where
/// that sum does not fit in 64 bits.
pub proof fn lemma_good_reply_is_the_sum(status: u16, records: Vec<Utxo>)
    requires
        is_success(status),
    ensures
        balance_of_reply(Reply::Answered { status, records: Some(records) }) == match checked_total(
            records@,
        ) {
            Some(total) => Ok::<u64, BalanceError>(total),
            None => Err(BalanceError::Overflow),
        },
{
}

impl BalanceError {
    /// The wording of `message` for each failure.
    pub open spec fn message_text(self) -> Seq<char> {
        match self {
            BalanceError::Network => "error sending request"@,
            BalanceError::Status(_) => "server answered with an error status"@,
            BalanceError::Decode => "error decoding response body"@,
            BalanceError::Overflow => "sum of unspent outputs overflows 64 bits"@,
        }
    }

    /// One line that says what went wrong.
    pub fn message(&self) -> (text: String)
        ensures
            text@ == self.message_text(),
    {
        match self {
            BalanceError::Network => String::from_str("error sending request"),
            BalanceError::Status(_) => String::from_str("server answered with an error status"),
            BalanceError::Decode => String::from_str("error decoding response body"),
            BalanceError::Overflow => String::from_str("sum of unspent outputs overflows 64 bits"),
        }
    }
}

} // verus!
