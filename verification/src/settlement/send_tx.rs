//! The rules for sending a settlement transaction.
//!
//! Sending a transaction can fail in ways that depend on the state of Ethereum. A rule looks at
//! the error of a failed send and says whether the transaction should be sent again with more
//! gas (`Ok(true)`), whether a specific error should be returned (`Err`), or that it does not
//! apply (`Ok(false)`).
//!
//! Sending awaits the provider in turn with decisions on gas, so the decisions stand here as
//! transitions of [SendTxPlan]; the loop that awaits the provider feeds the answers in.
use core::marker::PhantomData;
use vstd::prelude::*;
use vstd::utf8::encode_utf8;

verus! {

/// Errors of the MCR settlement client.
#[derive(Debug, Clone)]
pub enum McrEthConnectorError {
    /// The fee of the transaction (estimated gas times gas price) exceeds the gas limit.
    GasLimitExceed(u128, u128),
    /// The account funds are insufficient.
    InsufficientFunds(String),
    /// Sending the transaction failed, for the given reason.
    SendTransactionError(String),
    /// The transaction failed during its execution.
    RpcTransactionExecution(String),
    /// The notification of accepted blocks failed.
    EventNotificationError(String),
    /// The stream of accepted block notifications closed.
    EventNotificationStreamClosed,
}

/// The error of a failed send, as far as the rules look at it.
#[derive(Debug, Clone)]
pub enum SendTxError {
    /// The node answered with an error response.
    ErrorResp { code: i64, message: String },
    /// Any other failure, described.
    Other(String),
}

/// Whether `needle` occurs in `hay` at some position.
pub open spec fn has_substring(hay: Seq<u8>, needle: Seq<u8>) -> bool {
    exists|i: int| 0 <= i && i + needle.len() <= hay.len() && #[trigger] hay.subrange(i, i + needle.len()) == needle
}

/// Whether the text `message` contains the text `phrase`.
pub open spec fn mentions(message: Seq<char>, phrase: Seq<char>) -> bool {
    has_substring(encode_utf8(message), encode_utf8(phrase))
}

/// Whether `needle` occurs in `hay` at position `at`.
fn occurs_at(hay: &[u8], needle: &[u8], at: usize) -> (b: bool)
    requires
        at + needle@.len() <= hay@.len(),
    ensures
        b == (hay@.subrange(at as int, at + needle@.len()) == needle@),
{
    let n = hay.len();
    let mut j: usize = 0;
    while j < needle.len()
        invariant
            0 <= j <= needle@.len(),
            n == hay@.len(),
            at + needle@.len() <= n,
            forall|k: int| 0 <= k < j ==> hay@[at + k] == needle@[k],
        decreases needle@.len() - j,
    {
        if hay[at + j] != needle[j] {
            assert(hay@.subrange(at as int, at + needle@.len())[j as int] != needle@[j as int]);
            return false;
        }
        j = j + 1;
    }
    assert(hay@.subrange(at as int, at + needle@.len()) =~= needle@);
    true
}

/// Whether `needle` occurs in `hay`.
pub fn contains_bytes(hay: &[u8], needle: &[u8]) -> (b: bool)
    ensures
        b == has_substring(hay@, needle@),
{
    if needle.len() > hay.len() {
        return false;
    }
    let last = hay.len() - needle.len();
    let mut i: usize = 0;
    loop
        invariant
            i <= last,
            last + needle@.len() == hay@.len(),
            forall|k: int| 0 <= k < i ==> #[trigger] hay@.subrange(k, k + needle@.len()) != needle@,
        decreases last - i,
    {
        if occurs_at(hay, needle, i) {
            return true;
        }
        if i == last {
            assert forall|k: int| 0 <= k && k + needle@.len() <= hay@.len() implies #[trigger] hay@.subrange(k, k + needle@.len()) != needle@ by {
                assert(k <= last);
            }
            return false;
        }
        i = i + 1;
    }
}

/// Whether the text `message` contains the text `phrase`.
pub fn message_mentions(message: &str, phrase: &str) -> (b: bool)
    ensures
        b == mentions(message@, phrase@),
{
    contains_bytes(message.as_bytes(), phrase.as_bytes())
}

/// A rule for errors of a failed send.
pub trait VerifyRule {
    fn verify(&self, error: &SendTxError) -> Result<bool, McrEthConnectorError>;
}

/// A rule for one kind of error of a failed send.
pub struct SendTxErrorRule<Kind> {
    _kind: PhantomData<Kind>,
}

impl<Kind> SendTxErrorRule<Kind> {
    pub fn new() -> (r: Self) {
        SendTxErrorRule { _kind: PhantomData }
    }
}

/// The error of a transaction that pays too little for its gas.
pub struct UnderPriced;

/// The error of an account that cannot pay for a transaction.
pub struct InsufficentFunds;

/// The code that the node answers these errors with.
pub const SERVER_ERROR_CODE: i64 = -32000;

/// Whether `error` is an error response with the server error code that mentions `phrase`.
pub open spec fn is_server_error_mentioning(error: SendTxError, phrase: Seq<char>) -> bool {
    error matches SendTxError::ErrorResp { code, message } && code == SERVER_ERROR_CODE && mentions(message@, phrase)
}

impl VerifyRule for SendTxErrorRule<UnderPriced> {
    /// An underpriced transaction is sent again with more gas.
    fn verify(&self, error: &SendTxError) -> (r: Result<bool, McrEthConnectorError>)
        ensures
            r == Ok::<bool, McrEthConnectorError>(is_server_error_mentioning(*error, "transaction underpriced"@)),
    {
        match error {
            SendTxError::ErrorResp { code, message } => {
                Ok(*code == SERVER_ERROR_CODE && message_mentions(message.as_str(), "transaction underpriced"))
            },
            SendTxError::Other(_) => Ok(false),
        }
    }
}

impl VerifyRule for SendTxErrorRule<InsufficentFunds> {
    /// Insufficient funds end the sending with their own error, carrying the node's message.
    fn verify(&self, error: &SendTxError) -> (r: Result<bool, McrEthConnectorError>)
        ensures
            is_server_error_mentioning(*error, "insufficient funds"@) ==> (r matches Err(McrEthConnectorError::InsufficientFunds(m))
                && error matches SendTxError::ErrorResp { message, .. } && m@ == message@),
            !is_server_error_mentioning(*error, "insufficient funds"@) ==> r == Ok::<bool, McrEthConnectorError>(false),
    {
        match error {
            SendTxError::ErrorResp { code, message } => {
                if *code == SERVER_ERROR_CODE && message_mentions(message.as_str(), "insufficient funds") {
                    Err(McrEthConnectorError::InsufficientFunds(message.clone()))
                } else {
                    Ok(false)
                }
            },
            SendTxError::Other(_) => Ok(false),
        }
    }
}

/// `gas` raised by `percent` percent, rounding the raise down.
pub open spec fn raised(gas: u128, percent: u128) -> int {
    gas + (gas * percent) / 100
}

/// `gas` raised by `percent` percent, rounding the raise down.
pub fn raise_gas(gas: u128, percent: u128) -> (r: u128)
    requires
        gas * percent <= u128::MAX,
        raised(gas, percent) <= u128::MAX,
    ensures
        r == raised(gas, percent),
{
    gas + (gas * percent) / 100
}

/// What to do after a rule looked at the error of a failed send.
#[derive(Debug, Clone)]
pub enum RuleStep {
    /// The rule applies: send the transaction again with this much gas.
    Resend(u128),
    /// The rule does not apply: look at the next rule.
    NextRule,
    /// End the sending with this error.
    Stop(McrEthConnectorError),
}

/// What to do after the node's receipt of a sent transaction.
#[derive(Debug, Clone)]
pub enum ReceiptStep {
    /// The transaction executed.
    Done,
    /// The transaction ran out of gas; send it again with this much gas.
    Retry(u128),
    /// The transaction failed for another reason.
    Fail(McrEthConnectorError),
}

/// The state of sending a transaction: the gas it is sent with, the attempts left and the
/// limit on its fee.
pub struct SendTxPlan {
    estimate_gas: u128,
    attempts_left: u32,
    gas_limit: u128,
}

impl SendTxPlan {
    /// The gas the transaction is sent with.
    pub closed spec fn gas(&self) -> u128 {
        self.estimate_gas
    }

    /// The attempts left.
    pub closed spec fn attempts(&self) -> u32 {
        self.attempts_left
    }

    /// The limit on the fee.
    pub closed spec fn limit(&self) -> u128 {
        self.gas_limit
    }

    /// Starts sending with the estimated gas raised by 20%, since initial estimates are too
    /// low, with `nb_retry` attempts and the given limit on the fee.
    pub fn new(estimated_gas: u128, nb_retry: u32, gas_limit: u128) -> (p: Self)
        requires
            estimated_gas * 20 <= u128::MAX,
            raised(estimated_gas, 20) <= u128::MAX,
        ensures
            p.gas() == raised(estimated_gas, 20),
            p.attempts() == nb_retry,
            p.limit() == gas_limit,
    {
        SendTxPlan { estimate_gas: raise_gas(estimated_gas, 20), attempts_left: nb_retry, gas_limit }
    }

    /// The gas the transaction is sent with.
    pub fn current_gas(&self) -> (g: u128)
        ensures
            g == self.gas(),
    {
        self.estimate_gas
    }

    /// Starts an attempt, if any is left.
    pub fn begin_attempt(&mut self) -> (started: bool)
        ensures
            started == (old(self).attempts() > 0),
            started ==> final(self).attempts() == old(self).attempts() - 1,
            !started ==> final(self).attempts() == old(self).attempts(),
            final(self).gas() == old(self).gas(),
            final(self).limit() == old(self).limit(),
    {
        if self.attempts_left > 0 {
            self.attempts_left = self.attempts_left - 1;
            true
        } else {
            false
        }
    }

    /// Given the gas price, the gas to send the transaction with, or the error when the fee
    /// (gas times price) exceeds the limit.
    pub fn gas_for_price(&self, gas_price: u128) -> (r: Result<u128, McrEthConnectorError>)
        requires
            self.gas() * gas_price <= u128::MAX,
        ensures
            self.gas() * gas_price <= self.limit() ==> r == Ok::<u128, McrEthConnectorError>(self.gas()),
            self.gas() * gas_price > self.limit() ==> (r matches Err(McrEthConnectorError::GasLimitExceed(fee, limit))
                && fee == self.gas() * gas_price && limit == self.limit()),
    {
        let fee = self.estimate_gas * gas_price;
        if fee > self.gas_limit {
            Err(McrEthConnectorError::GasLimitExceed(fee, self.gas_limit))
        } else {
            Ok(self.estimate_gas)
        }
    }

    /// Takes the verdict of a rule on a failed send: an error ends the sending; a rule that
    /// applies stops the checking, and the transaction is sent again with 10% more gas; a
    /// rule that does not apply hands the error to the next rule.
    pub fn on_rule_verdict(&mut self, verdict: Result<bool, McrEthConnectorError>) -> (step: RuleStep)
        requires
            old(self).gas() * 10 <= u128::MAX,
            raised(old(self).gas(), 10) <= u128::MAX,
        ensures
            verdict matches Err(e) ==> step == RuleStep::Stop(e) && final(self).gas() == old(self).gas(),
            verdict == Ok::<bool, McrEthConnectorError>(true) ==> step == RuleStep::Resend(final(self).gas())
                && final(self).gas() == raised(old(self).gas(), 10),
            verdict == Ok::<bool, McrEthConnectorError>(false) ==> step is NextRule && final(self).gas() == old(self).gas(),
            final(self).attempts() == old(self).attempts(),
            final(self).limit() == old(self).limit(),
    {
        match verdict {
            Err(e) => RuleStep::Stop(e),
            Ok(true) => {
                self.estimate_gas = raise_gas(self.estimate_gas, 10);
                RuleStep::Resend(self.estimate_gas)
            },
            Ok(false) => RuleStep::NextRule,
        }
    }

    /// Takes the receipt of a sent transaction: success ends the sending; a failed execution
    /// that used all the gas is sent again with 10% more gas; any other failure ends it with
    /// the given description.
    pub fn on_receipt(&mut self, status: bool, gas_used: u128, failure: String) -> (step: ReceiptStep)
        requires
            old(self).gas() * 10 <= u128::MAX,
            raised(old(self).gas(), 10) <= u128::MAX,
        ensures
            status ==> step is Done && final(self).gas() == old(self).gas(),
            !status && gas_used == old(self).gas() ==> step == ReceiptStep::Retry(final(self).gas()) && final(self).gas() == raised(old(self).gas(), 10),
            !status && gas_used != old(self).gas() ==> (step matches ReceiptStep::Fail(McrEthConnectorError::RpcTransactionExecution(m)) && m == failure)
                && final(self).gas() == old(self).gas(),
            final(self).attempts() == old(self).attempts(),
            final(self).limit() == old(self).limit(),
    {
        if status {
            ReceiptStep::Done
        } else if gas_used == self.estimate_gas {
            self.estimate_gas = raise_gas(self.estimate_gas, 10);
            ReceiptStep::Retry(self.estimate_gas)
        } else {
            ReceiptStep::Fail(McrEthConnectorError::RpcTransactionExecution(failure))
        }
    }
}

/// The error when every attempt was used.
pub fn max_retry_exceeded() -> (e: McrEthConnectorError)
    ensures
        e matches McrEthConnectorError::RpcTransactionExecution(m) && m@ == "Send commitment Tx fail because of exceed max retry"@,
{
    proof { reveal_strlit("Send commitment Tx fail because of exceed max retry"); }
    McrEthConnectorError::RpcTransactionExecution("Send commitment Tx fail because of exceed max retry".to_owned())
}

} // verus!
