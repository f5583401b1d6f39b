//! Status, type and direction of wallet transactions.

use crate::api::ApiError;
use crate::text::str_eq;
use vstd::prelude::*;
use vstd::string::*;

verus! {

/// How far a transaction has come.
#[derive(Debug, Clone, Copy, Eq, PartialEq, Hash)]
pub enum TransactionStatus {
    Canceled,
    Finished,
    OpenInvitation,
    Pending,
    Processing,
    Unconfirmed,
    UnconfirmedTransactionOut,
}

impl TransactionStatus {
    /// The wire token of the status.
    pub open spec fn token(self) -> Seq<char> {
        match self {
            TransactionStatus::Canceled => "canceled"@,
            TransactionStatus::Finished => "finished"@,
            TransactionStatus::OpenInvitation => "open_invitation"@,
            TransactionStatus::Pending => "pending"@,
            TransactionStatus::Processing => "processing"@,
            TransactionStatus::Unconfirmed => "unconfirmed"@,
            TransactionStatus::UnconfirmedTransactionOut => "unconfirmed_transaction_out"@,
        }
    }

    /// The status that a wire token stands for, if any.
    pub open spec fn parse(s: Seq<char>) -> Option<Self> {
        if s == TransactionStatus::Canceled.token() {
            Some(TransactionStatus::Canceled)
        } else if s == TransactionStatus::Finished.token() {
            Some(TransactionStatus::Finished)
        } else if s == TransactionStatus::OpenInvitation.token() {
            Some(TransactionStatus::OpenInvitation)
        } else if s == TransactionStatus::Pending.token() {
            Some(TransactionStatus::Pending)
        } else if s == TransactionStatus::Processing.token() {
            Some(TransactionStatus::Processing)
        } else if s == TransactionStatus::Unconfirmed.token() {
            Some(TransactionStatus::Unconfirmed)
        } else if s == TransactionStatus::UnconfirmedTransactionOut.token() {
            Some(TransactionStatus::UnconfirmedTransactionOut)
        } else {
            None
        }
    }

    /// Writes the status as its wire token.
    pub fn to_string(&self) -> (r: String)
        ensures
            r@ == self.token(),
    {
        match self {
            TransactionStatus::Canceled => "canceled",
            TransactionStatus::Finished => "finished",
            TransactionStatus::OpenInvitation => "open_invitation",
            TransactionStatus::Pending => "pending",
            TransactionStatus::Processing => "processing",
            TransactionStatus::Unconfirmed => "unconfirmed",
            TransactionStatus::UnconfirmedTransactionOut => "unconfirmed_transaction_out",
        }.to_owned()
    }

    /// Reads a wire token. Any text outside the closed set is refused with
    /// `UnexpectedValue`, which carries the text.
    pub fn from_str(s: &str) -> (r: Result<Self, ApiError>)
        ensures
            match Self::parse(s@) {
                Some(v) => r == Ok::<Self, ApiError>(v),
                None => r is Err && r->Err_0.unexpected_token() == Some(s@),
            },
    {
        if str_eq(s, "canceled") {
            Ok(TransactionStatus::Canceled)
        } else if str_eq(s, "finished") {
            Ok(TransactionStatus::Finished)
        } else if str_eq(s, "open_invitation") {
            Ok(TransactionStatus::OpenInvitation)
        } else if str_eq(s, "pending") {
            Ok(TransactionStatus::Pending)
        } else if str_eq(s, "processing") {
            Ok(TransactionStatus::Processing)
        } else if str_eq(s, "unconfirmed") {
            Ok(TransactionStatus::Unconfirmed)
        } else if str_eq(s, "unconfirmed_transaction_out") {
            Ok(TransactionStatus::UnconfirmedTransactionOut)
        } else {
            Err(ApiError::UnexpectedValue(s.to_owned()))
        }
    }
}

/// What a transaction does.
#[derive(Debug, Clone, Copy, Eq, PartialEq, Hash)]
pub enum TransactionType {
    Buy,
    Deposit,
    Ico,
    Refund,
    Sell,
    Transfer,
    Withdrawal,
}

impl TransactionType {
    /// The wire token of the type.
    pub open spec fn token(self) -> Seq<char> {
        match self {
            TransactionType::Buy => "buy"@,
            TransactionType::Deposit => "deposit"@,
            TransactionType::Ico => "ico"@,
            TransactionType::Refund => "refund"@,
            TransactionType::Sell => "sell"@,
            TransactionType::Transfer => "transfer"@,
            TransactionType::Withdrawal => "withdrawal"@,
        }
    }

    /// The type that a wire token stands for, if any.
    pub open spec fn parse(s: Seq<char>) -> Option<Self> {
        if s == TransactionType::Buy.token() {
            Some(TransactionType::Buy)
        } else if s == TransactionType::Deposit.token() {
            Some(TransactionType::Deposit)
        } else if s == TransactionType::Ico.token() {
            Some(TransactionType::Ico)
        } else if s == TransactionType::Refund.token() {
            Some(TransactionType::Refund)
        } else if s == TransactionType::Sell.token() {
            Some(TransactionType::Sell)
        } else if s == TransactionType::Transfer.token() {
            Some(TransactionType::Transfer)
        } else if s == TransactionType::Withdrawal.token() {
            Some(TransactionType::Withdrawal)
        } else {
            None
        }
    }

    /// Reads a wire token. Any text outside the closed set is refused with
    /// `UnexpectedValue`, which carries the text.
    pub fn from_str(s: &str) -> (r: Result<Self, ApiError>)
        ensures
            match Self::parse(s@) {
                Some(v) => r == Ok::<Self, ApiError>(v),
                None => r is Err && r->Err_0.unexpected_token() == Some(s@),
            },
    {
        if str_eq(s, "buy") {
            Ok(TransactionType::Buy)
        } else if str_eq(s, "deposit") {
            Ok(TransactionType::Deposit)
        } else if str_eq(s, "ico") {
            Ok(TransactionType::Ico)
        } else if str_eq(s, "refund") {
            Ok(TransactionType::Refund)
        } else if str_eq(s, "sell") {
            Ok(TransactionType::Sell)
        } else if str_eq(s, "transfer") {
            Ok(TransactionType::Transfer)
        } else if str_eq(s, "withdrawal") {
            Ok(TransactionType::Withdrawal)
        } else {
            Err(ApiError::UnexpectedValue(s.to_owned()))
        }
    }

    /// Writes the type as its wire token.
    pub fn to_string(&self) -> (r: String)
        ensures
            r@ == self.token(),
    {
        match self {
            TransactionType::Buy => "buy",
            TransactionType::Sell => "sell",
            TransactionType::Deposit => "deposit",
            TransactionType::Ico => "ico",
            TransactionType::Refund => "refund",
            TransactionType::Transfer => "transfer",
            TransactionType::Withdrawal => "withdrawal",
        }.to_owned()
    }
}

/// The direction of a transaction, seen from the wallet.
#[derive(Debug, Clone, Copy, Eq, PartialEq, Hash)]
pub enum InOrOut {
    Incoming,
    Outgoing,
}

impl InOrOut {
    /// The direction that a wire token stands for, if any.
    pub open spec fn parse(s: Seq<char>) -> Option<Self> {
        if s == "incoming"@ {
            Some(InOrOut::Incoming)
        } else if s == "outgoing"@ {
            Some(InOrOut::Outgoing)
        } else {
            None
        }
    }

    /// Reads a wire token. Any text outside the closed set is refused with
    /// `UnexpectedValue`, which carries the text.
    pub fn from_str(s: &str) -> (r: Result<Self, ApiError>)
        ensures
            match Self::parse(s@) {
                Some(v) => r == Ok::<Self, ApiError>(v),
                None => r is Err && r->Err_0.unexpected_token() == Some(s@),
            },
    {
        if str_eq(s, "incoming") {
            Ok(InOrOut::Incoming)
        } else if str_eq(s, "outgoing") {
            Ok(InOrOut::Outgoing)
        } else {
            Err(ApiError::UnexpectedValue(s.to_owned()))
        }
    }
}

/// Writing a status and reading it back gives the status, and a token is
/// read as a status only if it is that status's token.
pub proof fn lemma_transaction_status_round_trip(v: TransactionStatus)
    ensures
        TransactionStatus::parse(v.token()) == Some(v),
        forall|s: Seq<char>| TransactionStatus::parse(s) == Some(v) ==> s == v.token(),
{
    reveal_strlit("canceled");
    reveal_strlit("finished");
    reveal_strlit("open_invitation");
    reveal_strlit("pending");
    reveal_strlit("processing");
    reveal_strlit("unconfirmed");
    reveal_strlit("unconfirmed_transaction_out");
    assert("canceled"@.len() == 8 && "canceled"@[0] == 'c');
    assert("finished"@.len() == 8 && "finished"@[0] == 'f');
    assert("open_invitation"@.len() == 15);
    assert("pending"@.len() == 7);
    assert("processing"@.len() == 10);
    assert("unconfirmed"@.len() == 11);
    assert("unconfirmed_transaction_out"@.len() == 27);
}

/// Writing a type and reading it back gives the type, and a token is read
/// as a type only if it is that type's token.
pub proof fn lemma_transaction_type_round_trip(v: TransactionType)
    ensures
        TransactionType::parse(v.token()) == Some(v),
        forall|s: Seq<char>| TransactionType::parse(s) == Some(v) ==> s == v.token(),
{
    reveal_strlit("buy");
    reveal_strlit("deposit");
    reveal_strlit("ico");
    reveal_strlit("refund");
    reveal_strlit("sell");
    reveal_strlit("transfer");
    reveal_strlit("withdrawal");
    assert("buy"@.len() == 3 && "buy"@[0] == 'b');
    assert("ico"@.len() == 3 && "ico"@[0] == 'i');
    assert("deposit"@.len() == 7);
    assert("refund"@.len() == 6);
    assert("sell"@.len() == 4);
    assert("transfer"@.len() == 8);
    assert("withdrawal"@.len() == 10);
}

} // verus!
