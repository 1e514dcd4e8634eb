//! Transactions, and the parsing of a raw transaction record into one.
use vstd::prelude::*;
use crate::amount::Amount;

verus! {

/// Where a deposit stands in the dispute process.
#[derive(Clone, Copy, Debug, PartialEq, Eq, Structural)]
pub enum TransactionState {
    Disputed,
    Resolved,
    ChargedBack,
}

/// Money credited to a client's account.
#[derive(Clone, Copy, Debug)]
pub struct Deposit {
    pub client_id: u16,
    pub transaction_id: u32,
    pub amount: Amount,
    pub state: Option<TransactionState>,
}

impl Deposit {
    /// A deposit that is not under any dispute.
    pub fn new(client_id: u16, transaction_id: u32, amount: Amount) -> (r: Deposit)
        ensures
            r == (Deposit { client_id, transaction_id, amount, state: None }),
    {
        Deposit { client_id, transaction_id, amount, state: None }
    }
}

/// Money debited from a client's account.
#[derive(Clone, Copy, Debug)]
pub struct Withdrawal {
    pub client_id: u16,
    pub transaction_id: u32,
    pub amount: Amount,
}

impl Withdrawal {
    pub fn new(client_id: u16, transaction_id: u32, amount: Amount) -> (r: Withdrawal)
        ensures
            r == (Withdrawal { client_id, transaction_id, amount }),
    {
        Withdrawal { client_id, transaction_id, amount }
    }
}

/// A claim that an earlier deposit was erroneous.
#[derive(Clone, Copy, Debug)]
pub struct Dispute {
    pub client_id: u16,
    pub transaction_id: u32,
}

impl Dispute {
    pub fn new(client_id: u16, transaction_id: u32) -> (r: Dispute)
        ensures
            r == (Dispute { client_id, transaction_id }),
    {
        Dispute { client_id, transaction_id }
    }
}

/// The settlement of a dispute in the client's favour of keeping the deposit.
#[derive(Clone, Copy, Debug)]
pub struct Resolve {
    pub client_id: u16,
    pub transaction_id: u32,
}

impl Resolve {
    pub fn new(client_id: u16, transaction_id: u32) -> (r: Resolve)
        ensures
            r == (Resolve { client_id, transaction_id }),
    {
        Resolve { client_id, transaction_id }
    }
}

/// The reversal of a disputed deposit.
#[derive(Clone, Copy, Debug)]
pub struct Chargeback {
    pub client_id: u16,
    pub transaction_id: u32,
}

impl Chargeback {
    pub fn new(client_id: u16, transaction_id: u32) -> (r: Chargeback)
        ensures
            r == (Chargeback { client_id, transaction_id }),
    {
        Chargeback { client_id, transaction_id }
    }
}

#[derive(Clone, Copy, Debug)]
pub enum Transaction {
    Deposit(Deposit),
    Withdrawal(Withdrawal),
    Dispute(Dispute),
    Resolve(Resolve),
    Chargeback(Chargeback),
}

impl Transaction {
    /// The client that the transaction is about.
    pub open spec fn client_of(self) -> u16 {
        match self {
            Transaction::Deposit(deposit) => deposit.client_id,
            Transaction::Withdrawal(withdrawal) => withdrawal.client_id,
            Transaction::Dispute(dispute) => dispute.client_id,
            Transaction::Resolve(resolve) => resolve.client_id,
            Transaction::Chargeback(chargeback) => chargeback.client_id,
        }
    }

    /// The transaction id that the transaction carries.
    pub open spec fn transaction_id_of(self) -> u32 {
        match self {
            Transaction::Deposit(deposit) => deposit.transaction_id,
            Transaction::Withdrawal(withdrawal) => withdrawal.transaction_id,
            Transaction::Dispute(dispute) => dispute.transaction_id,
            Transaction::Resolve(resolve) => resolve.transaction_id,
            Transaction::Chargeback(chargeback) => chargeback.transaction_id,
        }
    }

    /// The amount that a deposit or a withdrawal carries.
    pub open spec fn amount_of(self) -> Option<Amount> {
        match self {
            Transaction::Deposit(deposit) => Some(deposit.amount),
            Transaction::Withdrawal(withdrawal) => Some(withdrawal.amount),
            _ => None,
        }
    }

    /// Each kind of transaction is about the client and the transaction id it
    /// was built with.
    pub proof fn lemma_fields_of(client_id: u16, transaction_id: u32, amount: Amount)
        ensures
            Transaction::Deposit(Deposit { client_id, transaction_id, amount, state: None }).client_of() == client_id,
            Transaction::Withdrawal(Withdrawal { client_id, transaction_id, amount }).client_of() == client_id,
            Transaction::Dispute(Dispute { client_id, transaction_id }).client_of() == client_id,
            Transaction::Resolve(Resolve { client_id, transaction_id }).client_of() == client_id,
            Transaction::Chargeback(Chargeback { client_id, transaction_id }).client_of() == client_id,
            Transaction::Deposit(Deposit { client_id, transaction_id, amount, state: None }).transaction_id_of() == transaction_id,
            Transaction::Withdrawal(Withdrawal { client_id, transaction_id, amount }).transaction_id_of() == transaction_id,
            Transaction::Dispute(Dispute { client_id, transaction_id }).transaction_id_of() == transaction_id,
            Transaction::Resolve(Resolve { client_id, transaction_id }).transaction_id_of() == transaction_id,
            Transaction::Chargeback(Chargeback { client_id, transaction_id }).transaction_id_of() == transaction_id,
    {
    }

    pub fn get_client_id(&self) -> (r: u16)
        ensures
            r == self.client_of(),
    {
        match self {
            Transaction::Deposit(deposit) => deposit.client_id,
            Transaction::Withdrawal(withdrawal) => withdrawal.client_id,
            Transaction::Dispute(dispute) => dispute.client_id,
            Transaction::Resolve(resolve) => resolve.client_id,
            Transaction::Chargeback(chargeback) => chargeback.client_id,
        }
    }
}

/// Why a raw transaction record is not a transaction.
#[derive(Debug)]
pub enum ParseError {
    /// A deposit or a withdrawal without an amount.
    MissingAmount,
    /// A record whose type is none of the five transaction types; it holds that type.
    InvalidTransaction(String),
}

/// A transaction record as it is read: its type is free text.
#[derive(Debug)]
pub struct RawTransaction {
    pub kind: String,
    pub amount: Option<Amount>,
    pub client: u16,
    pub tx: u32,
}

/// What `str::to_lowercase` returns for a string.
pub uninterp spec fn str_to_lowercase(s: Seq<char>) -> Seq<char>;

/// Calls `str::to_lowercase`. Claims only that the result is the named
/// `str_to_lowercase` of the argument: Unicode lower-casing is not stated here.
#[verifier::external_body]
fn lowercase(s: &str) -> (r: String)
    ensures
        r@ == str_to_lowercase(s@),
{
    s.to_lowercase()
}

/// Whether `kind` reads `name`.
fn is_kind(kind: &String, name: &str) -> (r: bool)
    ensures
        r == (kind@ == name@),
{
    let name = name.to_owned();
    kind.eq(&name)
}

impl RawTransaction {
    /// The transaction that the record stands for, once its type has been
    /// lower-cased to `kind`.
    pub open spec fn parsed_as(self, kind: Seq<char>) -> Result<Transaction, ParseError> {
        if kind == "deposit"@ {
            match self.amount {
                Some(amount) => Ok(
                    Transaction::Deposit(
                        Deposit {
                            client_id: self.client,
                            transaction_id: self.tx,
                            amount,
                            state: None,
                        },
                    ),
                ),
                None => Err(ParseError::MissingAmount),
            }
        } else if kind == "withdrawal"@ {
            match self.amount {
                Some(amount) => Ok(
                    Transaction::Withdrawal(
                        Withdrawal { client_id: self.client, transaction_id: self.tx, amount },
                    ),
                ),
                None => Err(ParseError::MissingAmount),
            }
        } else if kind == "dispute"@ {
            Ok(Transaction::Dispute(Dispute { client_id: self.client, transaction_id: self.tx }))
        } else if kind == "resolve"@ {
            Ok(Transaction::Resolve(Resolve { client_id: self.client, transaction_id: self.tx }))
        } else if kind == "chargeback"@ {
            Ok(
                Transaction::Chargeback(
                    Chargeback { client_id: self.client, transaction_id: self.tx },
                ),
            )
        } else {
            Err(ParseError::InvalidTransaction(self.kind))
        }
    }

    /// Parsing keeps the record's fields: a parsed transaction is about the
    /// record's client and transaction id, a deposit or a withdrawal carries the
    /// record's amount, and a deposit starts undisputed. A missing amount is the
    /// only reason to refuse a deposit or a withdrawal, and an unknown type is
    /// refused with the record's own type text.
    pub proof fn lemma_parsing_keeps_fields(self, kind: Seq<char>)
        ensures
            self.parsed_as(kind) matches Ok(t) ==> t.client_of() == self.client && t.transaction_id_of() == self.tx,
            self.parsed_as(kind) matches Ok(t) ==> (t is Deposit || t is Withdrawal) ==> t.amount_of() == self.amount,
            self.parsed_as(kind) matches Ok(t) ==> (t matches Transaction::Deposit(d) ==> d.state is None),
            self.parsed_as(kind) matches Err(ParseError::InvalidTransaction(k)) ==> k == self.kind,
            self.parsed_as(kind) matches Err(ParseError::MissingAmount) ==> self.amount is None,
    {
    }

    /// Each of the five type names gives its own kind of transaction; the
    /// dispute, resolve and chargeback types need no amount.
    pub proof fn lemma_type_names(self)
        ensures
            self.parsed_as("deposit"@) is Ok <==> self.amount is Some,
            self.parsed_as("deposit"@) matches Ok(t) ==> t is Deposit,
            self.parsed_as("withdrawal"@) is Ok <==> self.amount is Some,
            self.parsed_as("withdrawal"@) matches Ok(t) ==> t is Withdrawal,
            self.parsed_as("dispute"@) matches Ok(t) && t is Dispute,
            self.parsed_as("resolve"@) matches Ok(t) && t is Resolve,
            self.parsed_as("chargeback"@) matches Ok(t) && t is Chargeback,
    {
        reveal_strlit("deposit");
        reveal_strlit("withdrawal");
        reveal_strlit("dispute");
        reveal_strlit("resolve");
        reveal_strlit("chargeback");
        assert("withdrawal"@.len() != "deposit"@.len());
        assert("dispute"@[1] != "deposit"@[1]);
        assert("dispute"@.len() != "withdrawal"@.len());
        assert("resolve"@[0] != "deposit"@[0]);
        assert("resolve"@.len() != "withdrawal"@.len());
        assert("resolve"@[0] != "dispute"@[0]);
        assert("chargeback"@.len() != "deposit"@.len());
        assert("chargeback"@[0] != "withdrawal"@[0]);
        assert("chargeback"@.len() != "dispute"@.len());
        assert("chargeback"@.len() != "resolve"@.len());
    }

    /// The transaction that the record stands for, where `kind` is its type
    /// already lower-cased.
    pub fn to_transaction_of_kind(&self, kind: &String) -> (r: Result<Transaction, ParseError>)
        ensures
            r == self.parsed_as(kind@),
            r matches Ok(t) ==> t.client_of() == self.client && t.transaction_id_of() == self.tx,
            r matches Ok(t) ==> (t is Deposit || t is Withdrawal) ==> t.amount_of() == self.amount,
            r matches Ok(t) ==> (t matches Transaction::Deposit(d) ==> d.state is None),
            r matches Err(ParseError::InvalidTransaction(k)) ==> k == self.kind,
            r matches Err(ParseError::MissingAmount) ==> self.amount is None,
    {
        if is_kind(kind, "deposit") {
            match self.amount {
                Some(amount) => Ok(Transaction::Deposit(Deposit::new(self.client, self.tx, amount))),
                None => Err(ParseError::MissingAmount),
            }
        } else if is_kind(kind, "withdrawal") {
            match self.amount {
                Some(amount) => Ok(
                    Transaction::Withdrawal(Withdrawal::new(self.client, self.tx, amount)),
                ),
                None => Err(ParseError::MissingAmount),
            }
        } else if is_kind(kind, "dispute") {
            Ok(Transaction::Dispute(Dispute::new(self.client, self.tx)))
        } else if is_kind(kind, "resolve") {
            Ok(Transaction::Resolve(Resolve::new(self.client, self.tx)))
        } else if is_kind(kind, "chargeback") {
            Ok(Transaction::Chargeback(Chargeback::new(self.client, self.tx)))
        } else {
            Err(ParseError::InvalidTransaction(self.kind.clone()))
        }
    }

    /// The transaction that the record stands for; its type is read without
    /// regard to case.
    pub fn to_transaction(&self) -> (r: Result<Transaction, ParseError>)
        ensures
            r == self.parsed_as(str_to_lowercase(self.kind@)),
            r matches Ok(t) ==> t.client_of() == self.client && t.transaction_id_of() == self.tx,
            r matches Ok(t) ==> (t is Deposit || t is Withdrawal) ==> t.amount_of() == self.amount,
            r matches Ok(t) ==> (t matches Transaction::Deposit(d) ==> d.state is None),
            r matches Err(ParseError::InvalidTransaction(k)) ==> k == self.kind,
            r matches Err(ParseError::MissingAmount) ==> self.amount is None,
    {
        let kind = lowercase(self.kind.as_str());
        self.to_transaction_of_kind(&kind)
    }
}

} // verus!
