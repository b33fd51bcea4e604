use vstd::prelude::*;

verus! {

/// What a transaction does with money: the `type` column.
#[derive(Debug, Clone, Copy, PartialEq, Eq, Structural)]
pub enum TransactionType {
    Income,
    Expense,
    Transfer,
    Reimbursement,
    Refund,
    Other,
}

impl TransactionType {
    /// The text under which the value is stored.
    pub open spec fn text(self) -> Seq<char> {
        match self {
            TransactionType::Income => "income"@,
            TransactionType::Expense => "expense"@,
            TransactionType::Transfer => "transfer"@,
            TransactionType::Reimbursement => "reimbursement"@,
            TransactionType::Refund => "refund"@,
            TransactionType::Other => "other"@,
        }
    }

    /// The value stored under `s`, if any.
    pub open spec fn from_text(s: Seq<char>) -> Option<TransactionType> {
        if s == "income"@ {
            Some(TransactionType::Income)
        } else if s == "expense"@ {
            Some(TransactionType::Expense)
        } else if s == "transfer"@ {
            Some(TransactionType::Transfer)
        } else if s == "reimbursement"@ {
            Some(TransactionType::Reimbursement)
        } else if s == "refund"@ {
            Some(TransactionType::Refund)
        } else if s == "other"@ {
            Some(TransactionType::Other)
        } else {
            None
        }
    }

    pub fn as_str(&self) -> (r: &'static str)
        ensures
            r@ == self.text(),
    {
        match self {
            TransactionType::Income => "income",
            TransactionType::Expense => "expense",
            TransactionType::Transfer => "transfer",
            TransactionType::Reimbursement => "reimbursement",
            TransactionType::Refund => "refund",
            TransactionType::Other => "other",
        }
    }

    /// Reads a stored text back; text of no variant gives `None`.
    pub fn parse(s: &String) -> (r: Option<TransactionType>)
        ensures
            r == TransactionType::from_text(s@),
    {
        if *s == "income".to_owned() {
            Some(TransactionType::Income)
        } else if *s == "expense".to_owned() {
            Some(TransactionType::Expense)
        } else if *s == "transfer".to_owned() {
            Some(TransactionType::Transfer)
        } else if *s == "reimbursement".to_owned() {
            Some(TransactionType::Reimbursement)
        } else if *s == "refund".to_owned() {
            Some(TransactionType::Refund)
        } else if *s == "other".to_owned() {
            Some(TransactionType::Other)
        } else {
            None
        }
    }

}

/// Reading back the stored text of a `TransactionType` gives that same value.
pub proof fn lemma_transaction_type_text_round_trip(v: TransactionType)
    ensures
        TransactionType::from_text(v.text()) == Some(v),
{
    reveal_strlit("income");
    reveal_strlit("expense");
    reveal_strlit("transfer");
    reveal_strlit("reimbursement");
    reveal_strlit("refund");
    reveal_strlit("other");
    match v {
        TransactionType::Income => {},
        TransactionType::Expense => {
            assert("expense"@.len() != "income"@.len());
        },
        TransactionType::Transfer => {
            assert("transfer"@.len() != "income"@.len());
            assert("transfer"@.len() != "expense"@.len());
        },
        TransactionType::Reimbursement => {
            assert("reimbursement"@.len() != "income"@.len());
            assert("reimbursement"@.len() != "expense"@.len());
            assert("reimbursement"@.len() != "transfer"@.len());
        },
        TransactionType::Refund => {
            assert("refund"@[0] != "income"@[0]);
            assert("refund"@.len() != "expense"@.len());
            assert("refund"@.len() != "transfer"@.len());
            assert("refund"@.len() != "reimbursement"@.len());
        },
        TransactionType::Other => {
            assert("other"@.len() != "income"@.len());
            assert("other"@.len() != "expense"@.len());
            assert("other"@.len() != "transfer"@.len());
            assert("other"@.len() != "reimbursement"@.len());
            assert("other"@.len() != "refund"@.len());
        },
    }
}

/// Where a transaction stands: the `status` column.
#[derive(Debug, Clone, Copy, PartialEq, Eq, Structural)]
pub enum TransactionStatus {
    Pending,
    Completed,
    Cancelled,
    Failed,
}

impl TransactionStatus {
    /// The text under which the value is stored.
    pub open spec fn text(self) -> Seq<char> {
        match self {
            TransactionStatus::Pending => "pending"@,
            TransactionStatus::Completed => "completed"@,
            TransactionStatus::Cancelled => "cancelled"@,
            TransactionStatus::Failed => "failed"@,
        }
    }

    /// The value stored under `s`, if any.
    pub open spec fn from_text(s: Seq<char>) -> Option<TransactionStatus> {
        if s == "pending"@ {
            Some(TransactionStatus::Pending)
        } else if s == "completed"@ {
            Some(TransactionStatus::Completed)
        } else if s == "cancelled"@ {
            Some(TransactionStatus::Cancelled)
        } else if s == "failed"@ {
            Some(TransactionStatus::Failed)
        } else {
            None
        }
    }

    pub fn as_str(&self) -> (r: &'static str)
        ensures
            r@ == self.text(),
    {
        match self {
            TransactionStatus::Pending => "pending",
            TransactionStatus::Completed => "completed",
            TransactionStatus::Cancelled => "cancelled",
            TransactionStatus::Failed => "failed",
        }
    }

    /// Reads a stored text back; text of no variant gives `None`.
    pub fn parse(s: &String) -> (r: Option<TransactionStatus>)
        ensures
            r == TransactionStatus::from_text(s@),
    {
        if *s == "pending".to_owned() {
            Some(TransactionStatus::Pending)
        } else if *s == "completed".to_owned() {
            Some(TransactionStatus::Completed)
        } else if *s == "cancelled".to_owned() {
            Some(TransactionStatus::Cancelled)
        } else if *s == "failed".to_owned() {
            Some(TransactionStatus::Failed)
        } else {
            None
        }
    }

    /// The value a new record takes when none is given: `Completed`.
    pub fn default_value() -> (r: TransactionStatus)
        ensures
            r == TransactionStatus::Completed,
    {
        TransactionStatus::Completed
    }

}

/// Reading back the stored text of a `TransactionStatus` gives that same value.
pub proof fn lemma_transaction_status_text_round_trip(v: TransactionStatus)
    ensures
        TransactionStatus::from_text(v.text()) == Some(v),
{
    reveal_strlit("pending");
    reveal_strlit("completed");
    reveal_strlit("cancelled");
    reveal_strlit("failed");
    match v {
        TransactionStatus::Pending => {},
        TransactionStatus::Completed => {
            assert("completed"@.len() != "pending"@.len());
        },
        TransactionStatus::Cancelled => {
            assert("cancelled"@.len() != "pending"@.len());
            assert("cancelled"@[1] != "completed"@[1]);
        },
        TransactionStatus::Failed => {
            assert("failed"@.len() != "pending"@.len());
            assert("failed"@.len() != "completed"@.len());
            assert("failed"@.len() != "cancelled"@.len());
        },
    }
}

/// How a transaction was paid: the `method` column.
#[derive(Debug, Clone, Copy, PartialEq, Eq, Structural)]
pub enum PaymentMethod {
    Cash,
    Card,
    BankTransfer,
    Paypal,
    Apple,
    Other,
}

impl PaymentMethod {
    /// The text under which the value is stored.
    pub open spec fn text(self) -> Seq<char> {
        match self {
            PaymentMethod::Cash => "cash"@,
            PaymentMethod::Card => "card"@,
            PaymentMethod::BankTransfer => "bank_transfer"@,
            PaymentMethod::Paypal => "paypal"@,
            PaymentMethod::Apple => "apple"@,
            PaymentMethod::Other => "other"@,
        }
    }

    /// The value stored under `s`, if any.
    pub open spec fn from_text(s: Seq<char>) -> Option<PaymentMethod> {
        if s == "cash"@ {
            Some(PaymentMethod::Cash)
        } else if s == "card"@ {
            Some(PaymentMethod::Card)
        } else if s == "bank_transfer"@ {
            Some(PaymentMethod::BankTransfer)
        } else if s == "paypal"@ {
            Some(PaymentMethod::Paypal)
        } else if s == "apple"@ {
            Some(PaymentMethod::Apple)
        } else if s == "other"@ {
            Some(PaymentMethod::Other)
        } else {
            None
        }
    }

    pub fn as_str(&self) -> (r: &'static str)
        ensures
            r@ == self.text(),
    {
        match self {
            PaymentMethod::Cash => "cash",
            PaymentMethod::Card => "card",
            PaymentMethod::BankTransfer => "bank_transfer",
            PaymentMethod::Paypal => "paypal",
            PaymentMethod::Apple => "apple",
            PaymentMethod::Other => "other",
        }
    }

    /// Reads a stored text back; text of no variant gives `None`.
    pub fn parse(s: &String) -> (r: Option<PaymentMethod>)
        ensures
            r == PaymentMethod::from_text(s@),
    {
        if *s == "cash".to_owned() {
            Some(PaymentMethod::Cash)
        } else if *s == "card".to_owned() {
            Some(PaymentMethod::Card)
        } else if *s == "bank_transfer".to_owned() {
            Some(PaymentMethod::BankTransfer)
        } else if *s == "paypal".to_owned() {
            Some(PaymentMethod::Paypal)
        } else if *s == "apple".to_owned() {
            Some(PaymentMethod::Apple)
        } else if *s == "other".to_owned() {
            Some(PaymentMethod::Other)
        } else {
            None
        }
    }

    /// The value a new record takes when none is given: `Other`.
    pub fn default_value() -> (r: PaymentMethod)
        ensures
            r == PaymentMethod::Other,
    {
        PaymentMethod::Other
    }

}

/// Reading back the stored text of a `PaymentMethod` gives that same value.
pub proof fn lemma_payment_method_text_round_trip(v: PaymentMethod)
    ensures
        PaymentMethod::from_text(v.text()) == Some(v),
{
    reveal_strlit("cash");
    reveal_strlit("card");
    reveal_strlit("bank_transfer");
    reveal_strlit("paypal");
    reveal_strlit("apple");
    reveal_strlit("other");
    match v {
        PaymentMethod::Cash => {},
        PaymentMethod::Card => {
            assert("card"@[2] != "cash"@[2]);
        },
        PaymentMethod::BankTransfer => {
            assert("bank_transfer"@.len() != "cash"@.len());
            assert("bank_transfer"@.len() != "card"@.len());
        },
        PaymentMethod::Paypal => {
            assert("paypal"@.len() != "cash"@.len());
            assert("paypal"@.len() != "card"@.len());
            assert("paypal"@.len() != "bank_transfer"@.len());
        },
        PaymentMethod::Apple => {
            assert("apple"@.len() != "cash"@.len());
            assert("apple"@.len() != "card"@.len());
            assert("apple"@.len() != "bank_transfer"@.len());
            assert("apple"@.len() != "paypal"@.len());
        },
        PaymentMethod::Other => {
            assert("other"@.len() != "cash"@.len());
            assert("other"@.len() != "card"@.len());
            assert("other"@.len() != "bank_transfer"@.len());
            assert("other"@.len() != "paypal"@.len());
            assert("other"@[0] != "apple"@[0]);
        },
    }
}

} // verus!
