//! The two kinds of transaction.

use vstd::prelude::*;

verus! {

/// Whether a transaction adds to the balance or takes from it.
#[derive(Clone, Copy, Debug, PartialEq, Eq, Structural)]
pub enum Kind {
    /// Money received.
    Income,
    /// Money spent.
    Expense,
}

impl Kind {
    /// What a transaction of this kind and amount adds to the balance.
    pub open spec fn signed(self, amount: int) -> int {
        match self {
            Kind::Income => amount,
            Kind::Expense => -amount,
        }
    }

    /// The kind's name as it is written in tables.
    pub open spec fn tag_text(self) -> Seq<char> {
        match self {
            Kind::Income => "Income"@,
            Kind::Expense => "Expense"@,
        }
    }

    /// The sign shown before an amount of this kind.
    pub open spec fn sign_text(self) -> Seq<char> {
        match self {
            Kind::Income => "+"@,
            Kind::Expense => "-"@,
        }
    }

    /// The short marker shown after an entry of this kind.
    pub open spec fn marker_text(self) -> Seq<char> {
        match self {
            Kind::Income => "(in)"@,
            Kind::Expense => "(out)"@,
        }
    }

    /// What a transaction of this kind and amount adds to the balance.
    pub fn signed_amount(self, amount: i64) -> (r: i128)
        ensures
            r == self.signed(amount as int),
    {
        let wide: i128 = amount as i128;
        match self {
            Kind::Income => wide,
            Kind::Expense => -wide,
        }
    }

    /// The kind's name as it is written in tables.
    pub fn tag(self) -> (s: &'static str)
        ensures
            s@ == self.tag_text(),
    {
        match self {
            Kind::Income => "Income",
            Kind::Expense => "Expense",
        }
    }

    /// The sign shown before an amount of this kind.
    pub fn sign(self) -> (s: &'static str)
        ensures
            s@ == self.sign_text(),
    {
        match self {
            Kind::Income => "+",
            Kind::Expense => "-",
        }
    }

    /// The short marker shown after an entry of this kind.
    pub fn marker(self) -> (s: &'static str)
        ensures
            s@ == self.marker_text(),
    {
        match self {
            Kind::Income => "(in)",
            Kind::Expense => "(out)",
        }
    }
}

} // verus!
