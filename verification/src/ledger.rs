//! Transactions and the ledger that holds them in the order of recording.

use vstd::prelude::*;
use crate::kind::Kind;
use crate::time::{Date, Timestamp};

verus! {

/// One recorded income or expense.
#[derive(Debug, PartialEq, Eq)]
pub struct Tx {
    /// When the transaction was recorded.
    pub ts: Timestamp,
    /// The day to which the transaction applies, as text.
    pub date: String,
    /// Income or expense.
    pub kind: Kind,
    /// The amount, in hundredths of the currency unit.
    pub amount: i64,
    /// A free description, possibly empty.
    pub note: String,
}

/// A transaction as a mathematical value.
pub struct TxView {
    /// When the transaction was recorded.
    pub ts: Timestamp,
    /// The day to which the transaction applies, as text.
    pub date: Seq<char>,
    /// Income or expense.
    pub kind: Kind,
    /// The amount, in hundredths of the currency unit.
    pub amount: int,
    /// A free description, possibly empty.
    pub note: Seq<char>,
}

impl View for Tx {
    type V = TxView;

    open spec fn view(&self) -> TxView {
        TxView {
            ts: self.ts,
            date: self.date@,
            kind: self.kind,
            amount: self.amount as int,
            note: self.note@,
        }
    }
}

impl Clone for Tx {
    fn clone(&self) -> (r: Tx)
        ensures
            r == *self,
    {
        Tx {
            ts: self.ts,
            date: self.date.clone(),
            kind: self.kind,
            amount: self.amount,
            note: self.note.clone(),
        }
    }
}

impl TxView {
    /// What the transaction adds to the balance.
    pub open spec fn signed(self) -> int {
        self.kind.signed(self.amount)
    }
}

/// The balance of a history: the sum of its incomes less the sum of its
/// expenses.
pub open spec fn balance_of(items: Seq<TxView>) -> int
    decreases items.len(),
{
    if items.len() == 0 {
        0
    } else {
        balance_of(items.drop_last()) + items.last().signed()
    }
}

/// The last `last` items of `items`, or all of them if there are fewer, in
/// their order.
pub open spec fn most_recent<T>(items: Seq<T>, last: nat) -> Seq<T> {
    if last >= items.len() {
        items
    } else {
        items.subrange(items.len() - last, items.len() as int)
    }
}

/// The mathematical values of a run of transactions.
pub open spec fn views(items: Seq<Tx>) -> Seq<TxView> {
    items.map_values(|t: Tx| t@)
}

/// What was found where a ledger is kept.
#[derive(Debug, PartialEq, Eq)]
pub enum Stored {
    /// Nothing has been saved yet.
    Absent,
    /// Something is there, but it is not a ledger.
    Corrupt,
    /// The transactions of a saved ledger.
    Items(Vec<Tx>),
}

/// The full history of transactions, oldest first.
#[derive(Debug, PartialEq, Eq)]
pub struct Ledger {
    /// The transactions in the order in which they were recorded.
    pub items: Vec<Tx>,
}

impl View for Ledger {
    type V = Seq<TxView>;

    open spec fn view(&self) -> Seq<TxView> {
        views(self.items@)
    }
}

impl Default for Ledger {
    fn default() -> (l: Ledger)
        ensures
            l@ == Seq::<TxView>::empty(),
    {
        Ledger::new()
    }
}

impl Ledger {
    /// The balance of the ledger.
    pub open spec fn balance_spec(&self) -> int {
        balance_of(self@)
    }

    /// A ledger without transactions.
    pub fn new() -> (l: Ledger)
        ensures
            l@ == Seq::<TxView>::empty(),
    {
        let l = Ledger { items: Vec::new() };
        assert(l@ =~= Seq::<TxView>::empty());
        l
    }

    /// The ledger to work on, given what was found in storage: the saved
    /// transactions as they are, or an empty ledger where nothing was saved
    /// or what was saved cannot be read.
    pub fn restore(stored: Stored) -> (l: Ledger)
        ensures
            l@ == match stored {
                Stored::Items(items) => views(items@),
                _ => Seq::<TxView>::empty(),
            },
    {
        match stored {
            Stored::Items(items) => Ledger { items },
            _ => Ledger::new(),
        }
    }

    /// The number of transactions.
    pub fn len(&self) -> (n: usize)
        ensures
            n == self@.len(),
    {
        self.items.len()
    }

    /// Appends a transaction.
    pub fn push(&mut self, tx: Tx)
        ensures
            final(self)@ == old(self)@.push(tx@),
    {
        self.items.push(tx);
        assert(self@ =~= old(self)@.push(tx@));
    }

    /// Removes every transaction.
    pub fn clear(&mut self)
        ensures
            final(self)@ == Seq::<TxView>::empty(),
    {
        self.items = Vec::new();
        assert(self@ =~= Seq::<TxView>::empty());
    }

    /// The balance: every income added, every expense taken away.
    pub fn balance(&self) -> (b: i128)
        ensures
            b == self.balance_spec(),
    {
        let mut acc: i128 = 0;
        let mut i: usize = 0;
        while i < self.items.len()
            invariant
                i <= self.items.len(),
                acc == balance_of(self@.take(i as int)),
                -(i as int) * 0x8000_0000_0000_0000 <= acc <= (i as int) * 0x8000_0000_0000_0000,
            decreases self.items.len() - i,
        {
            let tx = &self.items[i];
            let step = tx.kind.signed_amount(tx.amount);
            proof {
                let next = self@.take(i as int + 1);
                assert(next.drop_last() =~= self@.take(i as int));
                assert(next.last() == self.items@[i as int]@);
            }
            acc = acc + step;
            i = i + 1;
        }
        assert(self@.take(i as int) =~= self@);
        acc
    }

    /// The `last` most recent transactions, or all of them if there are
    /// fewer, oldest first.
    pub fn recent(&self, last: usize) -> (entries: Vec<Tx>)
        ensures
            views(entries@) == most_recent(self@, last as nat),
    {
        let n = self.items.len();
        let start: usize = if last >= n {
            0
        } else {
            n - last
        };
        let mut entries: Vec<Tx> = Vec::new();
        let mut i: usize = start;
        while i < n
            invariant
                n == self.items.len(),
                start <= i <= n,
                views(entries@) =~= self@.subrange(start as int, i as int),
            decreases n - i,
        {
            let tx = self.items[i].clone();
            let ghost before = entries@;
            entries.push(tx);
            proof {
                assert(views(entries@) =~= views(before).push(self@[i as int]));
                assert(self@.subrange(start as int, i as int + 1) =~= self@.subrange(
                    start as int,
                    i as int,
                ).push(self@[i as int]));
            }
            i = i + 1;
        }
        assert(self@.subrange(0, n as int) =~= self@);
        entries
    }

    /// Records a transaction of the given kind and amount at the instant
    /// `now`: it applies to `date`, or to the local date of `now` where none
    /// is given. Returns the new balance.
    pub fn add(&mut self, kind: Kind, amount: i64, note: String, date: Option<Date>, now: Timestamp) -> (balance: i128)
        ensures
            final(self)@ == old(self)@.push(added(kind, amount as int, note@, date, now)),
            balance == old(self).balance_spec() + kind.signed(amount as int),
    {
        let day = match date {
            Some(d) => d,
            None => now.local_date(),
        };
        let tx = Tx { ts: now, date: day.text(), kind, amount, note };
        proof {
            let t = added(kind, amount as int, note@, date, now);
            assert(tx@ == t);
            assert(old(self)@.push(t).drop_last() =~= old(self)@);
        }
        self.push(tx);
        self.balance()
    }
}

/// The transaction that `Ledger::add` records.
pub open spec fn added(kind: Kind, amount: int, note: Seq<char>, date: Option<Date>, now: Timestamp) -> TxView {
    let day = match date {
        Some(d) => (d.year(), d.month(), d.day()),
        None => now.date_spec(),
    };
    TxView {
        ts: now,
        date: crate::time::date_text(day.0 as int, day.1 as int, day.2 as int),
        kind,
        amount,
        note,
    }
}

} // verus!
