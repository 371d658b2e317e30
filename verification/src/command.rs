//! The commands that act on a ledger, and what each of them reports.

use vstd::prelude::*;
use crate::confirm::{confirms, is_confirmation};
use crate::export::{csv_text, export_csv, table_of};
use crate::kind::Kind;
use crate::ledger::{added, balance_of, most_recent, views, Ledger, Tx, TxView};
use crate::money::{ratio_hundredths, Hundredths};
use crate::time::{Date, Timestamp};

verus! {

/// One request to the ledger.
#[derive(Debug, PartialEq, Eq)]
pub enum Command {
    /// Record a transaction, on `date` or, where none is given, today.
    Add { kind: Kind, amount: i64, note: String, date: Option<Date> },
    /// Show the balance and the `last` most recent transactions.
    Summary { last: usize },
    /// Write the history as a table to `out`.
    Export { out: String },
    /// Estimate for how many months the balance pays `tuition_monthly`.
    Runway { tuition_monthly: i64 },
    /// Clear the ledger, if the answer to the prompt confirms it.
    Reset,
}

/// What a command found or did.
#[derive(Debug, PartialEq, Eq)]
pub enum Report {
    /// A transaction was recorded; `balance` is the balance after it.
    Added { kind: Kind, amount: i64, balance: i128 },
    /// The balance and the most recent transactions, oldest first.
    Summary { balance: i128, entries: Vec<Tx> },
    /// The table of `count` transactions, as the text `csv` that belongs at
    /// `out`.
    Exported { count: usize, out: String, csv: Vec<u8> },
    /// The balance, the monthly cost, and the months the one pays the other.
    Runway { balance: i128, tuition_monthly: i64, months: Hundredths },
    /// The ledger was cleared.
    Cleared,
    /// The ledger was left as it was.
    Aborted,
}

/// Why a command was refused.
#[derive(Clone, Copy, Debug, PartialEq, Eq, Structural)]
pub enum CommandError {
    /// The monthly cost of a runway must be above zero.
    NonPositiveTuition,
}

/// The result of a command: its report, and whether the ledger has changed
/// and must be saved.
#[derive(Debug, PartialEq, Eq)]
pub struct Outcome {
    /// What the command found or did.
    pub report: Report,
    /// Whether the ledger has changed and must be saved.
    pub save: bool,
}

/// Whether a command is refused.
pub open spec fn refused(command: Command) -> bool {
    command matches Command::Runway { tuition_monthly } && tuition_monthly <= 0
}

/// Whether a command, with the answer given to its prompt, changes the
/// ledger.
pub open spec fn mutates(command: Command, answer: Seq<char>) -> bool {
    match command {
        Command::Add { .. } => true,
        Command::Reset => confirms(answer),
        _ => false,
    }
}

/// The history after a command, given the history before it, the instant of
/// the command, and the answer given to its prompt.
pub open spec fn after(items: Seq<TxView>, command: Command, now: Timestamp, answer: Seq<char>) -> Seq<TxView> {
    match command {
        Command::Add { kind, amount, note, date } => items.push(
            added(kind, amount as int, note@, date, now),
        ),
        Command::Reset => if confirms(answer) {
            Seq::<TxView>::empty()
        } else {
            items
        },
        _ => items,
    }
}

/// Whether `report` is what a command that is not refused reports on the
/// history `items`.
pub open spec fn reports(items: Seq<TxView>, command: Command, answer: Seq<char>, report: Report) -> bool {
    match command {
        Command::Add { kind, amount, note, date } => {
            &&& report matches Report::Added { kind: k, amount: a, balance }
            &&& k == kind
            &&& a == amount
            &&& balance == balance_of(items) + kind.signed(amount as int)
        },
        Command::Summary { last } => {
            &&& report matches Report::Summary { balance, entries }
            &&& balance == balance_of(items)
            &&& views(entries@) == most_recent(items, last as nat)
        },
        Command::Export { out } => {
            &&& report matches Report::Exported { count, out: o, csv }
            &&& count == items.len()
            &&& o@ == out@
            &&& csv@ == csv_text(table_of(items))
        },
        Command::Runway { tuition_monthly } => {
            &&& report matches Report::Runway { balance, tuition_monthly: t, months }
            &&& balance == balance_of(items)
            &&& t == tuition_monthly
            &&& months.value() == ratio_hundredths(balance_of(items), tuition_monthly as int)
        },
        Command::Reset => if confirms(answer) {
            report is Cleared
        } else {
            report is Aborted
        },
    }
}

impl Command {
    /// Whether the command asks for a confirmation before it acts.
    pub fn asks_confirmation(&self) -> (r: bool)
        ensures
            r == (*self is Reset),
    {
        match self {
            Command::Reset => true,
            _ => false,
        }
    }
}

impl Ledger {
    /// The balance and the `last` most recent transactions, oldest first.
    pub fn summary(&self, last: usize) -> (r: Report)
        ensures
            r matches Report::Summary { balance, entries } && balance == self.balance_spec()
                && views(entries@) == most_recent(self@, last as nat),
    {
        Report::Summary { balance: self.balance(), entries: self.recent(last) }
    }

    /// For how many months the balance pays `tuition_monthly`, to the nearest
    /// hundredth of a month; refused unless `tuition_monthly` is above zero.
    pub fn runway(&self, tuition_monthly: i64) -> (r: Result<Report, CommandError>)
        ensures
            r is Err <==> tuition_monthly <= 0,
            r matches Ok(report) ==> (report matches Report::Runway { balance, tuition_monthly: t, months }
                && balance == self.balance_spec() && t == tuition_monthly && months.value()
                == ratio_hundredths(self.balance_spec(), tuition_monthly as int)),
    {
        if tuition_monthly <= 0 {
            return Err(CommandError::NonPositiveTuition);
        }
        let balance = self.balance();
        let months = Hundredths::ratio(balance, tuition_monthly);
        Ok(Report::Runway { balance, tuition_monthly, months })
    }

    /// Clears the ledger if `answer` confirms it, and leaves it as it is
    /// otherwise.
    pub fn reset(&mut self, answer: &str) -> (r: Report)
        ensures
            confirms(answer@) ==> final(self)@ == Seq::<TxView>::empty() && r is Cleared,
            !confirms(answer@) ==> final(self)@ == old(self)@ && r is Aborted,
    {
        if is_confirmation(answer) {
            self.clear();
            Report::Cleared
        } else {
            Report::Aborted
        }
    }
}

/// Carries out one command on the ledger at the instant `now`; `answer` is
/// what was answered to the command's prompt, if it asked for a confirmation.
///
/// Only a recorded transaction and a confirmed reset change the ledger, and
/// only then is it to be saved. A runway with a monthly cost of zero or less
/// is refused and nothing is reported.
pub fn execute(ledger: &mut Ledger, command: Command, now: Timestamp, answer: &str) -> (r: Result<
    Outcome,
    CommandError,
>)
    ensures
        final(ledger)@ == after(old(ledger)@, command, now, answer@),
        r is Err <==> refused(command),
        r matches Ok(outcome) ==> outcome.save == mutates(command, answer@) && reports(
            old(ledger)@,
            command,
            answer@,
            outcome.report,
        ),
{
    match command {
        Command::Add { kind, amount, note, date } => {
            let balance = ledger.add(kind, amount, note, date, now);
            Ok(Outcome { report: Report::Added { kind, amount, balance }, save: true })
        },
        Command::Summary { last } => Ok(Outcome { report: ledger.summary(last), save: false }),
        Command::Export { out } => {
            let count = ledger.len();
            let csv = export_csv(ledger);
            Ok(Outcome { report: Report::Exported { count, out, csv }, save: false })
        },
        Command::Runway { tuition_monthly } => {
            match ledger.runway(tuition_monthly) {
                Ok(report) => Ok(Outcome { report, save: false }),
                Err(e) => Err(e),
            }
        },
        Command::Reset => {
            let report = ledger.reset(answer);
            let save = match report {
                Report::Cleared => true,
                _ => false,
            };
            Ok(Outcome { report, save })
        },
    }
}

} // verus!
