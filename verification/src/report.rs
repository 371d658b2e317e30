//! Reports as lines of text.

use vstd::prelude::*;
use vstd::string::*;
use crate::command::{CommandError, Report};
use crate::kind::Kind;
use crate::ledger::{views, Tx, TxView};
use crate::money::{format_cents, hundredths_text, Hundredths};
use crate::text::{decimal, decimal_string, texts};

verus! {

/// The line that reports a recorded transaction.
pub open spec fn added_line(kind: Kind, amount: int, balance: int) -> Seq<char> {
    "Added "@ + kind.tag_text() + " "@ + hundredths_text(amount) + " EUR. Balance now: "@
        + hundredths_text(balance) + " EUR"@
}

/// The line that shows the balance at the head of a summary.
pub open spec fn balance_line(balance: int) -> Seq<char> {
    "Current balance: "@ + hundredths_text(balance) + " EUR"@
}

/// The line of one transaction in a summary: its date, its signed amount,
/// its note and the marker of its kind.
pub open spec fn entry_line(tx: TxView) -> Seq<char> {
    tx.date + " "@ + tx.kind.sign_text() + hundredths_text(tx.amount) + "  | "@ + tx.note + "  "@
        + tx.kind.marker_text()
}

/// The line that reports an export.
pub open spec fn exported_line(count: nat, out: Seq<char>) -> Seq<char> {
    "Exported "@ + decimal(count) + " items to "@ + out
}

/// The line that reports a runway; `months` is in hundredths of a month.
pub open spec fn runway_line(balance: int, tuition_monthly: int, months: int) -> Seq<char> {
    "Balance: "@ + hundredths_text(balance) + " EUR | Tuition/month: "@ + hundredths_text(
        tuition_monthly,
    ) + " EUR | Runway: "@ + hundredths_text(months) + " months"@
}

/// The lines of the transactions of a summary.
pub open spec fn entry_lines(items: Seq<TxView>) -> Seq<Seq<char>> {
    items.map_values(|tx: TxView| entry_line(tx))
}

/// The lines of a report.
pub open spec fn lines_of(report: Report) -> Seq<Seq<char>> {
    match report {
        Report::Added { kind, amount, balance } => seq![
            added_line(kind, amount as int, balance as int),
        ],
        Report::Summary { balance, entries } => seq![balance_line(balance as int)] + entry_lines(
            views(entries@),
        ),
        Report::Exported { count, out, csv } => seq![exported_line(count as nat, out@)],
        Report::Runway { balance, tuition_monthly, months } => seq![
            runway_line(balance as int, tuition_monthly as int, months.value()),
        ],
        Report::Cleared => seq!["All data cleared."@],
        Report::Aborted => seq!["Aborted."@],
    }
}

/// The prompt that asks for the confirmation of a reset.
pub fn confirmation_prompt() -> (s: &'static str)
    ensures
        s@ == "Type 'YES' to confirm reset:"@,
{
    "Type 'YES' to confirm reset:"
}

impl CommandError {
    /// The message that tells why the command was refused.
    pub fn message(&self) -> (s: &'static str)
        ensures
            s@ == "tuition_monthly must be > 0"@,
    {
        "tuition_monthly must be > 0"
    }
}

/// Writes the line that reports a recorded transaction.
pub fn render_added(kind: Kind, amount: i64, balance: i128) -> (s: String)
    ensures
        s@ == added_line(kind, amount as int, balance as int),
{
    let mut s = "Added ".to_owned();
    s.append(kind.tag());
    s.append(" ");
    s.append(format_cents(amount as i128).as_str());
    s.append(" EUR. Balance now: ");
    s.append(format_cents(balance).as_str());
    s.append(" EUR");
    s
}

/// Writes the line that shows the balance at the head of a summary.
pub fn render_balance(balance: i128) -> (s: String)
    ensures
        s@ == balance_line(balance as int),
{
    let mut s = "Current balance: ".to_owned();
    s.append(format_cents(balance).as_str());
    s.append(" EUR");
    s
}

/// Writes the line of one transaction in a summary.
pub fn render_entry(tx: &Tx) -> (s: String)
    ensures
        s@ == entry_line(tx@),
{
    let mut s = tx.date.clone();
    s.append(" ");
    s.append(tx.kind.sign());
    s.append(format_cents(tx.amount as i128).as_str());
    s.append("  | ");
    s.append(tx.note.as_str());
    s.append("  ");
    s.append(tx.kind.marker());
    s
}

/// Writes the line that reports an export.
pub fn render_exported(count: usize, out: &str) -> (s: String)
    ensures
        s@ == exported_line(count as nat, out@),
{
    let mut s = "Exported ".to_owned();
    s.append(decimal_string(count as u128).as_str());
    s.append(" items to ");
    s.append(out);
    s
}

/// Writes the line that reports a runway.
pub fn render_runway(balance: i128, tuition_monthly: i64, months: &Hundredths) -> (s: String)
    ensures
        s@ == runway_line(balance as int, tuition_monthly as int, months.value()),
{
    let mut s = "Balance: ".to_owned();
    s.append(format_cents(balance).as_str());
    s.append(" EUR | Tuition/month: ");
    s.append(format_cents(tuition_monthly as i128).as_str());
    s.append(" EUR | Runway: ");
    s.append(months.text().as_str());
    s.append(" months");
    s
}

impl Report {
    /// The report as lines of text.
    pub fn lines(&self) -> (out: Vec<String>)
        ensures
            texts(out@) == lines_of(*self),
    {
        let mut out: Vec<String> = Vec::new();
        match self {
            Report::Added { kind, amount, balance } => {
                out.push(render_added(*kind, *amount, *balance));
            },
            Report::Summary { balance, entries } => {
                out.push(render_balance(*balance));
                let mut i: usize = 0;
                while i < entries.len()
                    invariant
                        i <= entries.len(),
                        texts(out@) =~= seq![balance_line(*balance as int)] + entry_lines(
                            views(entries@).take(i as int),
                        ),
                    decreases entries.len() - i,
                {
                    let line = render_entry(&entries[i]);
                    let ghost before = out@;
                    out.push(line);
                    proof {
                        let shown = views(entries@).take(i as int);
                        let tx = entries@[i as int]@;
                        assert(texts(out@) =~= texts(before).push(entry_line(tx)));
                        assert(views(entries@).take(i as int + 1) =~= shown.push(tx));
                        assert(entry_lines(shown.push(tx)) =~= entry_lines(shown).push(entry_line(tx)));
                    }
                    i = i + 1;
                }
                assert(views(entries@).take(i as int) =~= views(entries@));
            },
            Report::Exported { count, out: to, csv } => {
                out.push(render_exported(*count, to.as_str()));
            },
            Report::Runway { balance, tuition_monthly, months } => {
                out.push(render_runway(*balance, *tuition_monthly, months));
            },
            Report::Cleared => {
                out.push("All data cleared.".to_owned());
            },
            Report::Aborted => {
                out.push("Aborted.".to_owned());
            },
        }
        assert(texts(out@) =~= lines_of(*self));
        out
    }
}

} // verus!
