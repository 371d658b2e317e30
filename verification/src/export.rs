//! The history as a table, and the table as comma-separated text written by
//! the `csv` crate.

use vstd::prelude::*;
use crate::ledger::{Ledger, Tx, TxView};
use crate::money::{format_cents, hundredths_text};
use crate::text::texts;

verus! {

/// A table: rows of fields.
pub type Table = Seq<Seq<Seq<char>>>;

/// A `csv::Writer` that collects its output in memory. What it holds is
/// known only through `csv_rows`.
#[verifier::external_body]
pub struct CsvWriter {
    inner: csv::Writer<Vec<u8>>,
}

/// The records that a writer has taken so far, in order.
pub uninterp spec fn csv_rows(w: CsvWriter) -> Seq<Seq<Seq<char>>>;

/// The bytes that a `csv` writer with its default settings produces for the
/// given records.
pub uninterp spec fn csv_text(rows: Seq<Seq<Seq<char>>>) -> Seq<u8>;

/// The rows of a table as mathematical values.
pub open spec fn rows(table: Seq<Vec<String>>) -> Table {
    table.map_values(|r: Vec<String>| texts(r@))
}

/// `csv::Writer::from_writer` over an empty byte vector.
///
/// Trusted: the new writer has taken no record.
#[verifier::external_body]
fn csv_start() -> (w: CsvWriter)
    ensures
        csv_rows(w) == Seq::<Seq<Seq<char>>>::empty(),
{
    CsvWriter { inner: csv::Writer::from_writer(Vec::new()) }
}

/// `csv::Writer::write_record`.
///
/// Trusted: a record with as many fields as the first one the writer took is
/// accepted and becomes the writer's last record. (The writer refuses a
/// record only for an unequal number of fields or when the underlying write
/// fails, which appending to a byte vector does not.)
#[verifier::external_body]
fn csv_write(w: &mut CsvWriter, record: &Vec<String>) -> (written: bool)
    requires
        csv_rows(*old(w)).len() > 0 ==> csv_rows(*old(w))[0].len() == record@.len(),
    ensures
        written,
        csv_rows(*final(w)) == csv_rows(*old(w)).push(texts(record@)),
{
    w.inner.write_record(record).is_ok()
}

/// `csv::Writer::into_inner`.
///
/// Trusted: the bytes handed back are the text of the records taken, named
/// `csv_text`; flushing into a byte vector does not fail.
#[verifier::external_body]
fn csv_finish(w: CsvWriter) -> (r: Option<Vec<u8>>)
    ensures
        r is Some,
        r matches Some(bytes) ==> bytes@ == csv_text(csv_rows(w)),
{
    w.inner.into_inner().ok()
}

/// The first row of every exported table.
pub open spec fn header() -> Seq<Seq<char>> {
    seq!["timestamp"@, "date"@, "kind"@, "amount"@, "note"@]
}

/// The row of one transaction: the instant it was recorded, its date, its
/// kind, its amount with two decimals, its note.
pub open spec fn row_of(tx: TxView) -> Seq<Seq<char>> {
    seq![tx.ts.rfc3339_spec(), tx.date, tx.kind.tag_text(), hundredths_text(tx.amount), tx.note]
}

/// The exported table of a history: the header, then one row for each
/// transaction, in order.
pub open spec fn table_of(items: Seq<TxView>) -> Table {
    seq![header()] + items.map_values(|tx: TxView| row_of(tx))
}

/// The header row.
pub fn header_row() -> (row: Vec<String>)
    ensures
        texts(row@) == header(),
{
    let mut row: Vec<String> = Vec::new();
    row.push("timestamp".to_owned());
    row.push("date".to_owned());
    row.push("kind".to_owned());
    row.push("amount".to_owned());
    row.push("note".to_owned());
    assert(texts(row@) =~= header());
    row
}

/// The row of one transaction.
pub fn row(tx: &Tx) -> (row: Vec<String>)
    ensures
        texts(row@) == row_of(tx@),
{
    let mut row: Vec<String> = Vec::new();
    row.push(tx.ts.rfc3339());
    row.push(tx.date.clone());
    row.push(tx.kind.tag().to_owned());
    row.push(format_cents(tx.amount as i128));
    row.push(tx.note.clone());
    assert(texts(row@) =~= row_of(tx@));
    row
}

/// The exported table of the ledger.
pub fn table(ledger: &Ledger) -> (t: Vec<Vec<String>>)
    ensures
        rows(t@) == table_of(ledger@),
{
    let mut t: Vec<Vec<String>> = Vec::new();
    t.push(header_row());
    let mut i: usize = 0;
    while i < ledger.items.len()
        invariant
            i <= ledger.items.len(),
            rows(t@) =~= table_of(ledger@.take(i as int)),
        decreases ledger.items.len() - i,
    {
        let r = row(&ledger.items[i]);
        let ghost before = t@;
        t.push(r);
        proof {
            assert(rows(t@) =~= rows(before).push(texts(r@)));
            assert(ledger@.take(i as int + 1) =~= ledger@.take(i as int).push(ledger@[i as int]));
            assert(table_of(ledger@.take(i as int + 1)) =~= table_of(ledger@.take(i as int)).push(
                row_of(ledger@[i as int]),
            ));
        }
        i = i + 1;
    }
    assert(ledger@.take(i as int) =~= ledger@);
    t
}

/// Whether every row has five fields.
pub open spec fn five_wide(t: Table) -> bool {
    forall|i: int| 0 <= i < t.len() ==> (#[trigger] t[i]).len() == 5
}

/// Every exported table has one row more than the history has transactions,
/// the header first, and five fields in each row.
pub proof fn table_shape(items: Seq<TxView>)
    ensures
        table_of(items).len() == items.len() + 1,
        table_of(items)[0] == header(),
        forall|i: int| 0 <= i < items.len() ==> #[trigger] table_of(items)[i + 1] == row_of(items[i]),
        five_wide(table_of(items)),
{
    assert forall|i: int| 0 <= i < items.len() implies #[trigger] table_of(items)[i + 1] == row_of(
        items[i],
    ) by {}
}

/// The comma-separated text of a table whose rows all have five fields.
fn encode(t: &Vec<Vec<String>>) -> (bytes: Vec<u8>)
    requires
        five_wide(rows(t@)),
    ensures
        bytes@ == csv_text(rows(t@)),
{
    let mut w = csv_start();
    let mut i: usize = 0;
    while i < t.len()
        invariant
            i <= t.len(),
            five_wide(rows(t@)),
            csv_rows(w) =~= rows(t@).take(i as int),
        decreases t.len() - i,
    {
        proof {
            assert(rows(t@)[i as int].len() == 5);
            if i > 0 {
                assert(rows(t@)[0].len() == 5);
            }
        }
        csv_write(&mut w, &t[i]);
        proof {
            assert(rows(t@).take(i as int + 1) =~= rows(t@).take(i as int).push(texts(t@[i as int]@)));
        }
        i = i + 1;
    }
    assert(rows(t@).take(i as int) =~= rows(t@));
    match csv_finish(w) {
        Some(bytes) => bytes,
        // not reached: a writer into memory always hands its bytes back
        None => Vec::new(),
    }
}

/// The ledger as comma-separated text: a header line, then one line for each
/// transaction, in order.
pub fn export_csv(ledger: &Ledger) -> (bytes: Vec<u8>)
    ensures
        bytes@ == csv_text(table_of(ledger@)),
{
    let t = table(ledger);
    proof {
        table_shape(ledger@);
    }
    encode(&t)
}

} // verus!
