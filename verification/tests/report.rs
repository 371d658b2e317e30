use studibudget::command::{CommandError, Report};
use studibudget::kind::Kind;
use studibudget::ledger::Tx;
use studibudget::money::Hundredths;
use studibudget::report::{
    confirmation_prompt, render_added, render_balance, render_entry, render_exported, render_runway,
};
use studibudget::time::Timestamp;

fn tx(kind: Kind, amount: i64, note: &str) -> Tx {
    Tx {
        ts: Timestamp::new(1_709_284_500, 0, 3600).unwrap(),
        date: "2024-03-01".to_string(),
        kind,
        amount,
        note: note.to_string(),
    }
}

#[test]
fn added_line_names_kind_amount_and_balance() {
    assert_eq!(render_added(Kind::Income, 2550, 102_550), "Added Income 25.50 EUR. Balance now: 1025.50 EUR");
    assert_eq!(render_added(Kind::Expense, 100, -100), "Added Expense 1.00 EUR. Balance now: -1.00 EUR");
}

#[test]
fn balance_line_shows_two_decimals() {
    assert_eq!(render_balance(75_000), "Current balance: 750.00 EUR");
    assert_eq!(render_balance(0), "Current balance: 0.00 EUR");
}

#[test]
fn entry_line_shows_date_signed_amount_note_and_marker() {
    assert_eq!(render_entry(&tx(Kind::Income, 100_000, "grant")), "2024-03-01 +1000.00  | grant  (in)");
    assert_eq!(render_entry(&tx(Kind::Expense, 2550, "")), "2024-03-01 -25.50  |   (out)");
    assert_eq!(render_entry(&tx(Kind::Income, -500, "fix")), "2024-03-01 +-5.00  | fix  (in)");
}

#[test]
fn exported_line_names_count_and_destination() {
    assert_eq!(render_exported(3, "out.csv"), "Exported 3 items to out.csv");
    assert_eq!(render_exported(0, ""), "Exported 0 items to ");
}

#[test]
fn runway_line_shows_balance_cost_and_months() {
    assert_eq!(
        render_runway(125_000, 50_000, &Hundredths::ratio(125_000, 50_000)),
        "Balance: 1250.00 EUR | Tuition/month: 500.00 EUR | Runway: 2.50 months"
    );
}

#[test]
fn report_lines_of_each_report() {
    assert_eq!(
        Report::Added { kind: Kind::Income, amount: 1, balance: 2 }.lines(),
        vec!["Added Income 0.01 EUR. Balance now: 0.02 EUR"]
    );
    assert_eq!(
        Report::Summary {
            balance: 97_450,
            entries: vec![tx(Kind::Income, 100_000, "grant"), tx(Kind::Expense, 2550, "books")],
        }
        .lines(),
        vec![
            "Current balance: 974.50 EUR",
            "2024-03-01 +1000.00  | grant  (in)",
            "2024-03-01 -25.50  | books  (out)",
        ]
    );
    assert_eq!(Report::Summary { balance: 0, entries: vec![] }.lines(), vec!["Current balance: 0.00 EUR"]);
    assert_eq!(
        Report::Exported { count: 12, out: "dir/out.csv".to_string(), csv: vec![] }.lines(),
        vec!["Exported 12 items to dir/out.csv"]
    );
    assert_eq!(
        Report::Runway { balance: -10_000, tuition_monthly: 40_000, months: Hundredths::from_cents(-25) }.lines(),
        vec!["Balance: -100.00 EUR | Tuition/month: 400.00 EUR | Runway: -0.25 months"]
    );
    assert_eq!(Report::Cleared.lines(), vec!["All data cleared."]);
    assert_eq!(Report::Aborted.lines(), vec!["Aborted."]);
}

#[test]
fn refusal_and_prompt_have_their_texts() {
    assert_eq!(CommandError::NonPositiveTuition.message(), "tuition_monthly must be > 0");
    assert_eq!(confirmation_prompt(), "Type 'YES' to confirm reset:");
}
