use studibudget::command::{execute, Command, CommandError, Outcome, Report};
use studibudget::confirm::is_confirmation;
use studibudget::kind::Kind;
use studibudget::ledger::{Ledger, Tx};
use studibudget::money::Hundredths;
use studibudget::time::{Date, Timestamp};

fn now() -> Timestamp {
    Timestamp::new(1_709_284_500, 0, 3600).unwrap()
}

fn tx(kind: Kind, amount: i64, note: &str) -> Tx {
    Tx { ts: now(), date: "2024-03-01".to_string(), kind, amount, note: note.to_string() }
}

fn sample() -> Ledger {
    let mut l = Ledger::new();
    l.push(tx(Kind::Income, 150_000, "grant"));
    l.push(tx(Kind::Expense, 25_000, "books"));
    l
}

#[test]
fn confirmation_is_exactly_yes() {
    assert!(is_confirmation("YES"));
    assert!(!is_confirmation("yes"));
    assert!(!is_confirmation("Yes"));
    assert!(!is_confirmation("YES!"));
    assert!(!is_confirmation("Y ES"));
    assert!(!is_confirmation("YE"));
    assert!(!is_confirmation("YESS"));
    assert!(!is_confirmation("NO"));
    assert!(!is_confirmation(""));
    assert!(!is_confirmation("   "));
    assert!(!is_confirmation("\n"));
}

#[test]
fn confirmation_ignores_white_space_around_it() {
    assert!(is_confirmation("YES\n"));
    assert!(is_confirmation("YES\r\n"));
    assert!(is_confirmation("  YES  "));
    assert!(is_confirmation("\tYES"));
    assert!(is_confirmation("\u{a0}YES\u{2003}"));
    assert!(!is_confirmation("\u{200b}YES"));
}

#[test]
fn confirmation_agrees_with_trim() {
    for s in ["YES", " YES", "YES ", "\n\nYES\n", "Y", "YES YES", " Y E S ", "\u{3000}YES", "ÝES", "YES\u{0}"] {
        assert_eq!(is_confirmation(s), s.trim() == "YES", "{:?}", s);
    }
}

#[test]
fn only_reset_asks_for_confirmation() {
    assert!(Command::Reset.asks_confirmation());
    assert!(!Command::Summary { last: 10 }.asks_confirmation());
    assert!(!Command::Runway { tuition_monthly: 1 }.asks_confirmation());
    assert!(!Command::Export { out: "out.csv".to_string() }.asks_confirmation());
    let add = Command::Add { kind: Kind::Income, amount: 1, note: String::new(), date: None };
    assert!(!add.asks_confirmation());
}

#[test]
fn add_reports_the_new_balance_and_asks_to_save() {
    let mut l = sample();
    let command =
        Command::Add { kind: Kind::Expense, amount: 5_000, note: "lunch".to_string(), date: Date::new(2024, 2, 1) };
    let outcome = execute(&mut l, command, now(), "").unwrap();
    assert_eq!(
        outcome,
        Outcome { report: Report::Added { kind: Kind::Expense, amount: 5_000, balance: 120_000 }, save: true }
    );
    assert_eq!(l.len(), 3);
    assert_eq!(l.items[2], Tx { ts: now(), date: "2024-02-01".to_string(), ..tx(Kind::Expense, 5_000, "lunch") });
}

#[test]
fn add_accepts_zero_and_negative_amounts() {
    let mut l = sample();
    let zero = Command::Add { kind: Kind::Income, amount: 0, note: String::new(), date: None };
    assert!(execute(&mut l, zero, now(), "").is_ok());
    let negative = Command::Add { kind: Kind::Income, amount: -100, note: String::new(), date: None };
    let outcome = execute(&mut l, negative, now(), "").unwrap();
    assert_eq!(outcome.report, Report::Added { kind: Kind::Income, amount: -100, balance: 124_900 });
    assert_eq!(l.len(), 4);
}

#[test]
fn summary_reports_balance_and_window_and_changes_nothing() {
    let mut l = sample();
    let outcome = execute(&mut l, Command::Summary { last: 1 }, now(), "").unwrap();
    assert_eq!(
        outcome,
        Outcome {
            report: Report::Summary { balance: 125_000, entries: vec![tx(Kind::Expense, 25_000, "books")] },
            save: false,
        }
    );
    assert_eq!(l, sample());
    assert_eq!(l.summary(10), Report::Summary { balance: 125_000, entries: sample().items });
    assert_eq!(l.summary(0), Report::Summary { balance: 125_000, entries: vec![] });
}

#[test]
fn export_reports_count_destination_and_text() {
    let mut l = sample();
    let outcome = execute(&mut l, Command::Export { out: "out.csv".to_string() }, now(), "").unwrap();
    assert!(!outcome.save);
    match outcome.report {
        Report::Exported { count, out, csv } => {
            assert_eq!(count, 2);
            assert_eq!(out, "out.csv");
            assert_eq!(String::from_utf8(csv).unwrap().lines().count(), 3);
        }
        other => panic!("unexpected report {:?}", other),
    }
    assert_eq!(l, sample());
}

#[test]
fn runway_divides_the_balance_by_the_monthly_cost() {
    let mut l = sample();
    let outcome = execute(&mut l, Command::Runway { tuition_monthly: 50_000 }, now(), "").unwrap();
    assert_eq!(
        outcome,
        Outcome {
            report: Report::Runway {
                balance: 125_000,
                tuition_monthly: 50_000,
                months: Hundredths::from_cents(250),
            },
            save: false,
        }
    );
    assert_eq!(l, sample());
}

#[test]
fn runway_of_a_negative_balance_is_negative() {
    let mut l = Ledger::new();
    l.push(tx(Kind::Expense, 10_000, "debt"));
    match l.runway(40_000).unwrap() {
        Report::Runway { balance, months, .. } => {
            assert_eq!(balance, -10_000);
            assert_eq!(months, Hundredths::from_cents(-25));
            assert_eq!(months.text(), "-0.25");
        }
        other => panic!("unexpected report {:?}", other),
    }
}

#[test]
fn runway_refuses_a_cost_of_zero_or_less() {
    let mut l = sample();
    assert_eq!(
        execute(&mut l, Command::Runway { tuition_monthly: 0 }, now(), ""),
        Err(CommandError::NonPositiveTuition)
    );
    assert_eq!(
        execute(&mut l, Command::Runway { tuition_monthly: -50_000 }, now(), ""),
        Err(CommandError::NonPositiveTuition)
    );
    assert_eq!(l.runway(i64::MIN), Err(CommandError::NonPositiveTuition));
    assert!(l.runway(1).is_ok());
    assert_eq!(l, sample());
}

#[test]
fn reset_confirmed_clears_and_asks_to_save() {
    let mut l = sample();
    let outcome = execute(&mut l, Command::Reset, now(), "YES\n").unwrap();
    assert_eq!(outcome, Outcome { report: Report::Cleared, save: true });
    assert_eq!(l, Ledger::new());
}

#[test]
fn reset_unconfirmed_changes_nothing() {
    for answer in ["", "\n", "yes\n", "y", "YES please", "no"] {
        let mut l = sample();
        let outcome = execute(&mut l, Command::Reset, now(), answer).unwrap();
        assert_eq!(outcome, Outcome { report: Report::Aborted, save: false });
        assert_eq!(l, sample());
    }
    let mut l = sample();
    assert_eq!(l.reset("nope"), Report::Aborted);
    assert_eq!(l.len(), 2);
    assert_eq!(l.reset(" YES "), Report::Cleared);
    assert_eq!(l.len(), 0);
}

#[test]
fn commands_that_only_read_keep_the_length() {
    let mut l = sample();
    let before = l.len();
    execute(&mut l, Command::Summary { last: 10 }, now(), "").unwrap();
    execute(&mut l, Command::Export { out: "a.csv".to_string() }, now(), "").unwrap();
    execute(&mut l, Command::Runway { tuition_monthly: 100 }, now(), "").unwrap();
    let _ = execute(&mut l, Command::Runway { tuition_monthly: 0 }, now(), "");
    execute(&mut l, Command::Reset, now(), "no").unwrap();
    assert_eq!(l.len(), before);
    assert_eq!(l, sample());
}

#[test]
fn a_first_income_and_expense_then_summary_and_runway() {
    let mut l = Ledger::restore(studibudget::ledger::Stored::Absent);
    let first = Command::Add { kind: Kind::Income, amount: 100_000, note: String::new(), date: Date::new(2024, 1, 1) };
    execute(&mut l, first, now(), "").unwrap();
    let second = Command::Add { kind: Kind::Expense, amount: 25_000, note: "books".to_string(), date: None };
    execute(&mut l, second, now(), "").unwrap();
    let summary = execute(&mut l, Command::Summary { last: 10 }, now(), "").unwrap();
    match &summary.report {
        Report::Summary { balance, entries } => {
            assert_eq!(*balance, 75_000);
            assert_eq!(entries.len(), 2);
            assert_eq!(entries[0].kind, Kind::Income);
            assert_eq!(entries[0].date, "2024-01-01");
            assert_eq!(entries[1].kind, Kind::Expense);
            assert_eq!(entries[1].date, "2024-03-01");
        }
        other => panic!("unexpected report {:?}", other),
    }
    assert_eq!(summary.report.lines()[0], "Current balance: 750.00 EUR");
    let runway = execute(&mut l, Command::Runway { tuition_monthly: 25_000 }, now(), "").unwrap();
    assert_eq!(
        runway.report.lines(),
        vec!["Balance: 750.00 EUR | Tuition/month: 250.00 EUR | Runway: 3.00 months"]
    );
}

#[test]
fn white_space_is_what_the_standard_library_calls_so() {
    for n in 0..=0x10FFFFu32 {
        if let Some(c) = char::from_u32(n) {
            assert_eq!(studibudget::confirm::white_space(c), c.is_whitespace(), "U+{:04X}", n);
        }
    }
}
