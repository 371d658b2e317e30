//! What holds of every history and of every run of commands.

use vstd::prelude::*;
use crate::command::{after, mutates, Command};
use crate::confirm::{all_white, confirms, is_white_space, trimmed};
use crate::ledger::{balance_of, most_recent, TxView};
use crate::time::Timestamp;

verus! {

/// One command together with the instant at which it runs and the answer
/// given to its prompt.
pub struct Step {
    /// The command.
    pub command: Command,
    /// The instant at which it runs.
    pub now: Timestamp,
    /// What was answered to its prompt, if it asked.
    pub answer: Seq<char>,
}

/// The history after a run of commands, none of them refused.
pub open spec fn after_all(items: Seq<TxView>, steps: Seq<Step>) -> Seq<TxView>
    decreases steps.len(),
{
    if steps.len() == 0 {
        items
    } else {
        after(
            after_all(items, steps.drop_last()),
            steps.last().command,
            steps.last().now,
            steps.last().answer,
        )
    }
}

/// What a command records: its amount, added for an income and taken away for
/// an expense, and nothing for a command that records no transaction.
pub open spec fn recorded(command: Command) -> int {
    match command {
        Command::Add { kind, amount, .. } => kind.signed(amount as int),
        _ => 0,
    }
}

/// The sum of what the commands of a run record.
pub open spec fn recorded_total(steps: Seq<Step>) -> int
    decreases steps.len(),
{
    if steps.len() == 0 {
        0
    } else {
        recorded_total(steps.drop_last()) + recorded(steps.last().command)
    }
}

/// The balance of a history joined to another is the sum of the two
/// balances.
pub proof fn balance_of_joined(a: Seq<TxView>, b: Seq<TxView>)
    ensures
        balance_of(a + b) == balance_of(a) + balance_of(b),
    decreases b.len(),
{
    if b.len() == 0 {
        assert(a + b =~= a);
    } else {
        balance_of_joined(a, b.drop_last());
        assert((a + b).drop_last() =~= a + b.drop_last());
        assert((a + b).last() == b.last());
    }
}

/// After a run of commands that each record a transaction, the balance is
/// the balance before the run and the sum of the amounts recorded, each
/// income added and each expense taken away: no note, date or instant has a
/// part in it.
pub proof fn balance_after_adds(items: Seq<TxView>, steps: Seq<Step>)
    requires
        forall|i: int| 0 <= i < steps.len() ==> (#[trigger] steps[i]).command is Add,
    ensures
        balance_of(after_all(items, steps)) == balance_of(items) + recorded_total(steps),
        after_all(items, steps).len() == items.len() + steps.len(),
    decreases steps.len(),
{
    if steps.len() > 0 {
        let earlier = steps.drop_last();
        assert forall|i: int| 0 <= i < earlier.len() implies (#[trigger] earlier[i]).command is Add by {
            assert(earlier[i] == steps[i]);
        }
        balance_after_adds(items, earlier);
        let before = after_all(items, earlier);
        let now = after_all(items, steps);
        assert(steps.last() == steps[steps.len() - 1]);
        assert(now.drop_last() =~= before);
    }
}

/// Two histories that agree, place by place, in kind and amount have the same
/// balance, whatever their notes, dates and instants.
pub proof fn balance_rests_on_kind_and_amount(a: Seq<TxView>, b: Seq<TxView>)
    requires
        a.len() == b.len(),
        forall|i: int| 0 <= i < a.len() ==> (#[trigger] a[i]).kind == b[i].kind && a[i].amount == b[i].amount,
    ensures
        balance_of(a) == balance_of(b),
    decreases a.len(),
{
    if a.len() > 0 {
        let x = a.drop_last();
        let y = b.drop_last();
        assert forall|i: int| 0 <= i < x.len() implies (#[trigger] x[i]).kind == y[i].kind && x[i].amount
            == y[i].amount by {
            assert(x[i] == a[i]);
            assert(y[i] == b[i]);
        }
        balance_rests_on_kind_and_amount(x, y);
        assert(a.last() == a[a.len() - 1]);
        assert(b.last() == b[b.len() - 1]);
    }
}

/// A run of commands of which none records a transaction and none is a
/// confirmed reset leaves the history as it was, and so its length.
pub proof fn history_kept(items: Seq<TxView>, steps: Seq<Step>)
    requires
        forall|i: int| 0 <= i < steps.len() ==> !mutates((#[trigger] steps[i]).command, steps[i].answer),
    ensures
        after_all(items, steps) == items,
        after_all(items, steps).len() == items.len(),
    decreases steps.len(),
{
    if steps.len() > 0 {
        let earlier = steps.drop_last();
        assert forall|i: int| 0 <= i < earlier.len() implies !mutates(
            (#[trigger] earlier[i]).command,
            earlier[i].answer,
        ) by {
            assert(earlier[i] == steps[i]);
        }
        history_kept(items, earlier);
        assert(steps.last() == steps[steps.len() - 1]);
    }
}

/// Trimming a text that starts and ends with something other than white
/// space, with white space put before and after it, gives the text back.
pub proof fn trimmed_of_padded(before: Seq<char>, core: Seq<char>, behind: Seq<char>)
    requires
        all_white(before),
        all_white(behind),
        core.len() > 0,
        !is_white_space(core[0]),
        !is_white_space(core.last()),
    ensures
        trimmed(before + core + behind) == core,
    decreases before.len() + behind.len(),
{
    let s = before + core + behind;
    if before.len() > 0 {
        assert(s[0] == before[0]);
        assert(s.drop_first() =~= before.drop_first() + core + behind);
        trimmed_of_padded(before.drop_first(), core, behind);
    } else if behind.len() > 0 {
        assert(s[0] == core[0]);
        assert(s.last() == behind.last());
        assert(s.drop_last() =~= before + core + behind.drop_last());
        trimmed_of_padded(before, core, behind.drop_last());
    } else {
        assert(s =~= core);
    }
}

/// Trimming takes white space, and nothing else, from the two ends: the
/// result is the part of `s` between the two places returned, with only white
/// space before and behind it, and it neither starts nor ends with white
/// space.
pub proof fn trimmed_is_the_core(s: Seq<char>) -> (ends: (int, int))
    ensures
        0 <= ends.0 <= ends.1 <= s.len(),
        all_white(s.subrange(0, ends.0)),
        all_white(s.subrange(ends.1, s.len() as int)),
        s.subrange(ends.0, ends.1) == trimmed(s),
        trimmed(s).len() > 0 ==> !is_white_space(trimmed(s)[0]) && !is_white_space(trimmed(s).last()),
    decreases s.len(),
{
    let n = s.len() as int;
    if s.len() == 0 {
        assert(s.subrange(0, 0) =~= s);
        (0, 0)
    } else if is_white_space(s[0]) {
        let rest = s.drop_first();
        let (i, j) = trimmed_is_the_core(rest);
        let head = s.subrange(0, i + 1);
        let tail = s.subrange(j + 1, n);
        assert(s.subrange(i + 1, j + 1) =~= rest.subrange(i, j));
        assert(tail =~= rest.subrange(j, rest.len() as int));
        assert(all_white(head)) by {
            assert forall|k: int| 0 <= k < head.len() implies is_white_space(#[trigger] head[k]) by {
                if k > 0 {
                    assert(head[k] == rest.subrange(0, i)[k - 1]);
                }
            }
        }
        (i + 1, j + 1)
    } else if is_white_space(s.last()) {
        let rest = s.drop_last();
        let (i, j) = trimmed_is_the_core(rest);
        let tail = s.subrange(j, n);
        assert(s.subrange(i, j) =~= rest.subrange(i, j));
        assert(s.subrange(0, i) =~= rest.subrange(0, i));
        assert(all_white(tail)) by {
            assert forall|k: int| 0 <= k < tail.len() implies is_white_space(#[trigger] tail[k]) by {
                if k < tail.len() - 1 {
                    assert(tail[k] == rest.subrange(j, rest.len() as int)[k]);
                }
            }
        }
        (i, j)
    } else {
        assert(s.subrange(0, n) =~= s);
        assert(s.subrange(0, 0).len() == 0);
        assert(s.subrange(n, n).len() == 0);
        (0, n)
    }
}

/// The answer `YES` confirms, alone or with white space around it.
pub proof fn yes_confirms(before: Seq<char>, behind: Seq<char>)
    requires
        all_white(before),
        all_white(behind),
    ensures
        confirms("YES"@),
        confirms(before + "YES"@ + behind),
{
    reveal_strlit("YES");
    trimmed_of_padded(before, "YES"@, behind);
    trimmed_of_padded(Seq::empty(), "YES"@, Seq::empty());
    assert(Seq::<char>::empty() + "YES"@ + Seq::<char>::empty() =~= "YES"@);
}

/// An answer confirms only if it is `YES` with nothing but white space
/// around it.
pub proof fn only_yes_confirms(answer: Seq<char>)
    requires
        confirms(answer),
    ensures
        exists|before: Seq<char>, behind: Seq<char>|
            all_white(before) && all_white(behind) && answer == #[trigger] (before + "YES"@ + behind),
{
    let (i, j) = trimmed_is_the_core(answer);
    let before = answer.subrange(0, i);
    let behind = answer.subrange(j, answer.len() as int);
    assert(answer =~= before + "YES"@ + behind);
}

/// A reset empties the history if the answer confirms it, and leaves the
/// history untouched for every other answer.
pub proof fn reset_gated(items: Seq<TxView>, now: Timestamp, answer: Seq<char>)
    ensures
        confirms(answer) ==> after(items, Command::Reset, now, answer) == Seq::<TxView>::empty()
            && mutates(Command::Reset, answer),
        !confirms(answer) ==> after(items, Command::Reset, now, answer) == items && !mutates(
            Command::Reset,
            answer,
        ),
{
}

/// The window of the `last` most recent items holds `last` items, or all of
/// them if there are fewer: the latest ones, in the order of the history.
pub proof fn most_recent_window<T>(items: Seq<T>, last: nat)
    ensures
        most_recent(items, last).len() == if last <= items.len() {
            last
        } else {
            items.len()
        },
        forall|i: int|
            0 <= i < most_recent(items, last).len() ==> #[trigger] most_recent(items, last)[i]
                == items[items.len() - most_recent(items, last).len() + i],
{
}

} // verus!
