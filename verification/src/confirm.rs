//! The confirmation that guards the clearing of a ledger.

use vstd::prelude::*;
use vstd::string::*;

verus! {

/// Whether `c` is white space: one of the characters with the Unicode
/// property `White_Space`.
pub open spec fn is_white_space(c: char) -> bool {
    let n = c as u32;
    ||| 0x09 <= n <= 0x0D
    ||| n == 0x20
    ||| n == 0x85
    ||| n == 0xA0
    ||| n == 0x1680
    ||| 0x2000 <= n <= 0x200A
    ||| n == 0x2028
    ||| n == 0x2029
    ||| n == 0x202F
    ||| n == 0x205F
    ||| n == 0x3000
}

/// Whether `c` is white space.
pub fn white_space(c: char) -> (r: bool)
    ensures
        r == is_white_space(c),
{
    let n: u32 = c as u32;
    (0x09 <= n && n <= 0x0D) || n == 0x20 || n == 0x85 || n == 0xA0 || n == 0x1680 || (0x2000 <= n && n
        <= 0x200A) || n == 0x2028 || n == 0x2029 || n == 0x202F || n == 0x205F || n == 0x3000
}

/// `s` without the white space at its start and at its end.
pub open spec fn trimmed(s: Seq<char>) -> Seq<char>
    decreases s.len(),
{
    if s.len() == 0 {
        s
    } else if is_white_space(s[0]) {
        trimmed(s.drop_first())
    } else if is_white_space(s.last()) {
        trimmed(s.drop_last())
    } else {
        s
    }
}

/// Whether every character of `s` is white space.
pub open spec fn all_white(s: Seq<char>) -> bool {
    forall|i: int| 0 <= i < s.len() ==> is_white_space(#[trigger] s[i])
}

/// Whether an answer confirms: apart from white space around it, it is
/// exactly `YES`.
pub open spec fn confirms(answer: Seq<char>) -> bool {
    trimmed(answer) == "YES"@
}

/// Whether an answer confirms: apart from white space around it, it is
/// exactly `YES`.
pub fn is_confirmation(answer: &str) -> (r: bool)
    ensures
        r == confirms(answer@),
{
    let n = answer.unicode_len();
    let mut i: usize = 0;
    assert(answer@.subrange(0, n as int) =~= answer@);
    while i < n && white_space(answer.get_char(i))
        invariant
            n == answer@.len(),
            i <= n,
            trimmed(answer@) == trimmed(answer@.subrange(i as int, n as int)),
        decreases n - i,
    {
        proof {
            let rest = answer@.subrange(i as int, n as int);
            assert(rest[0] == answer@[i as int]);
            assert(rest.drop_first() =~= answer@.subrange(i as int + 1, n as int));
        }
        i = i + 1;
    }
    let mut j: usize = n;
    while j > i && white_space(answer.get_char(j - 1))
        invariant
            n == answer@.len(),
            i <= j <= n,
            i < n ==> !is_white_space(answer@[i as int]),
            trimmed(answer@) == trimmed(answer@.subrange(i as int, j as int)),
        decreases j,
    {
        proof {
            let rest = answer@.subrange(i as int, j as int);
            assert(rest[0] == answer@[i as int]);
            assert(rest.last() == answer@[j as int - 1]);
            assert(rest.drop_last() =~= answer@.subrange(i as int, j as int - 1));
        }
        j = j - 1;
    }
    let ghost core = answer@.subrange(i as int, j as int);
    proof {
        reveal_strlit("YES");
        if i < j {
            assert(core[0] == answer@[i as int]);
            assert(core.last() == answer@[j as int - 1]);
        }
        assert(trimmed(answer@) == core);
    }
    if j - i != 3 {
        return false;
    }
    let r = answer.get_char(i) == 'Y' && answer.get_char(i + 1) == 'E' && answer.get_char(i + 2) == 'S';
    proof {
        assert(core[0] == answer@[i as int]);
        assert(core[1] == answer@[i as int + 1]);
        assert(core[2] == answer@[i as int + 2]);
        if r {
            assert(core =~= "YES"@);
        }
    }
    r
}

} // verus!
