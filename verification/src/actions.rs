//! Editor actions parsed from typed input: a count followed by a vi-style
//! direction key moves the cursor by that many cells.

use vstd::prelude::*;
use vstd::string::StrSliceExecFns;
use crate::geometry::Delta;

verus! {

/// An action the editor can apply.
#[derive(Clone, Copy, Debug, PartialEq, Eq, Structural)]
pub enum Action {
    /// Move the cursor by the given displacement.
    MoveCursor(Delta),
}

/// Failures while applying a parsed action. No parse produces one today:
/// the grammar recognizes no fallible action.
#[derive(Clone, Copy, Debug, PartialEq, Eq, Structural)]
pub enum ActionError {
    /// An action the grammar names but the editor cannot apply.
    Unsupported,
}

/// Whether the character is a decimal digit, as the count tokens of the
/// movement grammar use them.
pub open spec fn is_digit_char(c: char) -> bool {
    '0' <= c && c <= '9'
}

/// Whether the character is one of the four vi-style direction keys.
pub open spec fn is_direction_char(c: char) -> bool {
    c == 'h' || c == 'l' || c == 'k' || c == 'j'
}

/// The numeric value of a digit character.
pub open spec fn digit_value(c: char) -> int {
    c as int - '0' as int
}

/// The length of the longest all-digit prefix of the input: the extent of
/// the count token a maximal-munch lexer reads.
pub open spec fn digit_run_len(s: Seq<char>) -> int
    decreases s.len(),
{
    if s.len() == 0 || !is_digit_char(s[0]) {
        0
    } else {
        1 + digit_run_len(s.skip(1))
    }
}

/// The decimal value of an all-digit sequence.
pub open spec fn decimal_value(s: Seq<char>) -> int
    decreases s.len(),
{
    if s.len() == 0 {
        0
    } else {
        decimal_value(s.drop_last()) * 10 + digit_value(s.last())
    }
}

/// The displacement a direction key denotes, scaled by a count: `k` is up,
/// `h` left, `j` down, `l` right.
pub open spec fn direction_steps(c: char, count: int) -> (int, int) {
    if c == 'k' {
        (0, -count)
    } else if c == 'h' {
        (-count, 0)
    } else if c == 'j' {
        (0, count)
    } else {
        (count, 0)
    }
}

/// What the movement grammar makes of an input. The first token decides: a
/// direction key alone moves by one cell (whatever follows is ignored); a
/// digit run is a count and must be followed by a direction key; a count
/// that overflows the 32-bit count type, or anything else, means no action.
pub open spec fn spec_parse_move(s: Seq<char>) -> Option<(int, int)> {
    if s.len() == 0 {
        None
    } else if is_direction_char(s[0]) {
        Some(direction_steps(s[0], 1))
    } else if is_digit_char(s[0]) {
        let k = digit_run_len(s);
        let v = decimal_value(s.take(k));
        if v > i32::MAX {
            None
        } else if k < s.len() && is_direction_char(s[k]) {
            Some(direction_steps(s[k], v))
        } else {
            None
        }
    } else {
        None
    }
}

/// The digit run lies within the input and consists of digits only.
proof fn lemma_digit_run_prefix(s: Seq<char>)
    ensures
        0 <= digit_run_len(s) <= s.len(),
        forall|j: int| 0 <= j < digit_run_len(s) ==> is_digit_char(s[j]),
    decreases s.len(),
{
    if s.len() > 0 && is_digit_char(s[0]) {
        lemma_digit_run_prefix(s.skip(1));
        assert forall|j: int| 0 <= j < digit_run_len(s) implies is_digit_char(s[j]) by {
            if j > 0 {
                assert(s.skip(1)[j - 1] == s[j]);
            }
        }
    }
}

/// The digit run extends at least past any all-digit prefix.
proof fn lemma_digit_run_len_at_least(s: Seq<char>, m: int)
    requires
        0 <= m <= s.len(),
        forall|j: int| 0 <= j < m ==> is_digit_char(s[j]),
    ensures
        digit_run_len(s) >= m,
    decreases m,
{
    lemma_digit_run_prefix(s);
    if m > 0 {
        assert(is_digit_char(s[0]));
        assert forall|j: int| 0 <= j < m - 1 implies is_digit_char(s.skip(1)[j]) by {
            assert(s.skip(1)[j] == s[j + 1]);
        }
        lemma_digit_run_len_at_least(s.skip(1), m - 1);
        assert(digit_run_len(s) == 1 + digit_run_len(s.skip(1)));
    }
}

/// A prefix of digits ended by the end of input or a non-digit is exactly
/// the digit run.
proof fn lemma_digit_run_len_exact(s: Seq<char>, k: int)
    requires
        0 <= k <= s.len(),
        forall|j: int| 0 <= j < k ==> is_digit_char(s[j]),
        k == s.len() || !is_digit_char(s[k]),
    ensures
        digit_run_len(s) == k,
    decreases k,
{
    if k > 0 {
        assert forall|j: int| 0 <= j < k - 1 implies is_digit_char(s.skip(1)[j]) by {
            assert(s.skip(1)[j] == s[j + 1]);
        }
        if k < s.len() {
            assert(s.skip(1)[k - 1] == s[k]);
        }
        lemma_digit_run_len_exact(s.skip(1), k - 1);
    }
}

/// The value of an all-digit sequence is never negative.
proof fn lemma_decimal_value_nonneg(s: Seq<char>)
    requires
        forall|j: int| 0 <= j < s.len() ==> is_digit_char(s[j]),
    ensures
        decimal_value(s) >= 0,
    decreases s.len(),
{
    if s.len() > 0 {
        assert(s.drop_last() =~= s.take(s.len() - 1));
        lemma_decimal_value_nonneg(s.drop_last());
    }
}

/// Reading one more digit never shrinks the value of the count.
proof fn lemma_decimal_value_monotone(s: Seq<char>, i: int, k: int)
    requires
        0 <= i <= k <= s.len(),
        forall|j: int| 0 <= j < k ==> is_digit_char(s[j]),
    ensures
        decimal_value(s.take(i)) <= decimal_value(s.take(k)),
    decreases k - i,
{
    if i < k {
        lemma_decimal_value_monotone(s, i, k - 1);
        let t = s.take(k);
        assert(t.drop_last() =~= s.take(k - 1));
        assert(forall|j: int| 0 <= j < s.take(k - 1).len() ==> is_digit_char(
            #[trigger] s.take(k - 1)[j],
        ));
        lemma_decimal_value_nonneg(s.take(k - 1));
        assert(decimal_value(t) == decimal_value(s.take(k - 1)) * 10 + digit_value(t.last()));
    }
}

/// Whether the character of the input at position `i` is a decimal digit.
fn digit_at(s: &str, i: usize) -> (b: bool)
    requires
        i < s@.len(),
    ensures
        b == is_digit_char(s@[i as int]),
{
    let c = s.get_char(i);
    c >= '0' && c <= '9'
}

/// The displacement a direction key denotes, scaled by a count.
fn direction_delta(c: char, count: i32) -> (d: Delta)
    requires
        is_direction_char(c),
        0 <= count,
    ensures
        (d.x as int, d.y as int) == direction_steps(c, count as int),
{
    if c == 'k' {
        Delta { x: 0, y: -count }
    } else if c == 'h' {
        Delta { x: -count, y: 0 }
    } else if c == 'j' {
        Delta { x: 0, y: count }
    } else {
        Delta { x: count, y: 0 }
    }
}

/// Parses a cursor movement: an optional decimal count followed by a
/// direction key, as `spec_parse_move` lays the grammar down. A bare
/// direction key moves by one cell; a count without a direction, a count
/// that overflows the 32-bit count type, or any other input yields nothing.
pub fn parse_move_cursor(input: &str) -> (r: Option<Action>)
    ensures
        match r {
            Some(Action::MoveCursor(d)) => spec_parse_move(input@) == Some(
                ((d.x as int, d.y as int)),
            ),
            None => spec_parse_move(input@) is None,
        },
{
    let n = input.unicode_len();
    if n == 0 {
        return None;
    }
    let c0 = input.get_char(0);
    if c0 == 'h' || c0 == 'l' || c0 == 'k' || c0 == 'j' {
        return Some(Action::MoveCursor(direction_delta(c0, 1)));
    }
    if !(c0 >= '0' && c0 <= '9') {
        return None;
    }
    let mut i: usize = 0;
    let mut acc: u64 = 0;
    loop
        invariant
            n == input@.len(),
            0 < n <= usize::MAX,
            i <= n,
            is_digit_char(input@[0]),
            !is_direction_char(input@[0]),
            forall|j: int| 0 <= j < i ==> is_digit_char(input@[j]),
            acc == decimal_value(input@.take(i as int)),
            acc <= i32::MAX,
        ensures
            i <= n,
            forall|j: int| 0 <= j < i ==> is_digit_char(input@[j]),
            i == n || !is_digit_char(input@[i as int]),
            acc == decimal_value(input@.take(i as int)),
            acc <= i32::MAX,
        decreases n - i,
    {
        if i == n {
            break;
        }
        let c = input.get_char(i);
        if !(c >= '0' && c <= '9') {
            break;
        }
        let d: u64 = (c as u32 as u64) - 48;
        let next: u64 = acc * 10 + d;
        proof {
            let s = input@;
            assert(s.take(i + 1).drop_last() =~= s.take(i as int));
            assert(s.take(i + 1).last() == s[i as int]);
            assert(next == decimal_value(s.take(i + 1)));
        }
        if next > 2147483647 {
            proof {
                let s = input@;
                lemma_digit_run_len_at_least(s, i + 1);
                lemma_digit_run_prefix(s);
                lemma_decimal_value_monotone(s, i + 1, digit_run_len(s));
            }
            return None;
        }
        acc = next;
        i = i + 1;
    }
    proof {
        lemma_digit_run_len_exact(input@, i as int);
    }
    if i == n {
        return None;
    }
    let cnext = input.get_char(i);
    if cnext == 'h' || cnext == 'l' || cnext == 'k' || cnext == 'j' {
        Some(Action::MoveCursor(direction_delta(cnext, acc as i32)))
    } else {
        None
    }
}

/// Parses a complete editor action from the typed buffer. The action
/// grammar recognizes no complete command, so every buffer parses to
/// nothing and input keeps accumulating.
pub fn parse_action(buffer: &str) -> (r: Option<Result<Action, ActionError>>)
    ensures
        r is None,
{
    let _ = buffer;
    None
}

} // verus!
