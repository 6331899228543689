//! The thread identifier embedded in a ticket title as `[<decimal id>]`.
use vstd::prelude::*;
use crate::decimal::{
    all_digits, decimal_of, digits_to_u64, digits_value, is_digit, lemma_decimal_of,
    push_decimal,
};

verus! {

/// The title suffix that carries `id`.
pub open spec fn encode_spec(id: u64) -> Seq<char> {
    seq!['['] + decimal_of(id as nat) + seq![']']
}

/// The first index at or after `j` that does not hold a digit.
pub open spec fn digit_run_end(s: Seq<char>, j: int) -> int
    decreases s.len() - j,
{
    if j < 0 || j >= s.len() || !is_digit(s[j]) {
        j
    } else {
        digit_run_end(s, j + 1)
    }
}

/// Whether a bracketed run of one or more digits starts at `i`.
pub open spec fn bracket_at(s: Seq<char>, i: int) -> bool {
    let e = digit_run_end(s, i + 1);
    &&& 0 <= i < s.len()
    &&& s[i] == '['
    &&& e > i + 1
    &&& e < s.len()
    &&& s[e] == ']'
}

/// The first bracketed run of digits at or after `i`, as the indices of its brackets.
pub open spec fn first_bracket_from(s: Seq<char>, i: int) -> Option<(int, int)>
    decreases s.len() - i,
{
    if i < 0 || i >= s.len() {
        None
    } else if bracket_at(s, i) {
        Some((i, digit_run_end(s, i + 1)))
    } else {
        first_bracket_from(s, i + 1)
    }
}

/// The identifier that a title carries: the first bracketed run of digits,
/// read as a 64-bit integer; none where there is no such run or it overflows.
pub open spec fn decode_spec(s: Seq<char>) -> Option<u64> {
    match first_bracket_from(s, 0) {
        None => None,
        Some((open, close)) => {
            let v = digits_value(s.subrange(open + 1, close));
            if v <= u64::MAX {
                Some(v as u64)
            } else {
                None
            }
        },
    }
}

pub proof fn lemma_digit_run_end(s: Seq<char>, j: int)
    requires
        0 <= j <= s.len(),
    ensures
        j <= digit_run_end(s, j) <= s.len(),
        all_digits(s.subrange(j, digit_run_end(s, j))),
        digit_run_end(s, j) < s.len() ==> !is_digit(s[digit_run_end(s, j)]),
    decreases s.len() - j,
{
    if j < s.len() && is_digit(s[j]) {
        lemma_digit_run_end(s, j + 1);
        let e = digit_run_end(s, j);
        assert forall|k: int| 0 <= k < e - j implies is_digit(#[trigger] s.subrange(j, e)[k]) by {
            if k > 0 {
                assert(s.subrange(j, e)[k] == s.subrange(j + 1, e)[k - 1]);
            }
        }
    }
}

/// A run of digits followed by a non-digit ends there.
proof fn lemma_digit_run_end_at(s: Seq<char>, j: int, e: int)
    requires
        0 <= j <= e < s.len(),
        forall|k: int| j <= k < e ==> is_digit(#[trigger] s[k]),
        !is_digit(s[e]),
    ensures
        digit_run_end(s, j) == e,
    decreases e - j,
{
    if j < e {
        lemma_digit_run_end_at(s, j + 1, e);
    }
}

/// Decoding the encoding of an identifier gives the identifier back.
pub proof fn lemma_decode_encode(id: u64)
    ensures
        decode_spec(encode_spec(id)) == Some(id),
{
    let d = decimal_of(id as nat);
    let s = encode_spec(id);
    lemma_decimal_of(id as nat);
    let e = s.len() - 1;
    assert forall|k: int| 1 <= k < e implies is_digit(#[trigger] s[k]) by {
        assert(s[k] == d[k - 1]);
    }
    assert(s[e] == ']');
    lemma_digit_run_end_at(s, 1, e);
    assert(bracket_at(s, 0));
    assert(s.subrange(1, e) =~= d);
}

/// The title suffix that carries `id`, such as `[1234567890]`.
pub fn encode(id: u64) -> (r: String)
    ensures
        r@ == encode_spec(id),
{
    let mut s = String::new();
    proof {
        reveal_strlit("[");
        reveal_strlit("]");
    }
    s.append("[");
    push_decimal(&mut s, id);
    s.append("]");
    assert(s@ =~= encode_spec(id));
    s
}

/// The end of the run of digits that starts at `j`.
fn scan_digits(s: &str, j: usize) -> (r: usize)
    requires
        j <= s@.len(),
    ensures
        r == digit_run_end(s@, j as int),
{
    let n = s.unicode_len();
    let mut k: usize = j;
    while k < n
        invariant
            j <= k <= n,
            n == s@.len(),
            digit_run_end(s@, j as int) == digit_run_end(s@, k as int),
        decreases n - k,
    {
        let c = s.get_char(k);
        if !('0' <= c && c <= '9') {
            return k;
        }
        k = k + 1;
    }
    k
}

/// Reads the thread identifier out of a ticket title.
pub fn extract_thread_id(title: &str) -> (r: Option<u64>)
    ensures
        r == decode_spec(title@),
{
    let n = title.unicode_len();
    let mut i: usize = 0;
    while i < n
        invariant
            i <= n,
            n == title@.len(),
            first_bracket_from(title@, 0) == first_bracket_from(title@, i as int),
        decreases n - i,
    {
        if title.get_char(i) == '[' {
            let j = scan_digits(title, i + 1);
            if j < n && j > i + 1 && title.get_char(j) == ']' {
                proof {
                    lemma_digit_run_end(title@, i + 1);
                }
                return digits_to_u64(title, i + 1, j);
            }
        }
        i = i + 1;
    }
    None
}

} // verus!
