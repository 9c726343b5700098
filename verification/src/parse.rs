//! Small verified parsers over the plain bytes the surrounding process
//! collects: the device-name filter used during enumeration, and the
//! reading of a sink identifier out of the audio collaborator's listing.

use vstd::prelude::*;

verus! {

/// The ASCII bytes of the platform's HID device-name prefix, "hidraw".
pub open spec fn hidraw_prefix() -> Seq<u8> {
    seq![104u8, 105u8, 100u8, 114u8, 97u8, 119u8]
}

/// Whether a device's short name follows the platform's HID naming
/// convention — only such device nodes are discovery candidates.
pub fn has_hidraw_prefix(name: &[u8]) -> (r: bool)
    ensures
        r <==> (name@.len() >= 6 && name@.subrange(0, 6) == hidraw_prefix()),
{
    if name.len() < 6 {
        return false;
    }
    let r = name[0] == 104 && name[1] == 105 && name[2] == 100 && name[3] == 114 && name[4] == 97
        && name[5] == 119;
    proof {
        if r {
            assert(name@.subrange(0, 6) =~= hidraw_prefix());
        } else {
            assert(name@.subrange(0, 6) != hidraw_prefix()) by {
                if name@.subrange(0, 6) == hidraw_prefix() {
                    assert(name@[0] == hidraw_prefix()[0]);
                    assert(name@[1] == hidraw_prefix()[1]);
                    assert(name@[2] == hidraw_prefix()[2]);
                    assert(name@[3] == hidraw_prefix()[3]);
                    assert(name@[4] == hidraw_prefix()[4]);
                    assert(name@[5] == hidraw_prefix()[5]);
                }
            }
        }
    }
    r
}

/// ASCII whitespace, as the collaborator's listing separates its columns.
pub open spec fn is_ascii_space(b: u8) -> bool {
    b == 32 || b == 9 || b == 10 || b == 12 || b == 13
}

/// The longest whitespace-free prefix of `s`.
pub open spec fn leading_run(s: Seq<u8>) -> Seq<u8>
    decreases s.len(),
{
    if s.len() == 0 || is_ascii_space(s[0]) {
        Seq::<u8>::empty()
    } else {
        seq![s[0]] + leading_run(s.drop_first())
    }
}

/// The first whitespace-separated token of `s`: what is left after
/// skipping leading whitespace, up to the next whitespace.  Empty when `s`
/// holds nothing but whitespace.
pub open spec fn first_token(s: Seq<u8>) -> Seq<u8>
    decreases s.len(),
{
    if s.len() == 0 {
        Seq::<u8>::empty()
    } else if is_ascii_space(s[0]) {
        first_token(s.drop_first())
    } else {
        leading_run(s)
    }
}

pub open spec fn is_ascii_digit(b: u8) -> bool {
    48 <= b <= 57
}

pub open spec fn all_digits(t: Seq<u8>) -> bool {
    forall|i: int| 0 <= i < t.len() ==> is_ascii_digit(t[i])
}

/// The number a run of decimal digit bytes denotes.
pub open spec fn digits_val(t: Seq<u8>) -> int
    decreases t.len(),
{
    if t.len() == 0 {
        0
    } else {
        digits_val(t.drop_last()) * 10 + (t.last() - 48)
    }
}

proof fn lemma_digits_val_nonneg(t: Seq<u8>)
    requires
        all_digits(t),
    ensures
        digits_val(t) >= 0,
    decreases t.len(),
{
    if t.len() > 0 {
        assert(all_digits(t.drop_last()));
        lemma_digits_val_nonneg(t.drop_last());
    }
}

/// A longer digit prefix never denotes a smaller number: each further
/// digit multiplies the value by ten and adds a non-negative amount.
proof fn lemma_digits_val_prefix_le(t: Seq<u8>, a: int, b: int)
    requires
        all_digits(t),
        0 <= a <= b <= t.len(),
    ensures
        digits_val(t.subrange(0, a)) <= digits_val(t.subrange(0, b)),
    decreases b - a,
{
    if a < b {
        lemma_digits_val_prefix_le(t, a, b - 1);
        let p = t.subrange(0, b - 1);
        assert(t.subrange(0, b).drop_last() =~= p);
        assert(all_digits(p));
        lemma_digits_val_nonneg(p);
        assert(digits_val(t.subrange(0, b)) == digits_val(p) * 10 + (t[b - 1] - 48));
    }
}

/// Reads a sink identifier out of the collaborator's listing: the first
/// whitespace-separated token of `s`, parsed as a decimal number.  Returns
/// the number exactly when that token is non-empty, consists of digits
/// only, and fits the identifier's range; otherwise nothing.
pub fn parse_sink_id(s: &[u8]) -> (r: Option<u32>)
    ensures
        match r {
            Option::Some(v) => {
                &&& first_token(s@).len() > 0
                &&& all_digits(first_token(s@))
                &&& digits_val(first_token(s@)) == v
            },
            Option::None => {
                ||| first_token(s@).len() == 0
                ||| !all_digits(first_token(s@))
                ||| digits_val(first_token(s@)) > u32::MAX
            },
        },
{
    let mut i: usize = 0;
    proof {
        assert(s@.skip(0) =~= s@);
    }
    while i < s.len() && is_space_exec(s[i])
        invariant
            i <= s@.len(),
            first_token(s@) == first_token(s@.skip(i as int)),
        decreases s@.len() - i,
    {
        proof {
            assert(s@.skip(i as int).drop_first() =~= s@.skip(i + 1));
        }
        i = i + 1;
    }
    if i == s.len() {
        proof {
            assert(s@.skip(i as int) =~= Seq::<u8>::empty());
        }
        return Option::None;
    }
    // The token starts at `i`; find its end.
    let ghost t0 = s@.skip(i as int);
    proof {
        assert(t0[0] == s@[i as int]);
        assert(first_token(s@) == leading_run(t0));
    }
    let mut j: usize = i;
    proof {
        assert(s@.subrange(i as int, i as int) + leading_run(s@.skip(i as int)) =~= leading_run(
            t0,
        ));
    }
    while j < s.len() && !is_space_exec(s[j])
        invariant
            i <= j <= s@.len(),
            i < s@.len(),
            leading_run(t0) == s@.subrange(i as int, j as int) + leading_run(s@.skip(j as int)),
        decreases s@.len() - j,
    {
        proof {
            assert(s@.skip(j as int)[0] == s@[j as int]);
            assert(s@.skip(j as int).drop_first() =~= s@.skip(j + 1));
            assert(s@.subrange(i as int, j as int) + (seq![s@[j as int]] + leading_run(
                s@.skip(j + 1),
            )) =~= s@.subrange(i as int, j + 1) + leading_run(s@.skip(j + 1)));
        }
        j = j + 1;
    }
    let ghost tok = first_token(s@);
    proof {
        if j == s@.len() {
            assert(s@.skip(j as int) =~= Seq::<u8>::empty());
        } else {
            assert(s@.skip(j as int)[0] == s@[j as int]);
        }
        assert(leading_run(s@.skip(j as int)) =~= Seq::<u8>::empty());
        assert(tok =~= s@.subrange(i as int, j as int));
        assert(tok.len() == j - i);
        assert(j > i);
    }
    // Parse the token's digits, left to right.
    let mut acc: u32 = 0;
    let mut k: usize = i;
    proof {
        assert(tok.subrange(0, 0) =~= Seq::<u8>::empty());
    }
    while k < j
        invariant
            i <= k <= j <= s@.len(),
            tok == first_token(s@),
            tok == s@.subrange(i as int, j as int),
            tok.len() == j - i,
            all_digits(tok.subrange(0, k - i)),
            acc == digits_val(tok.subrange(0, k - i)),
        decreases j - k,
    {
        let b = s[k];
        proof {
            assert(tok[k - i] == s@[k as int]);
        }
        if b < 48 || b > 57 {
            proof {
                assert(is_ascii_digit(tok[k - i]) == false);
                assert(!all_digits(tok));
            }
            return Option::None;
        }
        let wide: u64 = (acc as u64) * 10 + ((b - 48) as u64);
        proof {
            assert(tok.subrange(0, (k - i) + 1).drop_last() =~= tok.subrange(0, k - i));
            assert(tok.subrange(0, (k - i) + 1).last() == tok[k - i]);
            assert(digits_val(tok.subrange(0, (k - i) + 1)) == wide);
            assert(all_digits(tok.subrange(0, (k - i) + 1)));
        }
        if wide > 0xFFFF_FFFFu64 {
            proof {
                // Either some later byte is no digit, or the whole token's
                // value is at least this prefix's value, which already
                // exceeds the identifier's range.
                if all_digits(tok) {
                    lemma_digits_val_prefix_le(tok, (k - i) + 1, tok.len() as int);
                    assert(tok.subrange(0, tok.len() as int) =~= tok);
                }
            }
            return Option::None;
        }
        acc = wide as u32;
        k = k + 1;
    }
    proof {
        assert(tok.subrange(0, tok.len() as int) =~= tok);
    }
    Option::Some(acc)
}

/// Whether a byte is ASCII whitespace.
fn is_space_exec(b: u8) -> (r: bool)
    ensures
        r == is_ascii_space(b),
{
    b == 32 || b == 9 || b == 10 || b == 12 || b == 13
}

} // verus!
