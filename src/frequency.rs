//! Radio frequencies as whole thousandths of their unit (MHz for a VOR, kHz
//! for an NDB), and their canonical text with exactly three decimals.
use vstd::prelude::*;

use crate::text::{decimal, digit_char, padded, push_decimal, push_padded, same_text};

verus! {

/// The canonical text of a frequency of `n` thousandths: `"112.500"` for `112500`.
pub open spec fn freq_text(n: nat) -> Seq<char> {
    decimal(n / 1000) + seq!['.'] + padded(n % 1000, 3)
}

/// `r` is what reading the text `s` gives: the frequency whose canonical text
/// `s` is, or nothing when `s` is no frequency's canonical text.
pub open spec fn reads_as(s: Seq<char>, r: Option<u64>) -> bool {
    match r {
        Some(n) => s == freq_text(n as nat),
        None => forall|n: u64| freq_text(n as nat) != s,
    }
}

pub open spec fn is_digit(c: char) -> bool {
    48 <= (c as u32) <= 57
}

pub open spec fn digit_value(c: char) -> nat {
    ((c as u32) - 48) as nat
}

/// The number that a run of decimal digits denotes.
pub open spec fn digits_value(s: Seq<char>) -> nat
    decreases s.len(),
{
    if s.len() == 0 {
        0
    } else {
        digits_value(s.drop_last()) * 10 + digit_value(s.last())
    }
}

pub open spec fn all_digits(s: Seq<char>) -> bool {
    forall|i: int| 0 <= i < s.len() ==> is_digit(#[trigger] s[i])
}

proof fn lemma_digit_char(d: nat)
    requires
        d < 10,
    ensures
        is_digit(digit_char(d)),
        digit_value(digit_char(d)) == d,
{
}

proof fn lemma_decimal(n: nat)
    ensures
        all_digits(decimal(n)),
        digits_value(decimal(n)) == n,
        decimal(n).len() >= 1,
    decreases n,
{
    lemma_digit_char(n % 10);
    if n >= 10 {
        lemma_decimal(n / 10);
        let s = decimal(n);
        assert(s.drop_last() =~= decimal(n / 10));
        assert(s.last() == digit_char(n % 10));
        assert((n / 10) * 10 + n % 10 == n);
        assert(digits_value(s) == digits_value(s.drop_last()) * 10 + digit_value(s.last()));
        assert forall|i: int| 0 <= i < s.len() implies is_digit(#[trigger] s[i]) by {
            if i < s.len() - 1 {
                assert(s[i] == decimal(n / 10)[i]);
            }
        }
    } else {
        let s = decimal(n);
        assert(s.drop_last() =~= Seq::<char>::empty());
        assert(digits_value(Seq::<char>::empty()) == 0);
        assert(digits_value(s) == digits_value(s.drop_last()) * 10 + digit_value(s.last()));
    }
}

proof fn lemma_padded_three(r: nat)
    requires
        r < 1000,
    ensures
        padded(r, 3).len() == 3,
        all_digits(padded(r, 3)),
        digits_value(padded(r, 3)) == r,
{
    lemma_decimal(r);
    let d = decimal(r);
    if r < 10 {
        lemma_digit_char(r);
        let p = padded(r, 3);
        assert(p =~= seq!['0', '0', digit_char(r)]);
        assert(p.drop_last() =~= seq!['0', '0']);
        assert(p.drop_last().drop_last() =~= seq!['0']);
        assert(p.drop_last().drop_last().drop_last() =~= Seq::<char>::empty());
        lemma_digit_char(0);
        assert(digits_value(Seq::<char>::empty()) == 0);
        assert(digits_value(seq!['0']) == 0) by {
            assert(seq!['0'].drop_last() =~= Seq::<char>::empty());
        }
        assert(digits_value(seq!['0', '0']) == 0) by {
            assert(seq!['0', '0'].drop_last() =~= seq!['0']);
        }
        assert(digits_value(p) == digits_value(p.drop_last()) * 10 + digit_value(p.last()));
    } else if r < 100 {
        lemma_digit_char(r / 10);
        lemma_digit_char(r % 10);
        assert(decimal(r / 10) == seq![digit_char(r / 10)]);
        assert(d =~= seq![digit_char(r / 10), digit_char(r % 10)]);
        let p = padded(r, 3);
        assert(p =~= seq!['0', digit_char(r / 10), digit_char(r % 10)]);
        assert(p.drop_last() =~= seq!['0', digit_char(r / 10)]);
        assert(p.drop_last().drop_last() =~= seq!['0']);
        assert(p.drop_last().drop_last().drop_last() =~= Seq::<char>::empty());
        lemma_digit_char(0);
        assert(digits_value(Seq::<char>::empty()) == 0);
        assert(digits_value(seq!['0']) == 0) by {
            assert(seq!['0'].drop_last() =~= Seq::<char>::empty());
        }
        assert(digits_value(p.drop_last()) == r / 10) by {
            assert(p.drop_last().drop_last() =~= seq!['0']);
        }
        assert(digits_value(p) == digits_value(p.drop_last()) * 10 + digit_value(p.last()));
    } else {
        lemma_digit_char(r / 100);
        lemma_digit_char((r / 10) % 10);
        lemma_digit_char(r % 10);
        assert((r / 10) / 10 == r / 100);
        assert(decimal(r / 100) == seq![digit_char(r / 100)]);
        assert(decimal(r / 10) =~= seq![digit_char(r / 100), digit_char((r / 10) % 10)]);
        assert(d =~= seq![digit_char(r / 100), digit_char((r / 10) % 10), digit_char(r % 10)]);
    }
}

proof fn lemma_prefix_value(s: Seq<char>, k: int)
    requires
        0 <= k <= s.len(),
        all_digits(s),
    ensures
        digits_value(s.subrange(0, k)) <= digits_value(s),
    decreases s.len() - k,
{
    if k < s.len() {
        lemma_prefix_value(s, k + 1);
        assert(s.subrange(0, k + 1).drop_last() =~= s.subrange(0, k));
    } else {
        assert(s.subrange(0, k) =~= s);
    }
}

/// Reads the characters `s[from..to]` as a decimal number.
fn parse_digits(s: &str, from: usize, to: usize) -> (r: Option<u64>)
    requires
        from <= to <= s@.len(),
    ensures
        match r {
            Some(v) => all_digits(s@.subrange(from as int, to as int)) && v == digits_value(
                s@.subrange(from as int, to as int),
            ),
            None => !all_digits(s@.subrange(from as int, to as int)) || digits_value(
                s@.subrange(from as int, to as int),
            ) > u64::MAX,
        },
{
    let ghost t = s@.subrange(from as int, to as int);
    let mut total: u64 = 0;
    let mut i: usize = from;
    while i < to
        invariant
            from <= i <= to <= s@.len(),
            t == s@.subrange(from as int, to as int),
            all_digits(t.subrange(0, i - from)),
            total == digits_value(t.subrange(0, i - from)),
        decreases to - i,
    {
        let c = s.get_char(i);
        assert(c == t[i - from]);
        assert(t.subrange(0, i + 1 - from).drop_last() =~= t.subrange(0, i - from));
        if !('0' <= c && c <= '9') {
            return None;
        }
        let d = (c as u32 - 48) as u64;
        if total > (u64::MAX - d) / 10 {
            proof {
                if all_digits(t) {
                    lemma_prefix_value(t, i + 1 - from);
                }
            }
            return None;
        }
        total = total * 10 + d;
        i = i + 1;
        assert(all_digits(t.subrange(0, i - from)));
    }
    assert(t.subrange(0, to - from) =~= t);
    Some(total)
}

/// Writes a frequency of `thousandths` with exactly three decimals.
pub fn format_frequency(thousandths: u64) -> (r: String)
    ensures
        r@ == freq_text(thousandths as nat),
{
    let mut s = String::new();
    push_decimal(&mut s, thousandths / 1000);
    proof { reveal_strlit("."); }
    s.append(".");
    push_padded(&mut s, thousandths % 1000, 3);
    s
}

/// Reads a frequency written with exactly three decimals and no leading zeros
/// (the text that `format_frequency` writes).
pub fn parse_frequency(s: &str) -> (r: Option<u64>)
    ensures
        reads_as(s@, r),
{
    let len = s.unicode_len();
    if len < 5 || s.get_char(len - 4) != '.' {
        proof {
            assert forall|n: u64| freq_text(n as nat) != s@ by {
                lemma_freq_text_shape(n as nat);
            }
        }
        return None;
    }
    let whole = parse_digits(s, 0, len - 4);
    let frac = parse_digits(s, len - 3, len);
    match (whole, frac) {
        (Some(w), Some(f)) => {
            if w > (u64::MAX - f) / 1000 {
                proof {
                    assert forall|m: u64| freq_text(m as nat) != s@ by {
                        lemma_freq_text_shape(m as nat);
                        if freq_text(m as nat) == s@ {
                            assert(s@.subrange(0, len - 4) =~= decimal(m as nat / 1000));
                            assert(s@.subrange(len - 3, len as int) =~= padded(m as nat % 1000, 3));
                        }
                    }
                }
                return None;
            }
            let n = w * 1000 + f;
            let t = format_frequency(n);
            if same_text(t.as_str(), s) {
                Some(n)
            } else {
                proof {
                    assert forall|m: u64| freq_text(m as nat) != s@ by {
                        lemma_freq_text_shape(m as nat);
                        if freq_text(m as nat) == s@ {
                            assert(s@.subrange(0, len - 4) =~= decimal(m as nat / 1000));
                            assert(s@.subrange(len - 3, len as int) =~= padded(m as nat % 1000, 3));
                        }
                    }
                }
                None
            }
        },
        _ => {
            proof {
                assert forall|m: u64| freq_text(m as nat) != s@ by {
                    lemma_freq_text_shape(m as nat);
                    if freq_text(m as nat) == s@ {
                        assert(s@.subrange(0, len - 4) =~= decimal(m as nat / 1000));
                        assert(s@.subrange(len - 3, len as int) =~= padded(m as nat % 1000, 3));
                    }
                }
            }
            None
        },
    }
}

proof fn lemma_freq_text_shape(n: nat)
    ensures
        freq_text(n).len() >= 5,
        freq_text(n)[freq_text(n).len() - 4] == '.',
        all_digits(decimal(n / 1000)),
        digits_value(decimal(n / 1000)) == n / 1000,
        all_digits(padded(n % 1000, 3)),
        digits_value(padded(n % 1000, 3)) == n % 1000,
        freq_text(n).len() == decimal(n / 1000).len() + 4,
{
    lemma_decimal(n / 1000);
    lemma_padded_three(n % 1000);
}

/// Reading back the text that a frequency is written as gives that frequency,
/// so writing it again gives the same text: formatting is idempotent.
pub proof fn lemma_frequency_text_round_trip(n: u64, r: Option<u64>)
    requires
        reads_as(freq_text(n as nat), r),
    ensures
        r == Some(n),
        freq_text(r->0 as nat) == freq_text(n as nat),
{
    match r {
        Some(m) => {
            lemma_freq_text_shape(m as nat);
            lemma_freq_text_shape(n as nat);
            let t = freq_text(n as nat);
            let k = t.len() - 4;
            assert(t.subrange(0, k) =~= decimal(n as nat / 1000));
            assert(freq_text(m as nat).subrange(0, k) =~= decimal(m as nat / 1000));
            assert(t.subrange(k + 1, t.len() as int) =~= padded(n as nat % 1000, 3));
            assert(freq_text(m as nat).subrange(k + 1, t.len() as int) =~= padded(
                m as nat % 1000,
                3,
            ));
        },
        None => {
            assert(freq_text(n as nat) != freq_text(n as nat));
        },
    }
}

} // verus!
