//! Text building blocks shared by the renderers: joining pieces with a
//! separator, and reading and writing decimal numbers, as tuple-struct
//! field indices need.

use vstd::prelude::*;
use vstd::string::StringExecFns;
use vstd::string::StrSliceExecFns;
use crate::model::{dec_val, is_dec_text};

verus! {

/// The pieces of `parts`, joined by `sep`.
pub open spec fn seq_join(parts: Seq<Seq<char>>, sep: Seq<char>) -> Seq<char>
    decreases parts.len(),
{
    if parts.len() == 0 {
        Seq::empty()
    } else if parts.len() == 1 {
        parts[0]
    } else {
        seq_join(parts.drop_last(), sep) + sep + parts.last()
    }
}

/// Joining one more piece appends a separator first, unless nothing came
/// before.
pub proof fn lemma_seq_join_step(parts: Seq<Seq<char>>, sep: Seq<char>, i: int)
    requires
        0 <= i < parts.len(),
    ensures
        seq_join(parts.take(i + 1), sep) == if i == 0 {
            parts[0]
        } else {
            seq_join(parts.take(i), sep) + sep + parts[i]
        },
{
    assert(parts.take(i + 1).drop_last() =~= parts.take(i));
    assert(parts.take(i + 1).last() == parts[i]);
}

/// The character denoting the digit `d`.
pub open spec fn dec_digit(d: int) -> char {
    if d == 0 {
        '0'
    } else if d == 1 {
        '1'
    } else if d == 2 {
        '2'
    } else if d == 3 {
        '3'
    } else if d == 4 {
        '4'
    } else if d == 5 {
        '5'
    } else if d == 6 {
        '6'
    } else if d == 7 {
        '7'
    } else if d == 8 {
        '8'
    } else {
        '9'
    }
}

/// The decimal text of `n`, without leading zeros.
pub open spec fn dec_text(n: int) -> Seq<char>
    decreases n,
{
    if n < 10 {
        seq![dec_digit(n)]
    } else {
        dec_text(n / 10).push(dec_digit(n % 10))
    }
}

/// The character of a digit denotes the digit and is one.
pub proof fn lemma_dec_digit_val(d: int)
    requires
        0 <= d < 10,
    ensures
        dec_digit(d) as int - '0' as int == d,
        '0' <= dec_digit(d) && dec_digit(d) <= '9',
{
    if d == 0 {
    } else if d == 1 {
    } else if d == 2 {
    } else if d == 3 {
    } else if d == 4 {
    } else if d == 5 {
    } else if d == 6 {
    } else if d == 7 {
    } else if d == 8 {
    } else {
    }
}

/// The decimal text of `n` denotes `n` back.
pub proof fn lemma_dec_text_val(n: int)
    requires
        n >= 0,
    ensures
        is_dec_text(dec_text(n)),
        dec_val(dec_text(n)) == n,
    decreases n,
{
    if n < 10 {
        lemma_dec_digit_val(n);
        assert(dec_text(n) =~= seq![dec_digit(n)]);
        assert(dec_text(n).drop_last() =~= Seq::<char>::empty());
        assert(dec_val(dec_text(n)) == dec_val(Seq::<char>::empty()) * 10 + (dec_digit(n) as int
            - '0' as int));
    } else {
        lemma_dec_text_val(n / 10);
        lemma_dec_digit_val(n % 10);
        assert(dec_text(n).drop_last() =~= dec_text(n / 10));
        assert(dec_text(n).last() == dec_digit(n % 10));
    }
}

/// A run of digits denotes a number that is not negative.
pub proof fn lemma_dec_val_nonneg(s: Seq<char>)
    requires
        forall|i: int| 0 <= i < s.len() ==> ('0' <= s[i] && s[i] <= '9'),
    ensures
        dec_val(s) >= 0,
    decreases s.len(),
{
    if s.len() > 0 {
        lemma_dec_val_nonneg(s.drop_last());
        assert(s.last() as int - '0' as int >= 0);
        assert(dec_val(s.drop_last()) * 10 >= 0) by (nonlinear_arith)
            requires
                dec_val(s.drop_last()) >= 0,
        ;
    }
}

/// A prefix of a run of digits denotes no more than the whole run.
pub proof fn lemma_dec_val_take_le(s: Seq<char>, i: int)
    requires
        is_dec_text(s),
        0 <= i <= s.len(),
    ensures
        dec_val(s.take(i)) <= dec_val(s),
    decreases s.len() - i,
{
    if i < s.len() {
        lemma_dec_val_take_le(s, i + 1);
        assert(s.take(i + 1).drop_last() =~= s.take(i));
        let v = dec_val(s.take(i));
        assert(forall|k: int| 0 <= k < s.take(i).len() ==> ('0' <= s.take(i)[k] && s.take(i)[k]
            <= '9'));
        lemma_dec_val_nonneg(s.take(i));
        assert(v * 10 >= v) by (nonlinear_arith)
            requires
                v >= 0,
        ;
        assert(dec_val(s.take(i + 1)) >= v);
    } else {
        assert(s.take(i) =~= s);
    }
}

/// Writes the digit `d` at the end of `out`.
fn append_digit(out: &mut String, d: usize)
    requires
        d < 10,
    ensures
        final(out)@ == old(out)@ + seq![dec_digit(d as int)],
{
    if d == 0 {
        proof {
            reveal_strlit("0");
        }
        assert(("0")@ =~= seq![dec_digit(0)]);
        out.append("0");
    } else if d == 1 {
        proof {
            reveal_strlit("1");
        }
        assert(("1")@ =~= seq![dec_digit(1)]);
        out.append("1");
    } else if d == 2 {
        proof {
            reveal_strlit("2");
        }
        assert(("2")@ =~= seq![dec_digit(2)]);
        out.append("2");
    } else if d == 3 {
        proof {
            reveal_strlit("3");
        }
        assert(("3")@ =~= seq![dec_digit(3)]);
        out.append("3");
    } else if d == 4 {
        proof {
            reveal_strlit("4");
        }
        assert(("4")@ =~= seq![dec_digit(4)]);
        out.append("4");
    } else if d == 5 {
        proof {
            reveal_strlit("5");
        }
        assert(("5")@ =~= seq![dec_digit(5)]);
        out.append("5");
    } else if d == 6 {
        proof {
            reveal_strlit("6");
        }
        assert(("6")@ =~= seq![dec_digit(6)]);
        out.append("6");
    } else if d == 7 {
        proof {
            reveal_strlit("7");
        }
        assert(("7")@ =~= seq![dec_digit(7)]);
        out.append("7");
    } else if d == 8 {
        proof {
            reveal_strlit("8");
        }
        assert(("8")@ =~= seq![dec_digit(8)]);
        out.append("8");
    } else {
        proof {
            reveal_strlit("9");
        }
        assert(("9")@ =~= seq![dec_digit(9)]);
        out.append("9");
    }
}

/// Writes the decimal text of `n` at the end of `out`.
pub fn append_dec(out: &mut String, n: usize)
    ensures
        final(out)@ == old(out)@ + dec_text(n as int),
    decreases n,
{
    if n >= 10 {
        append_dec(out, n / 10);
        append_digit(out, n % 10);
        assert(final(out)@ =~= old(out)@ + dec_text(n as int));
    } else {
        append_digit(out, n);
    }
}

/// Reads the number a run of digits denotes.
pub fn parse_dec(s: &String) -> (r: usize)
    requires
        is_dec_text(s@),
        dec_val(s@) <= usize::MAX,
    ensures
        r == dec_val(s@),
{
    let n = s.as_str().unicode_len();
    let mut val: usize = 0;
    proof {
        assert(s@.take(0) =~= Seq::<char>::empty());
    }
    for i in 0..n
        invariant
            n == s@.len(),
            is_dec_text(s@),
            dec_val(s@) <= usize::MAX,
            val == dec_val(s@.take(i as int)),
    {
        let c = s.as_str().get_char(i);
        assert('0' <= c && c <= '9');
        let d = (c as u32) - ('0' as u32);
        proof {
            assert(s@.take(i + 1).drop_last() =~= s@.take(i as int));
            assert(s@.take(i + 1).last() == s@[i as int]);
            lemma_dec_val_take_le(s@, i + 1);
            lemma_dec_val_nonneg(s@.take(i as int));
        }
        assert(val * 10 + d <= usize::MAX);
        val = val * 10 + (d as usize);
    }
    proof {
        assert(s@.take(n as int) =~= s@);
    }
    val
}

} // verus!
