//! Rendering of tag lists as text, such as `[1, 4]`.
use vstd::prelude::*;

verus! {

/// The decimal digit character for `d`, for `0 <= d < 10`.
pub open spec fn digit_char(d: nat) -> char {
    if d == 0 {
        '0'
    } else if d == 1 {
        '1'
    } else if d == 2 {
        '2'
    } else if d == 3 {
        '3'
    } else if d == 4 {
        '4'
    } else if d == 5 {
        '5'
    } else if d == 6 {
        '6'
    } else if d == 7 {
        '7'
    } else if d == 8 {
        '8'
    } else {
        '9'
    }
}

/// The decimal notation of `n`, without leading zeros.
pub open spec fn decimal(n: nat) -> Seq<char>
    decreases n,
{
    if n < 10 {
        seq![digit_char(n)]
    } else {
        decimal(n / 10).push(digit_char(n % 10))
    }
}

/// The tags written in decimal and separated by `", "`.
pub open spec fn joined(tags: Seq<usize>) -> Seq<char>
    decreases tags.len(),
{
    if tags.len() == 0 {
        Seq::empty()
    } else if tags.len() == 1 {
        decimal(tags[0] as nat)
    } else {
        joined(tags.drop_last()) + seq![',', ' '] + decimal(tags.last() as nat)
    }
}

/// The tag list in brackets, such as `[1, 4]`.
pub open spec fn bracketed(tags: Seq<usize>) -> Seq<char> {
    seq!['['] + joined(tags) + seq![']']
}

fn digit_text(d: usize) -> (r: &'static str)
    requires
        d < 10,
    ensures
        r@ == seq![digit_char(d as nat)],
{
    proof {
        reveal_strlit("0");
        reveal_strlit("1");
        reveal_strlit("2");
        reveal_strlit("3");
        reveal_strlit("4");
        reveal_strlit("5");
        reveal_strlit("6");
        reveal_strlit("7");
        reveal_strlit("8");
        reveal_strlit("9");
    }
    if d == 0 {
        "0"
    } else if d == 1 {
        "1"
    } else if d == 2 {
        "2"
    } else if d == 3 {
        "3"
    } else if d == 4 {
        "4"
    } else if d == 5 {
        "5"
    } else if d == 6 {
        "6"
    } else if d == 7 {
        "7"
    } else if d == 8 {
        "8"
    } else {
        "9"
    }
}

/// Appends the decimal notation of `n` to `out`.
pub fn push_decimal(out: &mut String, n: usize)
    ensures
        final(out)@ == old(out)@ + decimal(n as nat),
    decreases n,
{
    if n >= 10 {
        push_decimal(out, n / 10);
    }
    out.append(digit_text(n % 10));
    assert(final(out)@ =~= old(out)@ + decimal(n as nat));
}

/// Renders the tags as a bracketed, comma-separated list: `[1, 4]`, or `[]`
/// when there are none.
pub fn render_tags(tags: &Vec<usize>) -> (r: String)
    ensures
        r@ == bracketed(tags@),
{
    proof {
        reveal_strlit("[");
        reveal_strlit("]");
    }
    let mut out = String::from_str("[");
    let m = tags.len();
    for k in 0..m
        invariant
            m == tags.len(),
            out@ == seq!['['] + joined(tags@.take(k as int)),
    {
        let ghost before = out@;
        if k > 0 {
            out.append(", ");
            proof {
                reveal_strlit(", ");
            }
            assert(out@ =~= before + seq![',', ' ']);
        }
        push_decimal(&mut out, tags[k]);
        let ghost next = tags@.take(k as int + 1);
        assert(next.drop_last() =~= tags@.take(k as int));
        assert(next.last() == tags@[k as int]);
        if k == 0 {
            assert(joined(next) == decimal(tags@[0] as nat));
        } else {
            assert(joined(next) == joined(tags@.take(k as int)) + seq![',', ' '] + decimal(
                tags@[k as int] as nat,
            ));
        }
        assert(out@ =~= seq!['['] + joined(tags@.take(k as int + 1)));
    }
    out.append("]");
    assert(tags@.take(m as int) =~= tags@);
    out
}

} // verus!
