//! Small verified text helpers shared by the pipeline and the facades:
//! decimal rendering of integers and stripping of `/` characters at the
//! ends of path fragments.

use vstd::prelude::*;

verus! {

use vstd::string::StrSliceExecFns;
use vstd::string::StringExecFns;

/// The decimal digit character for a value in `0 ..= 9`.
pub open spec fn dec_digit(d: int) -> char {
    if d == 0 {
        '0'
    } else if d == 1 {
        '1'
    } else if d == 2 {
        '2'
    } else if d == 3 {
        '3'
    } else if d == 4 {
        '4'
    } else if d == 5 {
        '5'
    } else if d == 6 {
        '6'
    } else if d == 7 {
        '7'
    } else if d == 8 {
        '8'
    } else {
        '9'
    }
}

/// Decimal text of a non-negative integer, without sign or padding.
pub open spec fn dec_nat_text(n: nat) -> Seq<char>
    decreases n,
{
    if n < 10 {
        seq![dec_digit(n as int)]
    } else {
        dec_nat_text(n / 10) + seq![dec_digit((n % 10) as int)]
    }
}

/// Decimal text of an integer: a `-` sign for negative values, then digits.
pub open spec fn int_text(i: int) -> Seq<char> {
    if i < 0 {
        seq!['-'] + dec_nat_text((-i) as nat)
    } else {
        dec_nat_text(i as nat)
    }
}

/// The one-character string for a decimal digit.
pub(crate) fn digit_str(d: u64) -> (r: &'static str)
    requires
        d < 10,
    ensures
        r@ == seq![dec_digit(d as int)],
{
    proof {
        reveal_strlit("0");
        reveal_strlit("1");
        reveal_strlit("2");
        reveal_strlit("3");
        reveal_strlit("4");
        reveal_strlit("5");
        reveal_strlit("6");
        reveal_strlit("7");
        reveal_strlit("8");
        reveal_strlit("9");
    }
    match d {
        0 => "0",
        1 => "1",
        2 => "2",
        3 => "3",
        4 => "4",
        5 => "5",
        6 => "6",
        7 => "7",
        8 => "8",
        _ => "9",
    }
}

/// Renders a `u64` in decimal.
pub fn u64_text(n: u64) -> (r: String)
    ensures
        r@ == dec_nat_text(n as nat),
    decreases n,
{
    if n < 10 {
        String::from_str(digit_str(n))
    } else {
        let high: String = u64_text(n / 10);
        high.concat(digit_str(n % 10))
    }
}

/// Renders an `i64` in decimal, with a leading `-` for negative values.
pub fn i64_text(n: i64) -> (r: String)
    ensures
        r@ == int_text(n as int),
{
    if n < 0 {
        let magnitude: u64 = if n == i64::MIN {
            9223372036854775808u64
        } else {
            (-n) as u64
        };
        proof {
            reveal_strlit("-");
        }
        let mut out: String = String::from_str("-");
        let digits: String = u64_text(magnitude);
        out.append(digits.as_str());
        out
    } else {
        u64_text(n as u64)
    }
}

/// The `,`-joined text of the given parts.
pub open spec fn comma_join(parts: Seq<Seq<char>>) -> Seq<char>
    decreases parts.len(),
{
    if parts.len() == 0 {
        Seq::empty()
    } else if parts.len() == 1 {
        parts[0]
    } else {
        comma_join(parts.drop_last()) + seq![','] + parts.last()
    }
}

/// The views of a list of strings.
pub open spec fn str_views(s: Seq<String>) -> Seq<Seq<char>> {
    s.map_values(|x: String| x@)
}

/// Joins the given strings with commas.
pub fn join_commas(parts: &Vec<String>) -> (r: String)
    ensures
        r@ == comma_join(str_views(parts@)),
{
    let ghost views: Seq<Seq<char>> = str_views(parts@);
    let mut out: String = String::new();
    proof {
        reveal_strlit(",");
        assert(out@ =~= comma_join(views.take(0)));
    }
    let mut i: usize = 0;
    #[verifier::loop_isolation(false)]
    while i < parts.len()
        invariant
            i <= parts.len(),
            views.len() == parts@.len(),
            out@ == comma_join(views.take(i as int)),
        decreases parts.len() - i,
    {
        if i > 0 {
            out.append(",");
        }
        out.append(parts[i].as_str());
        proof {
            assert(views.take(i as int + 1).drop_last() =~= views.take(i as int));
            assert(views.take(i as int + 1).last() == views[i as int]);
            if i == 0 {
                assert(views.take(1)[0] == views[0]);
            }
            assert(views[i as int] == parts@[i as int]@);
            assert(out@ =~= comma_join(views.take(i as int + 1)));
        }
        i = i + 1;
    }
    proof {
        assert(views.take(parts@.len() as int) =~= views);
    }
    out
}

/// `s` with every trailing `/` removed.
pub open spec fn strip_trailing_slashes(s: Seq<char>) -> Seq<char>
    decreases s.len(),
{
    if s.len() > 0 && s.last() == '/' {
        strip_trailing_slashes(s.drop_last())
    } else {
        s
    }
}

/// `s` with every leading `/` removed.
pub open spec fn strip_leading_slashes(s: Seq<char>) -> Seq<char>
    decreases s.len(),
{
    if s.len() > 0 && s.first() == '/' {
        strip_leading_slashes(s.drop_first())
    } else {
        s
    }
}

/// The stripped sequence is a prefix that no longer ends in `/`.
pub proof fn lemma_strip_trailing_slashes(s: Seq<char>)
    ensures
        strip_trailing_slashes(s).len() <= s.len(),
        strip_trailing_slashes(s) == s.take(strip_trailing_slashes(s).len() as int),
        strip_trailing_slashes(s).len() > 0 ==> strip_trailing_slashes(s).last() != '/',
    decreases s.len(),
{
    if s.len() > 0 && s.last() == '/' {
        lemma_strip_trailing_slashes(s.drop_last());
        assert(s.drop_last().take(strip_trailing_slashes(s).len() as int) =~= s.take(
            strip_trailing_slashes(s).len() as int,
        ));
    } else {
        assert(s.take(s.len() as int) =~= s);
    }
}

/// The stripped sequence is a suffix that no longer starts with `/`.
pub proof fn lemma_strip_leading_slashes(s: Seq<char>)
    ensures
        strip_leading_slashes(s).len() <= s.len(),
        strip_leading_slashes(s) == s.skip(s.len() - strip_leading_slashes(s).len()),
        strip_leading_slashes(s).len() > 0 ==> strip_leading_slashes(s).first() != '/',
    decreases s.len(),
{
    if s.len() > 0 && s.first() == '/' {
        lemma_strip_leading_slashes(s.drop_first());
        assert(s.drop_first().skip(
            s.drop_first().len() - strip_leading_slashes(s).len(),
        ) =~= s.skip(s.len() - strip_leading_slashes(s).len()));
    } else {
        assert(s.skip(0) =~= s);
    }
}

/// Copies `s` without its trailing `/` characters.
pub fn trim_trailing_slashes(s: &str) -> (r: String)
    ensures
        r@ == strip_trailing_slashes(s@),
{
    let n: usize = s.unicode_len();
    let mut k: usize = n;
    proof {
        assert(s@.take(n as int) =~= s@);
    }
    while k > 0 && s.get_char(k - 1) == '/'
        invariant
            k <= n,
            n == s@.len(),
            strip_trailing_slashes(s@) == strip_trailing_slashes(s@.take(k as int)),
        decreases k,
    {
        proof {
            assert(s@.take(k as int).last() == s@[k - 1]);
            assert(s@.take(k as int).drop_last() =~= s@.take(k as int - 1));
        }
        k = k - 1;
    }
    proof {
        assert(s@.take(n as int) =~= s@);
        if k > 0 {
            assert(s@.take(k as int).last() == s@[k - 1]);
        }
    }
    String::from_str(s.substring_char(0, k))
}

/// Borrows `s` without its leading `/` characters.
pub fn trim_leading_slashes(s: &str) -> (r: &str)
    ensures
        r@ == strip_leading_slashes(s@),
{
    let n: usize = s.unicode_len();
    let mut k: usize = 0;
    proof {
        assert(s@.skip(0) =~= s@);
    }
    while k < n && s.get_char(k) == '/'
        invariant
            k <= n,
            n == s@.len(),
            strip_leading_slashes(s@) == strip_leading_slashes(s@.skip(k as int)),
        decreases n - k,
    {
        proof {
            assert(s@.skip(k as int).first() == s@[k as int]);
            assert(s@.skip(k as int).drop_first() =~= s@.skip(k as int + 1));
        }
        k = k + 1;
    }
    proof {
        assert(strip_leading_slashes(s@.skip(k as int)) == s@.skip(k as int)) by {
            if k < n {
                assert(s@.skip(k as int).first() == s@[k as int]);
            }
        }
    }
    s.substring_char(k, n)
}

} // verus!
