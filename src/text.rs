//! Text helpers: decimal rendering of integers and line handling.

use vstd::prelude::*;
use vstd::std_specs::iter::IteratorSpec;

verus! {

/// The character of a decimal digit.
pub open spec fn digit_char(d: nat) -> char {
    if d == 0 {
        '0'
    } else if d == 1 {
        '1'
    } else if d == 2 {
        '2'
    } else if d == 3 {
        '3'
    } else if d == 4 {
        '4'
    } else if d == 5 {
        '5'
    } else if d == 6 {
        '6'
    } else if d == 7 {
        '7'
    } else if d == 8 {
        '8'
    } else {
        '9'
    }
}

/// The decimal notation of a natural number, most significant digit first,
/// without leading zeros.
pub open spec fn decimal(n: nat) -> Seq<char>
    decreases n,
{
    if n < 10 {
        seq![digit_char(n)]
    } else {
        decimal(n / 10).push(digit_char(n % 10))
    }
}

/// The decimal notation of an integer, with a leading '-' when negative.
pub open spec fn signed_decimal(i: int) -> Seq<char> {
    if i < 0 {
        seq!['-'] + decimal((-i) as nat)
    } else {
        decimal(i as nat)
    }
}

fn digit_str(d: u64) -> (r: &'static str)
    requires
        d < 10,
    ensures
        r@ == seq![digit_char(d as nat)],
{
    proof {
        reveal_strlit("0");
        reveal_strlit("1");
        reveal_strlit("2");
        reveal_strlit("3");
        reveal_strlit("4");
        reveal_strlit("5");
        reveal_strlit("6");
        reveal_strlit("7");
        reveal_strlit("8");
        reveal_strlit("9");
    }
    let r = if d == 0 {
        "0"
    } else if d == 1 {
        "1"
    } else if d == 2 {
        "2"
    } else if d == 3 {
        "3"
    } else if d == 4 {
        "4"
    } else if d == 5 {
        "5"
    } else if d == 6 {
        "6"
    } else if d == 7 {
        "7"
    } else if d == 8 {
        "8"
    } else {
        "9"
    };
    assert(r@ =~= seq![digit_char(d as nat)]);
    r
}

/// Renders `n` in decimal.
pub fn decimal_string(n: u64) -> (s: String)
    ensures
        s@ == decimal(n as nat),
    decreases n,
{
    if n < 10 {
        String::from_str(digit_str(n))
    } else {
        let mut s = decimal_string(n / 10);
        s.append(digit_str(n % 10));
        assert(s@ =~= decimal(n as nat));
        s
    }
}

/// Renders `i` in decimal, with a leading '-' when negative.
pub fn signed_decimal_string(i: i32) -> (s: String)
    ensures
        s@ == signed_decimal(i as int),
{
    if i < 0 {
        let magnitude: u64 = (0i64 - i as i64) as u64;
        let mut s = String::from_str("-");
        proof {
            reveal_strlit("-");
        }
        let digits = decimal_string(magnitude);
        s.append(digits.as_str());
        assert(s@ =~= signed_decimal(i as int));
        s
    } else {
        decimal_string(i as u64)
    }
}

/// The pieces of `s` between line breaks ('\n'), in order; there is always at
/// least one (the text after the last break, possibly empty).
pub open spec fn segments(s: Seq<char>) -> Seq<Seq<char>>
    decreases s.len(),
{
    if s.len() == 0 {
        seq![seq![]]
    } else {
        let init = segments(s.drop_last());
        if s.last() == '\n' {
            init.push(seq![])
        } else {
            init.update(init.len() - 1, init.last().push(s.last()))
        }
    }
}

/// A line without its carriage return, if it ends with one.
pub open spec fn line_text(l: Seq<char>) -> Seq<char> {
    if l.len() > 0 && l.last() == '\r' {
        l.drop_last()
    } else {
        l
    }
}

/// The text of the last line in `ls` that is not empty.
pub open spec fn last_nonempty(ls: Seq<Seq<char>>) -> Option<Seq<char>>
    decreases ls.len(),
{
    if ls.len() == 0 {
        None
    } else if line_text(ls.last()).len() > 0 {
        Some(line_text(ls.last()))
    } else {
        last_nonempty(ls.drop_last())
    }
}

/// The last non-empty line of a text, without its line terminator.
pub open spec fn last_nonempty_line(s: Seq<char>) -> Option<Seq<char>> {
    last_nonempty(segments(s))
}

/// Whether a text holds a non-empty line.
pub open spec fn has_nonempty_line(s: Seq<char>) -> bool {
    last_nonempty_line(s) is Some
}

proof fn lemma_segments_nonempty(s: Seq<char>)
    ensures
        segments(s).len() >= 1,
    decreases s.len(),
{
    if s.len() > 0 {
        lemma_segments_nonempty(s.drop_last());
    }
}

/// The last non-empty line of `s`, if it has one.
pub fn last_nonempty_line_of(s: &str) -> (r: Option<String>)
    ensures
        match r {
            Some(t) => last_nonempty_line(s@) == Some(t@),
            None => last_nonempty_line(s@) is None,
        },
{
    let n = s.unicode_len();
    let mut it = s.chars();
    let mut i: usize = 0;
    let mut line_start: usize = 0;
    let mut prev: char = '\n';
    let mut found: Option<(usize, usize)> = None;
    proof {
        assert(s@.subrange(0, 0) =~= Seq::<char>::empty());
        assert(s@.subrange(0, n as int) =~= s@);
    }
    while i < n
        invariant
            n == s@.len(),
            i <= n,
            line_start <= i,
            it.obeys_prophetic_iter_laws(),
            it.remaining() == s@.subrange(i as int, n as int),
            segments(s@.subrange(0, i as int)).len() >= 1,
            segments(s@.subrange(0, i as int)).last() == s@.subrange(line_start as int, i as int),
            i > line_start ==> prev == s@[i - 1],
            match found {
                Some((a, b)) => a <= b <= n && last_nonempty(segments(s@.subrange(0, i as int)).drop_last())
                    == Some(s@.subrange(a as int, b as int)),
                None => last_nonempty(segments(s@.subrange(0, i as int)).drop_last()) is None,
            },
        decreases n - i,
    {
        let ghost p = s@.subrange(0, i as int);
        let ghost grown = s@.subrange(0, i + 1);
        let next = it.next();
        let c = match next {
            Some(c) => c,
            None => {
                proof {
                    assert(false);
                }
                '\n'
            },
        };
        assert(c == s@[i as int]);
        assert(grown.drop_last() =~= p);
        assert(grown.last() == c);
        proof {
            lemma_segments_nonempty(p);
        }
        if c == '\n' {
            let end: usize = if i > line_start && prev == '\r' {
                i - 1
            } else {
                i
            };
            assert(segments(grown).drop_last() =~= segments(p));
            assert(line_text(segments(p).last()) =~= s@.subrange(line_start as int, end as int));
            if end > line_start {
                found = Some((line_start, end));
            }
            line_start = i + 1;
        } else {
            assert(segments(grown).drop_last() =~= segments(p).drop_last());
            assert(segments(grown).last() =~= s@.subrange(line_start as int, i + 1));
        }
        prev = c;
        i = i + 1;
        assert(it.remaining() =~= s@.subrange(i as int, n as int));
    }
    let end: usize = if i > line_start && prev == '\r' {
        i - 1
    } else {
        i
    };
    assert(s@.subrange(0, n as int) =~= s@);
    assert(line_text(segments(s@).last()) =~= s@.subrange(line_start as int, end as int));
    if end > line_start {
        Some(String::from_str(s.substring_char(line_start, end)))
    } else {
        match found {
            Some((a, b)) => Some(String::from_str(s.substring_char(a, b))),
            None => None,
        }
    }
}

} // verus!
