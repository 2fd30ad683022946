//! Text helpers shared by the protocol types: comparison, joining with a
//! separator, cutting at a separator, and decimal rendering of numbers.

use vstd::prelude::*;

verus! {

/// A value that is written into protocol messages as a piece of text.
pub trait AsText {
    /// The text this value stands for.
    spec fn text(&self) -> Seq<char>;

    /// Borrows the text this value stands for.
    fn as_text(&self) -> (r: &str)
        ensures
            r@ == self.text(),
    ;
}

/// The texts of a sequence of values, in order.
pub open spec fn texts<T: AsText>(entries: Seq<T>) -> Seq<Seq<char>> {
    Seq::new(entries.len(), |i: int| entries[i].text())
}

/// `parts` written one after another with `sep` between neighbours.
pub open spec fn joined(parts: Seq<Seq<char>>, sep: Seq<char>) -> Seq<char>
    decreases parts.len(),
{
    if parts.len() == 0 {
        Seq::empty()
    } else if parts.len() == 1 {
        parts[0]
    } else {
        joined(parts.drop_last(), sep) + sep + parts.last()
    }
}

/// `parts` separated by single ASCII spaces.
pub open spec fn space_joined(parts: Seq<Seq<char>>) -> Seq<char> {
    joined(parts, seq![' '])
}

/// The character of a decimal digit.
pub open spec fn digit_char(d: nat) -> char
    recommends
        d < 10,
{
    if d == 0 {
        '0'
    } else if d == 1 {
        '1'
    } else if d == 2 {
        '2'
    } else if d == 3 {
        '3'
    } else if d == 4 {
        '4'
    } else if d == 5 {
        '5'
    } else if d == 6 {
        '6'
    } else if d == 7 {
        '7'
    } else if d == 8 {
        '8'
    } else {
        '9'
    }
}

/// The decimal numeral of `n`, without sign or leading zeros.
pub open spec fn decimal(n: nat) -> Seq<char>
    decreases n,
{
    if n < 10 {
        seq![digit_char(n)]
    } else {
        decimal(n / 10) + seq![digit_char(n % 10)]
    }
}

/// Compares two string slices with `str`'s own `==`, which holds exactly
/// when both hold the same characters.
#[verifier::external_body]
pub(crate) fn str_eq(a: &str, b: &str) -> (same: bool)
    ensures
        same == (a@ == b@),
{
    a == b
}

/// Copies a string slice into an owned `String`.
pub fn owned(s: &str) -> (r: String)
    ensures
        r@ == s@,
{
    String::from_str(s)
}

fn digit_text(d: u64) -> (r: &'static str)
    requires
        d < 10,
    ensures
        r@ == seq![digit_char(d as nat)],
{
    proof {
        reveal_strlit("0");
        reveal_strlit("1");
        reveal_strlit("2");
        reveal_strlit("3");
        reveal_strlit("4");
        reveal_strlit("5");
        reveal_strlit("6");
        reveal_strlit("7");
        reveal_strlit("8");
        reveal_strlit("9");
    }
    let r = if d == 0 {
        "0"
    } else if d == 1 {
        "1"
    } else if d == 2 {
        "2"
    } else if d == 3 {
        "3"
    } else if d == 4 {
        "4"
    } else if d == 5 {
        "5"
    } else if d == 6 {
        "6"
    } else if d == 7 {
        "7"
    } else if d == 8 {
        "8"
    } else {
        "9"
    };
    assert(r@ =~= seq![digit_char(d as nat)]);
    r
}

/// Renders `n` as a decimal numeral.
pub fn decimal_text(n: u64) -> (r: String)
    ensures
        r@ == decimal(n as nat),
    decreases n,
{
    if n < 10 {
        String::from_str(digit_text(n))
    } else {
        let head = decimal_text(n / 10);
        head.concat(digit_text(n % 10))
    }
}

/// Whether `text` begins with `prefix`.
pub open spec fn has_prefix(text: Seq<char>, prefix: Seq<char>) -> bool {
    text.len() >= prefix.len() && text.subrange(0, prefix.len() as int) == prefix
}

/// Whether `text` ends with `suffix`.
pub open spec fn has_suffix(text: Seq<char>, suffix: Seq<char>) -> bool {
    text.len() >= suffix.len() && text.subrange(text.len() - suffix.len(), text.len() as int)
        == suffix
}

/// Tests whether `text` begins with `prefix`.
pub fn starts_with(text: &str, prefix: &str) -> (b: bool)
    ensures
        b == has_prefix(text@, prefix@),
{
    let n = text.unicode_len();
    let p = prefix.unicode_len();
    if n < p {
        return false;
    }
    str_eq(text.substring_char(0, p), prefix)
}

/// Tests whether `text` ends with `suffix`.
pub fn ends_with(text: &str, suffix: &str) -> (b: bool)
    ensures
        b == has_suffix(text@, suffix@),
{
    let n = text.unicode_len();
    let s = suffix.unicode_len();
    if n < s {
        return false;
    }
    str_eq(text.substring_char(n - s, n), suffix)
}

/// The pieces of `text` between the occurrences of `sep`, in order. A text
/// without `sep` is one piece.
pub open spec fn pieces(text: Seq<char>, sep: char) -> Seq<Seq<char>>
    decreases text.len(),
{
    if text.len() == 0 {
        seq![Seq::empty()]
    } else {
        let before = pieces(text.drop_last(), sep);
        if text.last() == sep {
            before.push(Seq::empty())
        } else {
            before.drop_last().push(before.last().push(text.last()))
        }
    }
}

/// The views of a list of strings.
pub open spec fn text_views(list: Seq<String>) -> Seq<Seq<char>> {
    Seq::new(list.len(), |i: int| list[i]@)
}

/// Cuts `text` at each occurrence of `sep`.
pub fn split(text: &str, sep: char) -> (r: Vec<String>)
    ensures
        text_views(r@) == pieces(text@, sep),
{
    let mut out: Vec<String> = Vec::new();
    let n = text.unicode_len();
    let mut start: usize = 0;
    let mut i: usize = 0;
    proof {
        assert(text@.take(0) =~= Seq::empty());
        assert(text@.subrange(0, 0) =~= Seq::empty());
        assert(text_views(out@).push(text@.subrange(0, 0)) =~= pieces(text@.take(0), sep));
    }
    while i < n
        invariant
            n == text@.len(),
            start <= i <= n,
            text_views(out@).push(text@.subrange(start as int, i as int)) == pieces(
                text@.take(i as int),
                sep,
            ),
        decreases n - i,
    {
        let c = text.get_char(i);
        let ghost before = text_views(out@).push(text@.subrange(start as int, i as int));
        let ghost done = text_views(out@);
        proof {
            let next = text@.take(i as int + 1);
            assert(next.drop_last() =~= text@.take(i as int));
            assert(next.last() == c);
            assert(before.drop_last() =~= done);
            assert(before.last() == text@.subrange(start as int, i as int));
        }
        if c == sep {
            let piece = owned(text.substring_char(start, i));
            out.push(piece);
            start = i + 1;
            proof {
                assert(text_views(out@) =~= before);
                assert(text@.subrange(start as int, i as int + 1) =~= Seq::empty());
            }
        } else {
            proof {
                assert(text@.subrange(start as int, i as int).push(c) =~= text@.subrange(
                    start as int,
                    i as int + 1,
                ));
            }
        }
        i = i + 1;
    }
    let ghost done = text_views(out@);
    let last = owned(text.substring_char(start, n));
    out.push(last);
    proof {
        assert(text@.take(n as int) =~= text@);
        assert(text_views(out@) =~= done.push(text@.subrange(start as int, n as int)));
    }
    out
}

} // verus!
