//! Operations on text, stated over sequences of characters.

use vstd::prelude::*;
use vstd::utf8::encode_utf8;
use vstd::utf8::encode_utf8_decode_utf8;

verus! {

/// `String::push`: the character is appended to the end of the string and
/// nothing else about the string changes.
#[verifier::external_body]
pub(crate) fn push_char(s: &mut String, c: char)
    ensures
        final(s)@ == old(s)@.push(c),
{
    s.push(c)
}

/// The characters of each text of a list.
pub open spec fn texts(list: Seq<String>) -> Seq<Seq<char>> {
    list.map_values(|s: String| s@)
}

/// The characters of a text, in order.
pub fn to_chars(s: &str) -> (r: Vec<char>)
    ensures
        r@ == s@,
{
    let mut out: Vec<char> = Vec::new();
    for c in it: s.chars()
        invariant
            it.seq() == s@,
            out@ == s@.take(it.index()),
    {
        out.push(c);
        proof {
            assert(out@ =~= s@.take(it.index() + 1));
        }
    }
    proof {
        assert(out@ =~= s@);
    }
    out
}

/// The text made of the characters of `chars` from position `from` on: the
/// empty text where `from` is behind the end.
pub fn text_from(chars: &Vec<char>, from: usize) -> (r: String)
    ensures
        from <= chars.len() ==> r@ == chars@.skip(from as int),
        from > chars.len() ==> r@ == Seq::<char>::empty(),
{
    let mut out = String::new();
    if from > chars.len() {
        return out;
    }
    let mut i: usize = from;
    proof {
        assert(out@ =~= chars@.subrange(from as int, i as int));
    }
    while i < chars.len()
        invariant
            from <= i <= chars.len(),
            out@ == chars@.subrange(from as int, i as int),
        decreases chars.len() - i,
    {
        push_char(&mut out, chars[i]);
        i = i + 1;
        proof {
            assert(out@ =~= chars@.subrange(from as int, i as int));
        }
    }
    proof {
        assert(out@ =~= chars@.skip(from as int));
    }
    out
}

/// Whether two texts hold the same characters.
pub fn same_text(a: &str, b: &str) -> (r: bool)
    ensures
        r == (a@ == b@),
{
    let x = a.as_bytes();
    let y = b.as_bytes();
    proof {
        encode_utf8_decode_utf8(a@);
        encode_utf8_decode_utf8(b@);
    }
    if x.len() != y.len() {
        return false;
    }
    let mut i: usize = 0;
    while i < x.len()
        invariant
            i <= x.len(),
            x.len() == y.len(),
            x@ == encode_utf8(a@),
            y@ == encode_utf8(b@),
            forall|j: int| 0 <= j < i ==> x@[j] == y@[j],
        decreases x.len() - i,
    {
        if x[i] != y[i] {
            return false;
        }
        i = i + 1;
    }
    proof {
        assert(x@ =~= y@);
    }
    true
}

/// Whether `pattern` stands in `text` at position `at`. Behind the end of the
/// text nothing stands.
pub fn occurs_at(text: &Vec<char>, at: usize, pattern: &Vec<char>) -> (r: bool)
    ensures
        r == (at <= text.len() && pattern@.is_prefix_of(text@.skip(at as int))),
{
    if at > text.len() || pattern.len() > text.len() - at {
        return false;
    }
    let mut j: usize = 0;
    while j < pattern.len()
        invariant
            j <= pattern.len(),
            at + pattern.len() <= text.len(),
            forall|k: int| 0 <= k < j ==> pattern@[k] == text@[at + k],
        decreases pattern.len() - j,
    {
        if pattern[j] != text[at + j] {
            proof {
                let rest = text@.skip(at as int);
                assert(rest.subrange(0, pattern@.len() as int)[j as int] == text@[at + j]);
            }
            return false;
        }
        j = j + 1;
    }
    proof {
        let rest = text@.skip(at as int);
        assert(pattern@ =~= rest.subrange(0, pattern@.len() as int));
    }
    true
}

/// Whether a list of texts holds `s`.
pub open spec fn holds(list: Seq<Seq<char>>, s: Seq<char>) -> bool {
    exists|i: int| 0 <= i < list.len() && #[trigger] list[i] == s
}

/// Whether a list of texts holds `s`.
pub fn contains_text(list: &Vec<String>, s: &str) -> (r: bool)
    ensures
        r == holds(texts(list@), s@),
{
    let mut i: usize = 0;
    while i < list.len()
        invariant
            i <= list.len(),
            forall|j: int| 0 <= j < i ==> #[trigger] texts(list@)[j] != s@,
        decreases list.len() - i,
    {
        if same_text(list[i].as_str(), s) {
            proof {
                assert(texts(list@)[i as int] == s@);
            }
            return true;
        }
        i = i + 1;
    }
    false
}

/// What is left of `s` behind `prefix`, where `s` begins with it.
pub fn strip_prefix(s: &str, prefix: &str) -> (r: Option<String>)
    ensures
        r is Some <==> prefix@.is_prefix_of(s@),
        r is Some ==> r->0@ == s@.skip(prefix@.len() as int),
{
    let text = to_chars(s);
    let head = to_chars(prefix);
    if occurs_at(&text, 0, &head) {
        proof {
            assert(text@.skip(0) =~= text@);
        }
        Some(text_from(&text, head.len()))
    } else {
        proof {
            assert(text@.skip(0) =~= text@);
        }
        None
    }
}

/// `s` with every occurrence of a non-empty `from` replaced by `to`. The text
/// is read from left to right, and an occurrence that begins inside an earlier
/// one does not count. An empty pattern occurs nowhere.
pub open spec fn replaced(s: Seq<char>, from: Seq<char>, to: Seq<char>) -> Seq<char>
    decreases s.len(),
{
    if s.len() == 0 {
        s
    } else if from.len() > 0 && from.is_prefix_of(s) {
        to + replaced(s.skip(from.len() as int), from, to)
    } else {
        seq![s[0]] + replaced(s.skip(1), from, to)
    }
}

/// Replaces every occurrence of `from` in `s` by `to`.
pub fn replace(s: &str, from: &str, to: &str) -> (r: String)
    ensures
        r@ == replaced(s@, from@, to@),
{
    let text = to_chars(s);
    let pattern = to_chars(from);
    let mut out = String::new();
    let mut i: usize = 0;
    proof {
        assert(text@.skip(0) =~= text@);
    }
    while i < text.len()
        invariant
            i <= text.len(),
            text@ == s@,
            pattern@ == from@,
            out@ + replaced(text@.skip(i as int), from@, to@) == replaced(s@, from@, to@),
        decreases text.len() - i,
    {
        let ghost rest = text@.skip(i as int);
        if pattern.len() > 0 && occurs_at(&text, i, &pattern) {
            let ghost before = out@;
            out.append(to);
            proof {
                assert(rest.skip(pattern@.len() as int) =~= text@.skip(i + pattern@.len()));
                assert(before + to@ + replaced(text@.skip(i + pattern@.len()), from@, to@) =~= before
                    + replaced(rest, from@, to@));
            }
            i = i + pattern.len();
        } else {
            let ghost before = out@;
            push_char(&mut out, text[i]);
            proof {
                assert(rest.skip(1) =~= text@.skip(i + 1));
                assert(before.push(text@[i as int]) + replaced(text@.skip(i + 1), from@, to@)
                    =~= before + replaced(rest, from@, to@));
            }
            i = i + 1;
        }
    }
    proof {
        assert(out@ + replaced(text@.skip(i as int), from@, to@) =~= out@);
    }
    out
}

/// The character of a decimal digit.
pub open spec fn digit(d: nat) -> char {
    if d == 0 {
        '0'
    } else if d == 1 {
        '1'
    } else if d == 2 {
        '2'
    } else if d == 3 {
        '3'
    } else if d == 4 {
        '4'
    } else if d == 5 {
        '5'
    } else if d == 6 {
        '6'
    } else if d == 7 {
        '7'
    } else if d == 8 {
        '8'
    } else {
        '9'
    }
}

/// A number in decimal notation, without sign or leading zeros.
pub open spec fn decimal(n: nat) -> Seq<char>
    decreases n,
{
    if n < 10 {
        seq![digit(n)]
    } else {
        decimal(n / 10).push(digit(n % 10))
    }
}

fn digit_char(d: u64) -> (c: char)
    requires
        d < 10,
    ensures
        c == digit(d as nat),
{
    if d == 0 {
        '0'
    } else if d == 1 {
        '1'
    } else if d == 2 {
        '2'
    } else if d == 3 {
        '3'
    } else if d == 4 {
        '4'
    } else if d == 5 {
        '5'
    } else if d == 6 {
        '6'
    } else if d == 7 {
        '7'
    } else if d == 8 {
        '8'
    } else {
        '9'
    }
}

/// Writes a number in decimal notation.
pub fn decimal_text(n: u64) -> (r: String)
    ensures
        r@ == decimal(n as nat),
    decreases n,
{
    if n < 10 {
        let mut out = String::new();
        push_char(&mut out, digit_char(n));
        proof {
            assert(out@ =~= seq![digit(n as nat)]);
        }
        out
    } else {
        let mut out = decimal_text(n / 10);
        push_char(&mut out, digit_char(n % 10));
        out
    }
}

/// Appends a text to a string.
pub fn push_text(out: &mut String, s: &str)
    ensures
        final(out)@ == old(out)@ + s@,
{
    out.append(s);
}

/// A bound as a debug dump shows it: `None`, or `Some` with the number.
pub open spec fn bound_text(bound: Option<u64>) -> Seq<char> {
    match bound {
        Some(n) => "Some("@ + decimal(n as nat) + ")"@,
        None => "None"@,
    }
}

/// Appends a bound as a debug dump shows it.
pub fn push_bound(out: &mut String, bound: Option<u64>)
    ensures
        final(out)@ == old(out)@ + bound_text(bound),
{
    match bound {
        Some(n) => {
            push_text(out, "Some(");
            push_text(out, decimal_text(n).as_str());
            push_text(out, ")");
            assert(out@ =~= old(out)@ + bound_text(bound));
        },
        None => {
            push_text(out, "None");
        },
    }
}

/// The two texts, one behind the other.
pub fn join(a: &str, b: &str) -> (r: String)
    ensures
        r@ == a@ + b@,
{
    String::from_str(a).concat(b)
}

} // verus!
