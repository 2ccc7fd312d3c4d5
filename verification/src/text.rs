//! Text helpers over `String` and `&str`, specified on their `Seq<char>` views.

use vstd::prelude::*;

verus! {

/// The characters of `s`, in order.
pub fn chars_of(s: &str) -> (v: Vec<char>)
    ensures
        v@ == s@,
{
    let mut v: Vec<char> = Vec::new();
    for c in it: s.chars()
        invariant
            v@ == it.seq().take(it.index() as int),
            it.seq() == s@,
    {
        v.push(c);
    }
    v
}

/// Appends one character to a `String`: a call of `String::push`, which
/// the standard library documents as appending the given char to the end.
#[verifier::external_body]
pub(crate) fn push_char(s: &mut String, c: char)
    ensures
        final(s)@ == old(s)@.push(c),
{
    s.push(c);
}

/// A `String` holding the characters of `s`.
pub fn string_of(s: &str) -> (r: String)
    ensures
        r@ == s@,
{
    s.to_owned()
}

/// Whether two string slices hold the same characters.
pub fn str_equal(a: &str, b: &str) -> (r: bool)
    ensures
        r == (a@ == b@),
{
    let x = a.to_owned();
    let y = b.to_owned();
    x == y
}

/// Appends the characters of `t` to `s`.
pub fn push_str(s: &mut String, t: &str)
    ensures
        final(s)@ == old(s)@ + t@,
{
    let cs = chars_of(t);
    let ghost start = s@;
    let mut i: usize = 0;
    while i < cs.len()
        invariant
            i <= cs@.len(),
            cs@ == t@,
            s@ == start + t@.take(i as int),
        decreases cs@.len() - i,
    {
        push_char(s, cs[i]);
        proof {
            assert(t@.take(i + 1) == t@.take(i as int).push(t@[i as int]));
        }
        i = i + 1;
    }
    proof {
        assert(t@.take(cs@.len() as int) == t@);
    }
}

/// The ASCII digit character for a value below ten.
pub open spec fn digit_char(d: nat) -> char {
    ((d + 48) as u32) as char
}

/// The decimal representation of `n`, without sign or leading zeros
/// (`"0"` for zero).
pub open spec fn decimal(n: nat) -> Seq<char>
    decreases n,
{
    if n < 10 {
        seq![digit_char(n)]
    } else {
        decimal(n / 10).push(digit_char(n % 10))
    }
}

/// `count` copies of `'0'`.
pub open spec fn zeros(count: int) -> Seq<char>
    decreases count,
{
    if count <= 0 {
        Seq::empty()
    } else {
        zeros(count - 1).push('0')
    }
}

/// `v` in decimal, zero-padded to at least `width` characters, where a minus
/// sign counts towards the width and stands before the padding (the way
/// `{:0width$}` renders a signed integer).
pub open spec fn zero_padded(v: int, width: nat) -> Seq<char> {
    let sign: Seq<char> = if v < 0 { seq!['-'] } else { Seq::empty() };
    let magnitude: nat = if v < 0 { (-v) as nat } else { v as nat };
    let digits = decimal(magnitude);
    sign + zeros(width - sign.len() - digits.len()) + digits
}

fn digit_of(d: u64) -> (c: char)
    requires
        d < 10,
    ensures
        c == digit_char(d as nat),
{
    if d == 0 { '0' }
    else if d == 1 { '1' }
    else if d == 2 { '2' }
    else if d == 3 { '3' }
    else if d == 4 { '4' }
    else if d == 5 { '5' }
    else if d == 6 { '6' }
    else if d == 7 { '7' }
    else if d == 8 { '8' }
    else { '9' }
}

/// Appends `n` in decimal to `out`.
pub fn push_decimal(out: &mut String, n: u64)
    ensures
        final(out)@ == old(out)@ + decimal(n as nat),
    decreases n,
{
    if n >= 10 {
        push_decimal(out, n / 10);
    }
    push_char(out, digit_of(n % 10));
    proof {
        if n >= 10 {
            assert(decimal(n as nat) == decimal((n / 10) as nat).push(digit_char((n % 10) as nat)));
        }
    }
}

/// Appends `count` zeros to `out`.
fn push_zeros(out: &mut String, count: u64)
    ensures
        final(out)@ == old(out)@ + zeros(count as int),
    decreases count,
{
    if count > 0 {
        push_zeros(out, count - 1);
        push_char(out, '0');
    }
}

/// Appends `v` to `out` the way `{:0width$}` formats it.
pub fn push_zero_padded(out: &mut String, v: i64, width: u64)
    ensures
        final(out)@ == old(out)@ + zero_padded(v as int, width as nat),
{
    let negative = v < 0;
    let magnitude: u64 = if negative { (0 - (v as i128)) as u64 } else { v as u64 };
    let mut digits = String::new();
    push_decimal(&mut digits, magnitude);
    let digit_count = chars_of(digits.as_str()).len();
    let ghost before = out@;
    if negative {
        push_char(out, '-');
    }
    let used: u128 = (digit_count as u128) + (if negative { 1u128 } else { 0u128 });
    let pad: u64 = if (width as u128) > used { ((width as u128) - used) as u64 } else { 0 };
    push_zeros(out, pad);
    push_str(out, digits.as_str());
    proof {
        let sign: Seq<char> = if v < 0 { seq!['-'] } else { Seq::empty() };
        assert(digits@ == decimal(magnitude as nat));
        assert(zeros(pad as int) == zeros(width - sign.len() - decimal(magnitude as nat).len()));
        assert(out@ == before + zero_padded(v as int, width as nat));
    }
}

/// The lowercase form of a text, as `str::to_lowercase` gives it: each
/// character replaced by its Unicode lowercase mapping, except that a
/// capital sigma at the end of a word becomes a final sigma.
pub uninterp spec fn lowercase(s: Seq<char>) -> Seq<char>;

/// The lowercase form of `s`: a call of `str::to_lowercase`, which maps
/// characters by the Unicode lowercase mapping, the capital sigma by its
/// place in a word (the same text always gives the same result; nothing else
/// is claimed of it).
#[verifier::external_body]
pub(crate) fn to_lowercase(s: &str) -> (r: String)
    ensures
        r@ == lowercase(s@),
{
    s.to_lowercase()
}

/// The uppercase form of a text, as `str::to_uppercase` gives it: every
/// character replaced by its Unicode uppercase mapping, which may be longer
/// (`'ß'` becomes `"SS"`).
pub uninterp spec fn uppercase(s: Seq<char>) -> Seq<char>;

/// The uppercase form of `s`: a call of `str::to_uppercase`, which maps each
/// character by the Unicode `Uppercase` property (the same text always gives
/// the same result; nothing else is claimed of it).
#[verifier::external_body]
pub(crate) fn to_uppercase(s: &str) -> (r: String)
    ensures
        r@ == uppercase(s@),
{
    s.to_uppercase()
}

} // verus!

verus! {

/// The character view of an optional `String`.
pub open spec fn opt_view(o: Option<String>) -> Option<Seq<char>> {
    match o {
        Some(s) => Some(s@),
        None => None,
    }
}

/// The character view of an optional borrowed `String`.
pub open spec fn opt_ref_view(o: Option<&String>) -> Option<Seq<char>> {
    match o {
        Some(s) => Some(s@),
        None => None,
    }
}

/// The character views of a sequence of `String`s.
pub open spec fn views(v: Seq<String>) -> Seq<Seq<char>> {
    v.map_values(|s: String| s@)
}

} // verus!
