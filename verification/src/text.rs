//! Decimal notation and small string-building helpers.

use vstd::prelude::*;

verus! {

/// The character that writes the decimal digit `d`.
pub open spec fn digit_char(d: nat) -> char {
    (d + 48) as char
}

/// The decimal notation of `n`: its digits, most significant first, without
/// leading zeros (`"0"` for zero).
pub open spec fn decimal(n: nat) -> Seq<char>
    decreases n,
{
    if n < 10 {
        seq![digit_char(n)]
    } else {
        decimal(n / 10).push(digit_char(n % 10))
    }
}

/// Appends `c` to `s` (`String::push`).
#[verifier::external_body]
pub(crate) fn push_char(s: &mut String, c: char)
    ensures
        final(s)@ == old(s)@.push(c),
{
    s.push(c);
}

/// Appends the decimal digit `d` (0..=9) to `s`.
pub(crate) fn push_digit(s: &mut String, d: u8)
    requires
        d < 10,
    ensures
        final(s)@ == old(s)@.push(digit_char(d as nat)),
{
    let c = (48u8 + d) as char;
    push_char(s, c);
}

/// Appends the decimal notation of `v` to `s`.
pub fn push_decimal(s: &mut String, v: u64)
    ensures
        final(s)@ == old(s)@ + decimal(v as nat),
    decreases v,
{
    if v >= 10 {
        push_decimal(s, v / 10);
    }
    push_digit(s, (v % 10) as u8);
    proof {
        if v >= 10 {
            assert(old(s)@ + decimal(v as nat) =~= old(s)@ + decimal((v / 10) as nat) + seq![digit_char((v % 10) as nat)]);
        }
    }
}

/// The decimal notation of `v` as a new string.
pub fn decimal_string(v: u64) -> (s: String)
    ensures
        s@ == decimal(v as nat),
{
    let mut s = String::new();
    push_decimal(&mut s, v);
    proof {
        assert(s@ =~= decimal(v as nat));
    }
    s
}


/// The texts in `parts` joined with `sep` between consecutive ones.
pub open spec fn join(parts: Seq<Seq<char>>, sep: Seq<char>) -> Seq<char>
    decreases parts.len(),
{
    if parts.len() == 0 {
        Seq::empty()
    } else if parts.len() == 1 {
        parts[0]
    } else {
        join(parts.drop_last(), sep) + sep + parts.last()
    }
}

/// The views of a sequence of strings.
pub open spec fn string_views(v: Seq<String>) -> Seq<Seq<char>> {
    v.map_values(|s: String| s@)
}

/// Appends the strings of `parts`, separated by `sep`, to `s`.
pub fn push_joined(s: &mut String, parts: &Vec<String>, sep: &str)
    ensures
        final(s)@ == old(s)@ + join(string_views(parts@), sep@),
{
    let ghost base = s@;
    let ghost views = string_views(parts@);
    let mut i: usize = 0;
    assert(views.take(0) =~= Seq::<Seq<char>>::empty());
    assert(s@ =~= base + join(views.take(0), sep@));
    while i < parts.len()
        invariant
            i <= parts.len(),
            views == string_views(parts@),
            s@ == base + join(views.take(i as int), sep@),
        decreases parts.len() - i,
    {
        assert(views.take(i + 1).drop_last() =~= views.take(i as int));
        if i > 0 {
            s.append(sep);
        } else {
            assert(views.take(1) =~= seq![views[0]]);
        }
        s.append(parts[i].as_str());
        assert(s@ =~= base + join(views.take(i + 1), sep@));
        i = i + 1;
    }
    assert(views.take(parts.len() as int) =~= views);
}

} // verus!
