//! Gradient-coloured bar segments written with 24-bit ANSI colour escapes.

use vstd::prelude::*;
use crate::text::{decimal, digit_char, push_char, push_digit};

verus! {

/// The two endpoints of the Charm default gradient: `#FF7CCB` to `#FDFF8C`.
pub open spec fn charm_start() -> (u8, u8, u8) {
    (0xFFu8, 0x7Cu8, 0xCBu8)
}

/// See [`charm_start`].
pub open spec fn charm_end() -> (u8, u8, u8) {
    (0xFDu8, 0xFFu8, 0x8Cu8)
}

/// Returns the Charm default gradient endpoints used by progress bars.
/// Start: #FF7CCB, End: #FDFF8C
pub fn charm_default_gradient() -> (r: ((u8, u8, u8), (u8, u8, u8)))
    ensures
        r == (charm_start(), charm_end()),
{
    ((0xFF, 0x7C, 0xCB), (0xFD, 0xFF, 0x8C))
}

/// One colour channel at step `i` of `steps` between `start` and `end`:
/// `start + (end - start) * i / steps`, rounded to the nearest integer, halves
/// rounded up. With no steps the channel is `end`.
pub open spec fn lerp_channel(start: u8, end: u8, i: nat, steps: nat) -> int {
    if steps == 0 {
        end as int
    } else {
        let num = start * (steps - i) + end * i;
        if 2 * (num % (steps as int)) >= steps {
            num / (steps as int) + 1
        } else {
            num / (steps as int)
        }
    }
}

proof fn lemma_lerp_bounds(start: u8, end: u8, i: nat, steps: nat)
    requires
        i <= steps,
        steps > 0,
    ensures
        0 <= lerp_channel(start, end, i, steps) <= 255,
{
    let num = start * (steps - i) + end * i;
    let s = steps as int;
    assert(0 <= num <= 255 * s) by (nonlinear_arith)
        requires
            num == start * (steps - i) + end * i,
            s == steps,
            i <= steps,
            start <= 255,
            end <= 255,
    ;
    let q = num / s;
    let r = num % s;
    vstd::arithmetic::div_mod::lemma_fundamental_div_mod(num, s);
    vstd::arithmetic::div_mod::lemma_mod_bound(num, s);
    assert(0 <= q <= 255) by (nonlinear_arith)
        requires
            num == s * q + r,
            0 <= r < s,
            0 <= num <= 255 * s,
    ;
    assert(q == 255 ==> r == 0) by (nonlinear_arith)
        requires
            num == s * q + r,
            0 <= r < s,
            num <= 255 * s,
    ;
}

/// Every channel of an interpolated colour lies between the channel's start
/// and end values, position 0 gives the start value and the last position
/// gives the end value.
pub proof fn law_lerp_channel(start: u8, end: u8, i: nat, steps: nat)
    requires
        i <= steps,
    ensures
        start <= end ==> start <= lerp_channel(start, end, i, steps) <= end,
        end <= start ==> end <= lerp_channel(start, end, i, steps) <= start,
        lerp_channel(start, end, steps, steps) == end,
        steps > 0 ==> lerp_channel(start, end, 0, steps) == start,
{
    if steps > 0 {
        let s = steps as int;
        let num = start * (steps - i) + end * i;
        let lo: int = if start <= end { start as int } else { end as int };
        let hi: int = if start <= end { end as int } else { start as int };
        assert(lo * s <= num <= hi * s) by (nonlinear_arith)
            requires
                num == start * (steps - i) + end * i,
                s == steps,
                i <= steps,
                lo <= start <= hi,
                lo <= end <= hi,
        ;
        vstd::arithmetic::div_mod::lemma_fundamental_div_mod(num, s);
        vstd::arithmetic::div_mod::lemma_mod_bound(num, s);
        let q = num / s;
        let r = num % s;
        assert(lo <= q <= hi) by (nonlinear_arith)
            requires
                num == s * q + r,
                0 <= r < s,
                lo * s <= num <= hi * s,
        ;
        assert(q == hi ==> r == 0) by (nonlinear_arith)
            requires
                num == s * q + r,
                0 <= r < s,
                num <= hi * s,
        ;
        assert(start * (steps - steps) + end * steps == end * s);
        vstd::arithmetic::div_mod::lemma_div_multiples_vanish(end as int, s);
        vstd::arithmetic::div_mod::lemma_mod_multiples_basic(end as int, s);
        assert(start * (steps - 0) + end * 0 == start * s);
        vstd::arithmetic::div_mod::lemma_div_multiples_vanish(start as int, s);
        vstd::arithmetic::div_mod::lemma_mod_multiples_basic(start as int, s);
    }
}

/// Linear interpolation rounded to the nearest integer: at step `i` of
/// `steps`, a channel times `steps` lies within `steps / 2` of
/// `start * (steps - i) + end * i`, the exact value times `steps`.
pub proof fn law_lerp_nearest(start: u8, end: u8, i: nat, steps: nat)
    requires
        i <= steps,
        steps > 0,
    ensures
        -(steps as int) <= 2 * (lerp_channel(start, end, i, steps) * steps - (start * (steps - i)
            + end * i)) <= steps,
{
    let s = steps as int;
    let num = start * (steps - i) + end * i;
    vstd::arithmetic::div_mod::lemma_fundamental_div_mod(num, s);
    vstd::arithmetic::div_mod::lemma_mod_bound(num, s);
    let q = num / s;
    let r = num % s;
    let c = lerp_channel(start, end, i, steps);
    if 2 * r >= s {
        assert(c == q + 1);
        assert(c * s - num == s - r) by (nonlinear_arith)
            requires
                c == q + 1,
                num == s * q + r,
        ;
    } else {
        assert(c == q);
        assert(c * s - num == -r) by (nonlinear_arith)
            requires
                c == q,
                num == s * q + r,
        ;
    }
}

/// Each cell `i` of a gradient bar of `width >= 2` cells has, in each
/// channel, the nearest integer to the Charm gradient at `i / (width - 1)`:
/// the channel times `width - 1` lies within `(width - 1) / 2` of
/// `start * (width - 1 - i) + end * i`.
pub proof fn law_gradient_nearest(width: nat, i: nat)
    requires
        width >= 2,
        i < width,
    ensures
        -(width - 1) <= 2 * (gradient_color(width, i).0 * (width - 1) - (charm_start().0 * (width
            - 1 - i) + charm_end().0 * i)) <= width - 1,
        -(width - 1) <= 2 * (gradient_color(width, i).1 * (width - 1) - (charm_start().1 * (width
            - 1 - i) + charm_end().1 * i)) <= width - 1,
        -(width - 1) <= 2 * (gradient_color(width, i).2 * (width - 1) - (charm_start().2 * (width
            - 1 - i) + charm_end().2 * i)) <= width - 1,
{
    let steps: nat = (width - 1) as nat;
    law_lerp_nearest(charm_start().0, charm_end().0, i, steps);
    law_lerp_nearest(charm_start().1, charm_end().1, i, steps);
    law_lerp_nearest(charm_start().2, charm_end().2, i, steps);
}

/// A gradient bar of at least two cells starts with the gradient's start
/// colour and ends with its end colour; a bar of one cell has the end colour.
pub proof fn law_gradient_endpoints(width: nat)
    requires
        width >= 1,
    ensures
        width >= 2 ==> gradient_color(width, 0) == (charm_start().0 as int, charm_start().1 as int, charm_start().2 as int),
        gradient_color(width, (width - 1) as nat) == (charm_end().0 as int, charm_end().1 as int, charm_end().2 as int),
{
    let steps: nat = if width <= 1 { 0 } else { (width - 1) as nat };
    let last: nat = if width <= 1 { 0 } else { (width - 1) as nat };
    law_lerp_channel(charm_start().0, charm_end().0, last, steps);
    law_lerp_channel(charm_start().1, charm_end().1, last, steps);
    law_lerp_channel(charm_start().2, charm_end().2, last, steps);
    law_lerp_channel(charm_start().0, charm_end().0, 0, steps);
    law_lerp_channel(charm_start().1, charm_end().1, 0, steps);
    law_lerp_channel(charm_start().2, charm_end().2, 0, steps);
}

/// The exact-arithmetic colour channel, see [`lerp_channel`].
fn lerp_channel_at(start: u8, end: u8, i: usize, steps: usize) -> (c: u8)
    requires
        i <= steps,
    ensures
        c as int == lerp_channel(start, end, i as nat, steps as nat),
{
    if steps == 0 {
        return end;
    }
    proof {
        lemma_lerp_bounds(start, end, i as nat, steps as nat);
    }
    let d: u128 = (steps - i) as u128;
    let ii: u128 = i as u128;
    assert((start as int) * (d as int) <= 255 * 0x1_0000_0000_0000_0000 && (end as int) * (ii as int)
        <= 255 * 0x1_0000_0000_0000_0000) by (nonlinear_arith)
        requires
            d < 0x1_0000_0000_0000_0000,
            ii < 0x1_0000_0000_0000_0000,
            start <= 255,
            end <= 255,
    ;
    let a: u128 = (start as u128) * d;
    let b: u128 = (end as u128) * ii;
    let num: u128 = a + b;
    let q: u128 = num / (steps as u128);
    let r: u128 = num % (steps as u128);
    if 2 * r >= steps as u128 {
        (q + 1) as u8
    } else {
        q as u8
    }
}


/// The characters of the digits in `d`, last digit first.
pub open spec fn reversed_digits(d: Seq<u8>) -> Seq<char> {
    Seq::new(d.len(), |j: int| digit_char(d[d.len() - 1 - j] as nat))
}

/// Appends the decimal notation of `value` to `s`.
fn write_u8_to_string(s: &mut String, value: u8)
    ensures
        final(s)@ == old(s)@ + decimal(value as nat),
{
    if value == 0 {
        push_char(s, '0');
        assert(decimal(0) =~= seq!['0']);
        return;
    }
    // Decimal digits, least significant first (at most three for a u8).
    let mut digits: [u8; 3] = [0u8; 3];
    let mut count: usize = 0;
    let mut v: u8 = value;
    assert(digits@.take(0) =~= Seq::<u8>::empty());
    assert(decimal(value as nat) =~= decimal(value as nat) + reversed_digits(digits@.take(0)));
    while v > 0
        invariant
            count <= 3,
            count == 0 ==> v == value,
            count == 1 ==> v == value / 10,
            count == 2 ==> v == value / 100,
            count == 3 ==> v == 0,
            forall|j: int| 0 <= j < count ==> digits@[j] < 10,
            v > 0 ==> decimal(value as nat) == decimal(v as nat) + reversed_digits(
                digits@.take(count as int),
            ),
            v == 0 ==> decimal(value as nat) == reversed_digits(digits@.take(count as int)),
        decreases v,
    {
        let ghost old_take = digits@.take(count as int);
        let d = v % 10;
        digits[count] = d;
        assert(digits@.take(count as int) =~= old_take);
        assert(reversed_digits(digits@.take(count + 1)) =~= seq![digit_char(d as nat)]
            + reversed_digits(old_take));
        if v >= 10 {
            assert(decimal(v as nat) =~= decimal((v / 10) as nat).push(digit_char(d as nat)));
        } else {
            assert(decimal(v as nat) =~= seq![digit_char(d as nat)]);
        }
        assert(value / 10 / 10 == value / 100);
        v = v / 10;
        count = count + 1;
    }
    let ghost base = s@;
    let ghost all = reversed_digits(digits@.take(count as int));
    let mut i: usize = count;
    assert(all.take(0) =~= Seq::<char>::empty());
    while i > 0
        invariant
            i <= count <= 3,
            all == reversed_digits(digits@.take(count as int)),
            forall|j: int| 0 <= j < count ==> digits@[j] < 10,
            s@ == base + all.take(count - i),
        decreases i,
    {
        i = i - 1;
        push_digit(s, digits[i]);
        assert(all.take(count - i) =~= all.take(count - i - 1).push(digit_char(digits@[i as int] as nat)));
    }
    assert(all.take(count as int) =~= all);
}

/// The escape sequence that selects a 24-bit foreground colour, up to the
/// colour values.
pub open spec fn sgr_truecolor_prefix() -> Seq<char> {
    seq!['\x1b', '[', '3', '8', ';', '2', ';']
}

/// The escape sequence that resets all attributes.
pub open spec fn sgr_reset() -> Seq<char> {
    seq!['\x1b', '[', '0', 'm']
}

/// `ch` in the 24-bit colour `(r, g, b)`, followed by a reset.
pub open spec fn colored_cell(r: u8, g: u8, b: u8, ch: char) -> Seq<char> {
    sgr_truecolor_prefix() + decimal(r as nat) + seq![';'] + decimal(g as nat) + seq![';'] + decimal(
        b as nat,
    ) + seq!['m', ch] + sgr_reset()
}

/// The colour of cell `i` of a gradient bar `width` cells wide: the Charm
/// gradient at position `i / (width - 1)`; a bar of one cell takes the end
/// colour.
pub open spec fn gradient_color(width: nat, i: nat) -> (int, int, int) {
    let steps: nat = if width <= 1 { 0 } else { (width - 1) as nat };
    let i2: nat = if width <= 1 { 0 } else { i };
    (
        lerp_channel(charm_start().0, charm_end().0, i2, steps),
        lerp_channel(charm_start().1, charm_end().1, i2, steps),
        lerp_channel(charm_start().2, charm_end().2, i2, steps),
    )
}

/// The first `k` cells of a gradient bar `width` cells wide drawn with `ch`.
pub open spec fn gradient_cells(width: nat, ch: char, k: nat) -> Seq<char>
    decreases k,
{
    if k == 0 {
        Seq::empty()
    } else {
        let c = gradient_color(width, (k - 1) as nat);
        gradient_cells(width, ch, (k - 1) as nat) + colored_cell(c.0 as u8, c.1 as u8, c.2 as u8, ch)
    }
}

/// A whole gradient bar `width` cells wide drawn with `ch`.
pub open spec fn gradient_segment(width: nat, ch: char) -> Seq<char> {
    gradient_cells(width, ch, width)
}

/// Appends `ch` in the colour `(r, g, b)`, followed by a reset, to `s`.
fn push_colored_cell(s: &mut String, r: u8, g: u8, b: u8, ch: char)
    ensures
        final(s)@ == old(s)@ + colored_cell(r, g, b, ch),
{
    let ghost base = s@;
    s.append("\x1b[38;2;");
    write_u8_to_string(s, r);
    push_char(s, ';');
    write_u8_to_string(s, g);
    push_char(s, ';');
    write_u8_to_string(s, b);
    push_char(s, 'm');
    push_char(s, ch);
    s.append("\x1b[0m");
    proof {
        reveal_strlit("\x1b[38;2;");
        reveal_strlit("\x1b[0m");
        assert(s@ =~= base + colored_cell(r, g, b, ch));
    }
}

/// Appends cells `0..width` of a gradient bar to `s`.
fn push_gradient_cells(s: &mut String, filled_width: usize, ch: char)
    ensures
        final(s)@ == old(s)@ + gradient_segment(filled_width as nat, ch),
{
    let (start, end) = charm_default_gradient();
    let steps: usize = if filled_width <= 1 { 0 } else { filled_width - 1 };
    let ghost base = s@;
    let mut i: usize = 0;
    assert(base + gradient_cells(filled_width as nat, ch, 0) =~= base);
    while i < filled_width
        invariant
            i <= filled_width,
            start == charm_start(),
            end == charm_end(),
            steps == (if filled_width <= 1 { 0 } else { filled_width - 1 }),
            s@ == base + gradient_cells(filled_width as nat, ch, i as nat),
        decreases filled_width - i,
    {
        let pos: usize = if filled_width <= 1 { 0 } else { i };
        let r = lerp_channel_at(start.0, end.0, pos, steps);
        let g = lerp_channel_at(start.1, end.1, pos, steps);
        let b = lerp_channel_at(start.2, end.2, pos, steps);
        push_colored_cell(s, r, g, b, ch);
        assert(base + gradient_cells(filled_width as nat, ch, (i + 1) as nat) =~= base
            + gradient_cells(filled_width as nat, ch, i as nat) + colored_cell(r, g, b, ch));
        i = i + 1;
    }
}

/// Build a gradient-coloured filled segment of the given width using the
/// provided character. Colours follow Charm's default gradient: cell `i`
/// takes the gradient at `i / (filled_width - 1)`, each channel rounded to
/// the nearest integer (halves up).
pub fn gradient_filled_segment(filled_width: usize, ch: char) -> (s: String)
    ensures
        s@ == gradient_segment(filled_width as nat, ch),
{
    let mut s = String::new();
    push_gradient_cells(&mut s, filled_width, ch);
    assert(s@ =~= gradient_segment(filled_width as nat, ch));
    s
}

/// Clears `s` (`String::clear`).
#[verifier::external_body]
fn clear_string(s: &mut String)
    ensures
        final(s)@ == Seq::<char>::empty(),
{
    s.clear();
}

/// Like [`gradient_filled_segment`], but writes the segment into `buffer`
/// (whose previous contents are discarded) and returns it as a string slice.
pub fn gradient_filled_segment_with_buffer<'a>(
    filled_width: usize,
    ch: char,
    buffer: &'a mut String,
) -> (r: &'a str)
    ensures
        r@ == gradient_segment(filled_width as nat, ch),
        final(buffer)@ == r@,
{
    clear_string(buffer);
    push_gradient_cells(buffer, filled_width, ch);
    assert(buffer@ =~= gradient_segment(filled_width as nat, ch));
    buffer.as_str()
}

} // verus!
