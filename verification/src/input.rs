//! Turning lines of text from a custom input source into key messages.

use vstd::prelude::*;
use crate::event::{KeyCode, KeyModifiers, KeyMsg};

verus! {

/// Whether a line read from a custom input source ends with a line feed.
pub open spec fn ends_with_line_feed(line: Seq<char>) -> bool {
    line.len() > 0 && line.last() == '\n'
}

/// The characters of a line that become character keys: all of them but a
/// final line feed.
pub open spec fn line_text(line: Seq<char>) -> Seq<char> {
    if ends_with_line_feed(line) {
        line.drop_last()
    } else {
        line
    }
}

/// The key message of a character typed with no modifier.
pub open spec fn char_key(c: char) -> KeyMsg {
    KeyMsg { key: KeyCode::Char(c), modifiers: KeyModifiers { bits: 0 } }
}

/// The key message of the Enter key with no modifier.
pub open spec fn enter_key() -> KeyMsg {
    KeyMsg { key: KeyCode::Enter, modifiers: KeyModifiers { bits: 0 } }
}

/// The key messages that one line read from a custom input source stands for:
/// one character key per character of the line before its line feed, then
/// Enter when the line ends with a line feed.
pub open spec fn line_keys(line: Seq<char>) -> Seq<KeyMsg> {
    line_text(line).map_values(|c: char| char_key(c)) + if ends_with_line_feed(line) {
        seq![enter_key()]
    } else {
        Seq::empty()
    }
}

/// A line turns into exactly one key per character, all without modifiers:
/// each character before the final line feed gives its character key, in
/// order, and the final line feed, if any, gives Enter.
pub proof fn law_line_keys(line: Seq<char>)
    ensures
        line_keys(line).len() == line.len(),
        forall|i: int| 0 <= i < line.len() ==> (#[trigger] line_keys(line)[i]).modifiers.bits == 0,
        forall|i: int|
            0 <= i < line.len() && line[i] != '\n' ==> (#[trigger] line_keys(line)[i]).key
                == KeyCode::Char(line[i]),
        forall|i: int|
            0 <= i < line.len() && line[i] == '\n' ==> (#[trigger] line_keys(line)[i]).key == if i
                == line.len() - 1 {
                KeyCode::Enter
            } else {
                KeyCode::Char('\n')
            },
{
    let t = line_text(line);
    assert forall|i: int| 0 <= i < line.len() implies {
        &&& (#[trigger] line_keys(line)[i]).modifiers.bits == 0
        &&& line_keys(line)[i].key == if ends_with_line_feed(line) && i == line.len() - 1 {
            KeyCode::Enter
        } else {
            KeyCode::Char(line[i])
        }
    } by {
        if i < t.len() {
            assert(line_keys(line)[i] == char_key(t[i]));
            assert(t[i] == line[i]);
        } else {
            assert(line_keys(line)[i] == enter_key());
        }
    }
}

/// The characters of `s`.
fn chars_of(s: &str) -> (v: Vec<char>)
    ensures
        v@ == s@,
{
    let mut v: Vec<char> = Vec::new();
    for c in it: s.chars()
        invariant
            it.seq() == s@,
            v@ == s@.take(it.index() as int),
    {
        v.push(c);
        assert(v@ =~= s@.take(it.index() + 1));
    }
    assert(s@.take(s@.len() as int) =~= s@);
    v
}

/// The key messages for one line read from a custom input source (the line
/// includes its line feed, if any): each character before the line feed as a
/// key without modifiers, then an Enter key if the line ends with a line
/// feed. For `"ab\n"` that is `a`, `b`, Enter; for `" a\n"` a space, `a`,
/// Enter; for `"\n"` only Enter; for `"test"` the four letters.
pub fn line_to_key_msgs(line: &str) -> (keys: Vec<KeyMsg>)
    ensures
        keys@ == line_keys(line@),
{
    let chars = chars_of(line);
    let n = chars.len();
    let ends = n > 0 && chars[n - 1] == '\n';
    let m: usize = if ends { n - 1 } else { n };
    let ghost text = line_text(line@);
    assert(text =~= chars@.subrange(0, m as int));
    let mut keys: Vec<KeyMsg> = Vec::new();
    let mut i: usize = 0;
    while i < m
        invariant
            i <= m <= n,
            n == chars@.len(),
            text == chars@.subrange(0, m as int),
            keys@ == text.take(i as int).map_values(|c: char| char_key(c)),
        decreases m - i,
    {
        let k = KeyMsg { key: KeyCode::Char(chars[i]), modifiers: KeyModifiers::none() };
        assert(k == char_key(chars@[i as int]));
        keys.push(k);
        assert(text[i as int] == chars@[i as int]);
        assert(text.take(i + 1) =~= text.take(i as int).push(chars@[i as int]));
        assert(keys@ =~= text.take(i + 1).map_values(|c: char| char_key(c)));
        i = i + 1;
    }
    assert(text.take(m as int) =~= text);
    if ends {
        keys.push(KeyMsg { key: KeyCode::Enter, modifiers: KeyModifiers::none() });
    }
    assert(keys@ =~= line_keys(line@));
    keys
}

} // verus!
