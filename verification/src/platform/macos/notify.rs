//! AppleScript quoting for notification text. The notification itself is
//! sent by running `osascript` with an argument array, never a shell,
//! outside the library.

use vstd::prelude::*;

use crate::text::{chars_of, string_from_chars};

verus! {

/// One character inside an AppleScript string literal: `"` and `\` are
/// preceded by a backslash.
pub open spec fn applescript_escape_char(c: char) -> Seq<char> {
    if c == '"' || c == '\\' {
        seq!['\\', c]
    } else {
        seq![c]
    }
}

/// The escaped characters of `s`.
pub open spec fn applescript_escaped(s: Seq<char>) -> Seq<char>
    decreases s.len(),
{
    if s.len() == 0 {
        Seq::empty()
    } else {
        applescript_escaped(s.drop_last()) + applescript_escape_char(s.last())
    }
}

/// `s` as an AppleScript double-quoted string literal.
pub open spec fn spec_applescript_string_literal(s: Seq<char>) -> Seq<char> {
    seq!['"'] + applescript_escaped(s) + seq!['"']
}

/// Escapes `s` as an AppleScript double-quoted string literal.
pub fn applescript_string_literal(s: &str) -> (r: String)
    ensures
        r@ == spec_applescript_string_literal(s@),
{
    let cs = chars_of(s);
    let mut out: Vec<char> = Vec::new();
    out.push('"');
    let mut i: usize = 0;
    while i < cs.len()
        invariant
            0 <= i <= cs@.len(),
            cs@ == s@,
            out@ == seq!['"'] + applescript_escaped(cs@.subrange(0, i as int)),
        decreases cs@.len() - i,
    {
        let c = cs[i];
        if c == '"' || c == '\\' {
            out.push('\\');
        }
        out.push(c);
        proof {
            assert(cs@.subrange(0, i + 1).drop_last() =~= cs@.subrange(0, i as int));
        }
        i = i + 1;
        assert(out@ =~= seq!['"'] + applescript_escaped(cs@.subrange(0, i as int)));
    }
    out.push('"');
    assert(cs@.subrange(0, cs@.len() as int) =~= cs@);
    assert(out@ =~= spec_applescript_string_literal(s@));
    string_from_chars(out.as_slice())
}

/// Inside the quotes, every `"` is escaped: whatever the input, the
/// literal cannot be closed early.
pub proof fn lemma_escaped_quotes_are_escaped(s: Seq<char>, i: int)
    requires
        0 <= i < applescript_escaped(s).len(),
        applescript_escaped(s)[i] == '"',
    ensures
        i > 0 && applescript_escaped(s)[i - 1] == '\\',
    decreases s.len(),
{
    let prev = applescript_escaped(s.drop_last());
    if i < prev.len() {
        lemma_escaped_quotes_are_escaped(s.drop_last(), i);
    }
}

/// The script that displays `body` with `title`.
pub open spec fn spec_notification_script(title: Seq<char>, body: Seq<char>) -> Seq<char> {
    "display notification "@ + spec_applescript_string_literal(body) + " with title "@
        + spec_applescript_string_literal(title)
}

/// The AppleScript source that displays `body` with `title`.
pub fn notification_script(title: &str, body: &str) -> (r: String)
    ensures
        r@ == spec_notification_script(title@, body@),
{
    let mut out: Vec<char> = Vec::new();
    crate::text::push_str(&mut out, "display notification ");
    let b = applescript_string_literal(body);
    crate::text::push_str(&mut out, b.as_str());
    crate::text::push_str(&mut out, " with title ");
    let t = applescript_string_literal(title);
    crate::text::push_str(&mut out, t.as_str());
    assert(out@ =~= spec_notification_script(title@, body@));
    string_from_chars(out.as_slice())
}

} // verus!
