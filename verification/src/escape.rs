//! Quoting of text that is embedded in a single-quoted literal.
//!
//! Whatever the text holds, the interpreter reads the literal back as that
//! text, and the literal ends at the quote that closes it.

use vstd::prelude::*;
use vstd::std_specs::iter::IteratorSpec;

verus! {

/// `String::push` appends the character to the end of the string.
pub assume_specification[ String::push ](text: &mut String, c: char)
    ensures
        final(text)@ == old(text)@.push(c),
;

/// What one character of the text becomes inside the literal. A backslash
/// and both kinds of quote get a backslash in front. A line feed and a
/// carriage return, which cannot stand inside a literal, are written as a
/// backslash with their letter. Everything else stays as it is.
pub open spec fn escaped_char(c: char) -> Seq<char> {
    if c == '\\' || c == '\'' || c == '"' {
        seq!['\\', c]
    } else if c == '\n' {
        seq!['\\', 'n']
    } else if c == '\r' {
        seq!['\\', 'r']
    } else {
        seq![c]
    }
}

/// The text, escaped character by character.
pub open spec fn escaped(text: Seq<char>) -> Seq<char>
    decreases text.len(),
{
    if text.len() == 0 {
        Seq::empty()
    } else {
        escaped(text.drop_last()) + escaped_char(text.last())
    }
}

/// Escapes `text` so that it can stand between single quotes and is read back
/// unchanged.
pub fn escape_text(text: &str) -> (quoted: String)
    ensures
        quoted@ == escaped(text@),
{
    let mut quoted = String::new();
    for c in it: text.chars()
        invariant
            it.seq() == text@,
            quoted@ == escaped(text@.take(it.index())),
    {
        proof {
            let i = it.index();
            assert(c == text@[i]);
            assert(text@.take(i + 1).drop_last() =~= text@.take(i));
        }
        if c == '\\' || c == '\'' || c == '"' {
            quoted.push('\\');
            quoted.push(c);
        } else if c == '\n' {
            quoted.push('\\');
            quoted.push('n');
        } else if c == '\r' {
            quoted.push('\\');
            quoted.push('r');
        } else {
            quoted.push(c);
        }
    }
    proof {
        assert(text@.take(text@.len() as int) =~= text@);
    }
    quoted
}

/// Whether `c` ends a line.
pub open spec fn is_line_break(c: char) -> bool {
    c == '\n' || c == '\r'
}

/// The character that a backslash followed by `c` stands for, for the
/// sequences that escaping writes. Other sequences are not read here.
pub open spec fn escape_meaning(c: char) -> Option<char> {
    if c == '\\' || c == '\'' || c == '"' {
        Some(c)
    } else if c == 'n' {
        Some('\n')
    } else if c == 'r' {
        Some('\r')
    } else {
        None
    }
}

/// Puts `c` in front of what was read after it.
pub open spec fn read_after(c: char, rest: Option<Seq<char>>) -> Option<Seq<char>> {
    match rest {
        Some(text) => Some(seq![c] + text),
        None => None,
    }
}

/// The text that a single-quoted literal stands for. `source` starts just
/// behind the opening quote; the literal ends at the first quote that has no
/// backslash in front. A backslash and the character behind it stand for one
/// character, as `escape_meaning` says. The result is `None` where no closing
/// quote is found, where a line ends inside the literal, and where a backslash
/// starts a sequence that escaping never writes.
pub open spec fn literal_text(source: Seq<char>) -> Option<Seq<char>>
    decreases source.len(),
{
    if source.len() == 0 {
        None
    } else if source[0] == '\'' {
        Some(Seq::empty())
    } else if is_line_break(source[0]) {
        None
    } else if source[0] == '\\' {
        if source.len() >= 2 && escape_meaning(source[1]) is Some {
            read_after(escape_meaning(source[1])->0, literal_text(source.skip(2)))
        } else {
            None
        }
    } else {
        read_after(source[0], literal_text(source.skip(1)))
    }
}

/// Adds `count` to a length that was found.
pub open spec fn longer_by(count: nat, rest: Option<nat>) -> Option<nat> {
    match rest {
        Some(length) => Some(length + count),
        None => None,
    }
}

/// How many characters of `source` the body of the literal takes, up to its
/// closing quote. It is `None` exactly where `literal_text` is.
pub open spec fn literal_length(source: Seq<char>) -> Option<nat>
    decreases source.len(),
{
    if source.len() == 0 {
        None
    } else if source[0] == '\'' {
        Some(0)
    } else if is_line_break(source[0]) {
        None
    } else if source[0] == '\\' {
        if source.len() >= 2 && escape_meaning(source[1]) is Some {
            longer_by(2, literal_length(source.skip(2)))
        } else {
            None
        }
    } else {
        longer_by(1, literal_length(source.skip(1)))
    }
}

/// Reads the single-quoted literal whose body starts at the beginning of
/// `source`, and returns the text it stands for.
pub fn read_literal(source: &str) -> (read: Option<String>)
    ensures
        match read {
            Some(text) => literal_text(source@) == Some(text@),
            None => literal_text(source@) is None,
        },
{
    let mut text = String::new();
    let mut chars = source.chars();
    loop
        invariant
            chars.obeys_prophetic_iter_laws(),
            chars.decrease() is Some,
            literal_text(source@) == match literal_text(chars.remaining()) {
                Some(rest) => Some(text@ + rest),
                None => None,
            },
        decreases chars.decrease()->0,
    {
        let ghost before = chars.remaining();
        let ghost so_far = text@;
        let read: char;
        match chars.next() {
            None => {
                return None;
            },
            Some(c) => {
                if c == '\'' {
                    assert(text@ + Seq::<char>::empty() =~= text@);
                    return Some(text);
                } else if c == '\n' || c == '\r' {
                    return None;
                } else if c == '\\' {
                    match chars.next() {
                        None => {
                            return None;
                        },
                        Some(d) => {
                            if d == '\\' || d == '\'' || d == '"' {
                                read = d;
                            } else if d == 'n' {
                                read = '\n';
                            } else if d == 'r' {
                                read = '\r';
                            } else {
                                return None;
                            }
                            proof {
                                assert(chars.remaining() =~= before.skip(2));
                            }
                        },
                    }
                } else {
                    read = c;
                    proof {
                        assert(chars.remaining() =~= before.skip(1));
                    }
                }
            },
        }
        text.push(read);
        proof {
            assert forall|rest: Seq<char>|
                so_far + (seq![read] + rest) =~= #[trigger] (text@ + rest) by {}
        }
    }
}

/// Escaping goes through the text piece by piece.
pub proof fn lemma_escaped_concat(first: Seq<char>, second: Seq<char>)
    ensures
        escaped(first + second) == escaped(first) + escaped(second),
    decreases second.len(),
{
    if second.len() == 0 {
        assert(first + second =~= first);
        assert(escaped(first) + escaped(second) =~= escaped(first));
    } else {
        lemma_escaped_concat(first, second.drop_last());
        assert((first + second).drop_last() =~= first + second.drop_last());
        assert(escaped(first + second) =~= escaped(first) + escaped(second));
    }
}

/// The escaped text starts with what its first character becomes.
pub proof fn lemma_escaped_front(text: Seq<char>)
    requires
        text.len() > 0,
    ensures
        escaped(text) == escaped_char(text[0]) + escaped(text.skip(1)),
{
    let head = seq![text[0]];
    assert(head.drop_last() =~= Seq::<char>::empty());
    assert(escaped(head.drop_last()) =~= Seq::<char>::empty());
    assert(escaped(head) =~= escaped_char(text[0]));
    assert(text =~= head + text.skip(1));
    lemma_escaped_concat(head, text.skip(1));
}

/// The escaped form of `text`, closed by a quote and followed by `rest`.
pub open spec fn quoted_with(text: Seq<char>, rest: Seq<char>) -> Seq<char> {
    escaped(text) + seq!['\''] + rest
}

/// Escaping round trip: every text is read back unchanged from its escaped
/// form, whatever follows the closing quote, and the literal ends at that
/// quote and no earlier.
pub proof fn lemma_escaped_reads_back(text: Seq<char>, rest: Seq<char>)
    ensures
        literal_text(quoted_with(text, rest)) == Some(text),
        literal_length(quoted_with(text, rest)) == Some(escaped(text).len()),
    decreases text.len(),
{
    let source = quoted_with(text, rest);
    if text.len() == 0 {
        assert(source =~= seq!['\''] + rest);
        assert(text =~= Seq::<char>::empty());
    } else {
        let c = text[0];
        let tail = text.skip(1);
        let next = quoted_with(tail, rest);
        lemma_escaped_front(text);
        lemma_escaped_reads_back(tail, rest);
        assert(source =~= escaped_char(c) + next);
        if escaped_char(c).len() == 2 {
            assert(source[0] == '\\');
            assert(escape_meaning(source[1]) == Some(c));
            assert(source.skip(2) =~= next);
        } else {
            assert(source[0] == c);
            assert(source.skip(1) =~= next);
        }
        assert(seq![c] + tail =~= text);
    }
}

} // verus!
