use vstd::prelude::*;
use vstd::string::*;
use crate::text::chars_of;

verus! {

/// What stands for a single quote inside a quoted word: the quote is closed,
/// an escaped quote follows, and the quote is opened again.
pub const QUOTE_ESCAPE: &'static str = "'\\''";

/// What one character of the input becomes between the enclosing quotes.
/// Only the single quote changes; a backslash stays a single backslash.
pub open spec fn quoted_char(c: char) -> Seq<char> {
    if c == '\'' {
        seq!['\'', '\\', '\'', '\'']
    } else {
        seq![c]
    }
}

/// The characters of `s`, each replaced by `quoted_char`.
pub open spec fn quoted_body(s: Seq<char>) -> Seq<char>
    decreases s.len(),
{
    if s.len() == 0 {
        Seq::empty()
    } else {
        quoted_body(s.drop_last()) + quoted_char(s.last())
    }
}

/// The shell word that stands for `s`: `quoted_body(s)` between two single
/// quotes.
pub open spec fn quoted(s: Seq<char>) -> Seq<char> {
    seq!['\''] + quoted_body(s) + seq!['\'']
}

/// `value` with `head` put in front of it, where there is a value.
pub open spec fn with_head(head: Seq<char>, value: Option<Seq<char>>) -> Option<Seq<char>> {
    match value {
        Some(v) => Some(head + v),
        None => None,
    }
}

/// Quote removal as a POSIX shell performs it on a word, read from the
/// state `inside` (true between single quotes).
///
/// Between single quotes every character stands for itself and the next
/// single quote ends the part. Outside quotes a single quote opens a part
/// and a backslash makes the following character stand for itself, unless
/// that character is a newline. Nothing else is accepted outside quotes, and
/// a word may not end between quotes: such text has no value here.
pub open spec fn scan(word: Seq<char>, inside: bool) -> Option<Seq<char>>
    decreases word.len(),
{
    if word.len() == 0 {
        if inside {
            None
        } else {
            Some(Seq::empty())
        }
    } else if inside {
        if word[0] == '\'' {
            scan(word.skip(1), false)
        } else {
            with_head(seq![word[0]], scan(word.skip(1), true))
        }
    } else if word[0] == '\'' {
        scan(word.skip(1), true)
    } else if word[0] == '\\' && word.len() >= 2 && word[1] != '\n' {
        with_head(seq![word[1]], scan(word.skip(2), false))
    } else {
        None
    }
}

/// The string that the shell word `word` evaluates to, if it is a word made
/// of single-quoted parts and escaped characters only.
pub open spec fn word_value(word: Seq<char>) -> Option<Seq<char>> {
    scan(word, false)
}

proof fn lemma_scan_quoted_char(c: char, tail: Seq<char>)
    ensures
        scan(quoted_char(c) + tail, true) == with_head(seq![c], scan(tail, true)),
{
    let w = quoted_char(c) + tail;
    if c == '\'' {
        let w1 = w.skip(1);
        let w2 = w1.skip(2);
        assert(w1 =~= seq!['\\', '\'', '\''] + tail);
        assert(w2 =~= seq!['\''] + tail);
        assert(w2.skip(1) =~= tail);
        assert(scan(w, true) == scan(w1, false));
        assert(scan(w1, false) == with_head(seq!['\''], scan(w2, false)));
        assert(scan(w2, false) == scan(tail, true));
    } else {
        assert(w.skip(1) =~= tail);
    }
}

proof fn lemma_scan_quoted_body(s: Seq<char>, tail: Seq<char>)
    ensures
        scan(quoted_body(s) + tail, true) == with_head(s, scan(tail, true)),
    decreases s.len(),
{
    if s.len() == 0 {
        assert(quoted_body(s) + tail =~= tail);
        if let Some(v) = scan(tail, true) {
            assert(s + v =~= v);
        }
    } else {
        let init = s.drop_last();
        let c = s.last();
        let rest = quoted_char(c) + tail;
        assert(quoted_body(s) + tail =~= quoted_body(init) + rest);
        lemma_scan_quoted_body(init, rest);
        lemma_scan_quoted_char(c, tail);
        if let Some(v) = scan(tail, true) {
            assert(init + (seq![c] + v) =~= s + v);
        }
    }
}

/// A shell that reads the word `quoted(s)` gets `s` back, whatever `s`
/// holds: quotes, backslashes, newlines, characters outside ASCII, or
/// nothing at all.
pub proof fn lemma_quote_round_trip(s: Seq<char>)
    ensures
        word_value(quoted(s)) == Some(s),
{
    let w = quoted(s);
    let close = seq!['\''];
    assert(w.skip(1) =~= quoted_body(s) + close);
    lemma_scan_quoted_body(s, close);
    assert(close.skip(1) =~= Seq::<char>::empty());
    assert(scan(close.skip(1), false) == Some(Seq::<char>::empty()));
    assert(scan(close, true) == Some(Seq::<char>::empty()));
    assert(s + Seq::<char>::empty() =~= s);
}

/// Two strings with the same quoted word are the same string.
pub proof fn lemma_quote_injective(a: Seq<char>, b: Seq<char>)
    requires
        quoted(a) == quoted(b),
    ensures
        a == b,
{
    lemma_quote_round_trip(a);
    lemma_quote_round_trip(b);
}

/// A string without single quotes is quoted by putting it between two.
pub proof fn lemma_quoted_without_quote(s: Seq<char>)
    requires
        !s.contains('\''),
    ensures
        quoted(s) == seq!['\''] + s + seq!['\''],
{
    lemma_body_without_quote(s);
}

proof fn lemma_body_without_quote(s: Seq<char>)
    requires
        !s.contains('\''),
    ensures
        quoted_body(s) == s,
    decreases s.len(),
{
    if s.len() > 0 {
        let init = s.drop_last();
        assert(s.last() == s[s.len() - 1]);
        assert forall|i: int| 0 <= i < init.len() implies init[i] != '\'' by {
            assert(init[i] == s[i]);
        }
        lemma_body_without_quote(init);
        assert(init + seq![s.last()] =~= s);
    }
}

/// Quotes `string` for a POSIX shell: the result is one shell word, and a
/// shell that reads it gets `string` back.
pub fn quote(string: &str) -> (result: String)
    ensures
        result@ == quoted(string@),
        word_value(result@) == Some(string@),
{
    let mut out = String::new();
    out.push('\'');
    for c in it: string.chars()
        invariant
            it.seq() == string@,
            out@ == seq!['\''] + quoted_body(string@.take(it.index() as int)),
    {
        proof {
            let i = it.index() as int;
            assert(string@.take(i + 1).drop_last() == string@.take(i));
            reveal_strlit("'\\''");
        }
        if c == '\'' {
            out.append(QUOTE_ESCAPE);
        } else {
            out.push(c);
        }
    }
    proof {
        assert(string@.take(string@.len() as int) == string@);
        lemma_quote_round_trip(string@);
    }
    out.push('\'');
    out
}

/// Reads `word` as a shell does and returns what it stands for, or `None`
/// where `word` is not made of single-quoted parts and escaped characters
/// only.
pub fn unquote(word: &str) -> (value: Option<String>)
    ensures
        value is Some <==> word_value(word@) is Some,
        value matches Some(v) ==> word_value(word@) == Some(v@),
{
    let chars = chars_of(word);
    let mut out = String::new();
    let mut inside = false;
    let mut i: usize = 0;
    proof {
        assert(chars@.skip(0) =~= word@);
        if let Some(v) = word_value(word@) {
            assert(out@ + v =~= v);
        }
    }
    while i < chars.len()
        invariant
            i <= chars.len(),
            chars@ == word@,
            word_value(word@) == with_head(out@, scan(chars@.skip(i as int), inside)),
        decreases chars.len() - i,
    {
        let c = chars[i];
        let ghost rest = chars@.skip(i as int);
        let ghost before = out@;
        proof {
            assert(rest[0] == c);
            assert(rest.skip(1) =~= chars@.skip(i + 1));
        }
        if inside {
            if c == '\'' {
                inside = false;
            } else {
                out.push(c);
                proof {
                    if let Some(v) = scan(rest.skip(1), true) {
                        assert(before + (seq![c] + v) =~= before.push(c) + v);
                    }
                }
            }
            i = i + 1;
        } else if c == '\'' {
            inside = true;
            i = i + 1;
        } else if c == '\\' && i + 1 < chars.len() && chars[i + 1] != '\n' {
            let d = chars[i + 1];
            out.push(d);
            proof {
                assert(rest[1] == d);
                assert(rest.skip(2) =~= chars@.skip(i + 2));
                if let Some(v) = scan(rest.skip(2), false) {
                    assert(before + (seq![d] + v) =~= before.push(d) + v);
                }
            }
            i = i + 2;
        } else {
            return None;
        }
    }
    proof {
        assert(chars@.skip(i as int) =~= Seq::<char>::empty());
        assert(out@ + Seq::<char>::empty() =~= out@);
    }
    if inside {
        None
    } else {
        Some(out)
    }
}

} // verus!
