//! Quoting of strings for a POSIX shell.

use vstd::prelude::*;

use crate::text;

verus! {

/// `value` between single quotes, with each single quote in it replaced by one that closes the
/// quotes, gives a double-quoted single quote, and opens them again.
pub open spec fn quoted(value: Seq<char>) -> Seq<char> {
    "'"@ + text::replaced(value, '\'', "'\"'\"'"@) + "'"@
}

/// Quotes a string so that a shell takes it literally.
pub fn shell_quote(value: &str) -> (r: String)
    ensures
        r@ == quoted(value@),
{
    let inner = text::replace(value, '\'', "'\"'\"'");
    text::cat3("'", inner.as_str(), "'")
}

/// Where a shell stands while it reads a word.
pub enum Quote {
    Plain,
    Single,
    Double,
}

/// The characters that stand for themselves outside of quotes.
pub open spec fn literal_unquoted(c: char) -> bool {
    text::ascii_alphanumeric(c) || c == '-' || c == '_' || c == '.' || c == '/' || c == ':' || c
        == '@' || c == '%' || c == '+' || c == ',' || c == '='
}

/// The characters that stand for themselves between double quotes.
pub open spec fn literal_in_double_quotes(c: char) -> bool {
    c != '$' && c != '`' && c != '\\' && c != '!'
}

/// What a shell makes of the text of a word, where no character of it means anything but
/// itself; `None` for every other text.
pub open spec fn word(s: Seq<char>, at: Quote) -> Option<Seq<char>>
    decreases s.len(),
{
    if s.len() == 0 {
        if at is Plain {
            Some(seq![])
        } else {
            None
        }
    } else {
        let c = s[0];
        let rest = s.drop_first();
        match at {
            Quote::Plain => if c == '\'' {
                word(rest, Quote::Single)
            } else if c == '"' {
                word(rest, Quote::Double)
            } else if literal_unquoted(c) {
                with_first(c, word(rest, Quote::Plain))
            } else {
                None
            },
            Quote::Single => if c == '\'' {
                word(rest, Quote::Plain)
            } else {
                with_first(c, word(rest, Quote::Single))
            },
            Quote::Double => if c == '"' {
                word(rest, Quote::Plain)
            } else if literal_in_double_quotes(c) {
                with_first(c, word(rest, Quote::Double))
            } else {
                None
            },
        }
    }
}

/// A word with one more character in front.
pub open spec fn with_first(c: char, rest: Option<Seq<char>>) -> Option<Seq<char>> {
    match rest {
        Some(s) => Some(seq![c] + s),
        None => None,
    }
}

/// How a character stands between single quotes.
spec fn escaped(c: char) -> Seq<char> {
    if c == '\'' {
        seq!['\'', '"', '\'', '"', '\'']
    } else {
        seq![c]
    }
}

spec fn escape_text() -> Seq<char> {
    seq!['\'', '"', '\'', '"', '\'']
}

proof fn lemma_replaced_first(s: Seq<char>)
    requires
        s.len() > 0,
    ensures
        text::replaced(s, '\'', escape_text()) == escaped(s[0]) + text::replaced(
            s.drop_first(),
            '\'',
            escape_text(),
        ),
    decreases s.len(),
{
    let e = escape_text();
    if s.len() == 1 {
        assert(s.drop_last() =~= seq![]);
        assert(s.drop_first() =~= seq![]);
        assert(text::replaced(seq![], '\'', e) =~= seq![]);
        assert(text::replaced(s, '\'', e) =~= escaped(s[0]));
        assert(escaped(s[0]) + text::replaced(s.drop_first(), '\'', e) =~= escaped(s[0]));
    } else {
        let t = s.drop_first();
        lemma_replaced_first(s.drop_last());
        assert(s.drop_last().drop_first() =~= t.drop_last());
        assert(t.last() == s.last());
        assert(text::replaced(s, '\'', e) =~= escaped(s[0]) + text::replaced(t, '\'', e));
    }
}

proof fn lemma_word_in_quotes(value: Seq<char>)
    ensures
        word(text::replaced(value, '\'', escape_text()) + seq!['\''], Quote::Single) == Some(value),
    decreases value.len(),
{
    let e = escape_text();
    let tail = seq!['\''];
    if value.len() == 0 {
        assert(text::replaced(value, '\'', e) + tail =~= tail);
        assert(tail.drop_first() =~= seq![]);
        assert(word(seq![], Quote::Plain) == Some(Seq::<char>::empty()));
        assert(value =~= Seq::<char>::empty());
    } else {
        let rest = value.drop_first();
        let more = text::replaced(rest, '\'', e) + tail;
        lemma_word_in_quotes(rest);
        lemma_replaced_first(value);
        let whole = text::replaced(value, '\'', e) + tail;
        assert(seq![value[0]] + rest =~= value);
        if value[0] == '\'' {
            assert(whole =~= e + more);
            let s1 = whole.drop_first();
            let s2 = s1.drop_first();
            let s3 = s2.drop_first();
            let s4 = s3.drop_first();
            assert(s4.drop_first() =~= more);
            assert(word(s4, Quote::Plain) == Some(rest));
            assert(word(s3, Quote::Double) == Some(rest));
            assert(word(s2, Quote::Double) == Some(seq!['\''] + rest));
            assert(word(s1, Quote::Plain) == Some(seq!['\''] + rest));
            assert(word(whole, Quote::Single) == Some(seq!['\''] + rest));
        } else {
            assert(whole =~= seq![value[0]] + more);
            assert(whole.drop_first() =~= more);
        }
    }
}

/// A shell reads the quoted form of any string as one word, and that word is the string.
pub proof fn law_quoting_keeps_the_value(value: Seq<char>)
    ensures
        word(quoted(value), Quote::Plain) == Some(value),
{
    reveal_strlit("'");
    reveal_strlit("'\"'\"'");
    assert("'"@ =~= seq!['\'']);
    assert("'\"'\"'"@ =~= escape_text());
    let body = text::replaced(value, '\'', escape_text()) + seq!['\''];
    assert(quoted(value) =~= seq!['\''] + body);
    assert(quoted(value).drop_first() =~= body);
    lemma_word_in_quotes(value);
}

} // verus!
