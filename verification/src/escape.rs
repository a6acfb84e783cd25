//! Escaping of untrusted text for inclusion in a single-quoted query
//! literal.
//!
//! Every free-text value written into a mutation statement passes through
//! [`escape`].  The escaper neutralizes the literal delimiter `'` and the
//! escape character `\` itself, so that an embedded value can never
//! terminate the literal early.  The reference parser
//! [`scan_literal_body`] reads such a literal back; the round-trip proof
//! [`lemma_escape_round_trip`] shows that nothing is lost.

use vstd::prelude::*;

verus! {

/// How a single character is written inside a single-quoted literal:
/// the delimiter and the escape character get a backslash prefix, every
/// other character stands for itself.
pub open spec fn escaped_char(c: char) -> Seq<char> {
    if c == '\'' || c == '\\' {
        seq!['\\', c]
    } else {
        seq![c]
    }
}

/// The escaped form of a whole string.
pub open spec fn escape_seq(s: Seq<char>) -> Seq<char>
    decreases s.len(),
{
    if s.len() == 0 {
        Seq::empty()
    } else {
        escaped_char(s[0]) + escape_seq(s.drop_first())
    }
}

/// A string is safe when it holds neither the literal delimiter nor the
/// escape character; such a string may stand in a literal unchanged.
pub open spec fn safe_text(s: Seq<char>) -> bool {
    forall|i: int| 0 <= i < s.len() ==> s[i] != '\'' && s[i] != '\\'
}

/// Reference parser for the body of a single-quoted literal.  Reads
/// characters up to the first unescaped delimiter; a backslash takes the
/// following character verbatim.  Returns the decoded content and the
/// text after the closing delimiter, or `None` when no unescaped
/// delimiter closes the literal.
pub open spec fn scan_literal_body(s: Seq<char>) -> Option<(Seq<char>, Seq<char>)>
    decreases s.len(),
{
    if s.len() == 0 {
        None
    } else if s[0] == '\'' {
        Some((Seq::empty(), s.drop_first()))
    } else if s[0] == '\\' {
        if s.len() < 2 {
            None
        } else {
            match scan_literal_body(s.skip(2)) {
                Some((content, rest)) => Some((seq![s[1]] + content, rest)),
                None => None,
            }
        }
    } else {
        match scan_literal_body(s.drop_first()) {
            Some((content, rest)) => Some((seq![s[0]] + content, rest)),
            None => None,
        }
    }
}

/// Escaping distributes over appending one character; the workhorse for
/// the loop invariant of [`escape`].
pub proof fn lemma_escape_seq_push(s: Seq<char>, c: char)
    ensures
        escape_seq(s.push(c)) == escape_seq(s) + escaped_char(c),
    decreases s.len(),
{
    if s.len() == 0 {
        assert(s.push(c)[0] == c);
        assert(s.push(c).drop_first() =~= Seq::<char>::empty());
        assert(escape_seq(Seq::<char>::empty()) =~= Seq::<char>::empty());
        assert(escape_seq(s.push(c)) =~= escaped_char(c));
        assert(escape_seq(s) + escaped_char(c) =~= escaped_char(c));
    } else {
        assert(s.push(c)[0] == s[0]);
        assert(s.push(c).drop_first() =~= s.drop_first().push(c));
        lemma_escape_seq_push(s.drop_first(), c);
        assert(escape_seq(s.push(c)) =~= escape_seq(s) + escaped_char(c));
    }
}

/// On safe text the escaper is the identity: escaping is idempotent on
/// already-safe input.
pub proof fn lemma_escape_safe_identity(s: Seq<char>)
    requires
        safe_text(s),
    ensures
        escape_seq(s) == s,
    decreases s.len(),
{
    if s.len() == 0 {
        assert(escape_seq(s) =~= s);
    } else {
        assert(s[0] != '\'' && s[0] != '\\');
        lemma_escape_safe_identity(s.drop_first());
        assert(escape_seq(s) =~= seq![s[0]] + s.drop_first());
        assert(seq![s[0]] + s.drop_first() =~= s);
    }
}

/// Round trip through the reference parser: embed the escaped form of
/// any string in a single-quoted literal, follow it with arbitrary
/// trailing text, and the parser recovers exactly the original string
/// and stops exactly at the closing delimiter.
pub proof fn lemma_escape_round_trip(s: Seq<char>, tail: Seq<char>)
    ensures
        scan_literal_body(escape_seq(s) + seq!['\''] + tail) == Some((s, tail)),
    decreases s.len(),
{
    if s.len() == 0 {
        assert(escape_seq(s) + seq!['\''] + tail =~= seq!['\''] + tail);
        let w = seq!['\''] + tail;
        assert(w[0] == '\'');
        assert(w.drop_first() =~= tail);
    } else {
        let c = s[0];
        let w = escape_seq(s) + seq!['\''] + tail;
        lemma_escape_round_trip(s.drop_first(), tail);
        let w_rest = escape_seq(s.drop_first()) + seq!['\''] + tail;
        if c == '\'' || c == '\\' {
            assert(w =~= seq!['\\', c] + w_rest);
            assert(w[0] == '\\');
            assert(w.len() >= 2);
            assert(w[1] == c);
            assert(w.skip(2) =~= w_rest);
            assert(seq![c] + s.drop_first() =~= s);
        } else {
            assert(w =~= seq![c] + w_rest);
            assert(w[0] == c);
            assert(w.drop_first() =~= w_rest);
            assert(seq![c] + s.drop_first() =~= s);
        }
    }
}

/// Escape a string for inclusion in a single-quoted query literal:
/// prefix every `'` and `\` with a backslash.
pub fn escape(s: &str) -> (r: String)
    ensures
        r@ == escape_seq(s@),
{
    let len: usize = s.unicode_len();
    let mut r = String::new();
    let mut i: usize = 0;
    while i < len
        invariant
            len == s@.len(),
            i <= len,
            r@ == escape_seq(s@.take(i as int)),
        decreases len - i,
    {
        let c = s.get_char(i);
        if c == '\'' {
            r.append("\\'");
        } else if c == '\\' {
            r.append("\\\\");
        } else {
            crate::strutil::push_char(&mut r, c);
        }
        proof {
            lemma_escape_seq_push(s@.take(i as int), c);
            assert(s@.take(i + 1 as int) =~= s@.take(i as int).push(c));
            reveal_strlit("\\'");
            reveal_strlit("\\\\");
            assert(r@ =~= escape_seq(s@.take(i + 1 as int)));
        }
        i = i + 1;
    }
    proof {
        assert(s@.take(len as int) =~= s@);
    }
    r
}

} // verus!
