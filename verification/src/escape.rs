//! Escaping for PowerShell single-quoted string literals.
//!
//! A value destined for the inside of a `'...'` literal is rewritten so that
//! the characters PowerShell treats specially there — the quote itself, the
//! backtick escape character, and the control characters tab, newline and
//! carriage return — appear as backtick escape sequences. The central result
//! is the round-trip law: unescaping the escaped text yields the original
//! string, so a value embedded in a quoted literal is reproduced exactly when
//! the shell evaluates that literal.

use vstd::prelude::*;

verus! {

/// Relies on std's `String::push`: appends the given character to the end of
/// the string.
pub assume_specification[ String::push ](s: &mut String, ch: char)
    ensures
        final(s)@ == old(s)@.push(ch),
;

/// Characters that cannot stand verbatim inside a PowerShell single-quoted
/// literal built by this crate: the quote would end the literal early, the
/// backtick is the escape character, and the control characters are written
/// as escape sequences so that emitted lines stay one line.
pub open spec fn is_special(c: char) -> bool {
    c == '\t' || c == '\n' || c == '\r' || c == '\'' || c == '`'
}

/// The escape sequence a single character is written as: special characters
/// become a two-character backtick sequence, every other character stands as
/// itself.
pub open spec fn escape_char(c: char) -> Seq<char> {
    if c == '\t' {
        seq!['`', 't']
    } else if c == '\n' {
        seq!['`', 'n']
    } else if c == '\r' {
        seq!['`', 'r']
    } else if c == '\'' {
        seq!['`', '\'']
    } else if c == '`' {
        seq!['`', '`']
    } else {
        seq![c]
    }
}

/// The escaped form of a whole string: each character replaced by its escape
/// sequence, in order.
pub open spec fn escape_seq(s: Seq<char>) -> Seq<char>
    decreases s.len(),
{
    if s.len() == 0 {
        Seq::empty()
    } else {
        escape_char(s[0]) + escape_seq(s.subrange(1, s.len() as int))
    }
}

/// How PowerShell reads the character following a backtick: the letters `t`,
/// `n` and `r` name control characters, any other character stands for
/// itself.
pub open spec fn unescape_pair(c: char) -> char {
    if c == 't' {
        '\t'
    } else if c == 'n' {
        '\n'
    } else if c == 'r' {
        '\r'
    } else {
        c
    }
}

/// How the shell reads escaped literal text back: a backtick consumes the
/// character after it as an escape sequence, every other character stands for
/// itself. A backtick with nothing after it is dropped; escaped text produced
/// by `escape_seq` never ends that way.
pub open spec fn unescape_seq(s: Seq<char>) -> Seq<char>
    decreases s.len(),
{
    if s.len() == 0 {
        Seq::empty()
    } else if s[0] == '`' && s.len() >= 2 {
        seq![unescape_pair(s[1])] + unescape_seq(s.subrange(2, s.len() as int))
    } else if s[0] == '`' {
        Seq::empty()
    } else {
        seq![s[0]] + unescape_seq(s.subrange(1, s.len() as int))
    }
}

/// Escaping distributes over appending one character at the end.
pub proof fn lemma_escape_snoc(s: Seq<char>, c: char)
    ensures
        escape_seq(s.push(c)) == escape_seq(s) + escape_char(c),
    decreases s.len(),
{
    if s.len() == 0 {
        assert(s.push(c).len() == 1);
        assert(s.push(c)[0] == c);
        assert(s.push(c).subrange(1, s.push(c).len() as int) =~= Seq::<char>::empty());
        assert(escape_seq(Seq::<char>::empty()) == Seq::<char>::empty());
        assert(escape_seq(s.push(c)) =~= escape_seq(s) + escape_char(c));
    } else {
        assert(s.push(c)[0] == s[0]);
        assert(s.push(c).subrange(1, s.push(c).len() as int) =~= s.subrange(
            1,
            s.len() as int,
        ).push(c));
        lemma_escape_snoc(s.subrange(1, s.len() as int), c);
        assert(escape_seq(s.push(c)) =~= escape_seq(s) + escape_char(c));
    }
}

/// A string with no special characters is its own escaped form, so such a
/// value may be embedded without rewriting.
pub proof fn lemma_escape_clean(s: Seq<char>)
    requires
        forall|i: int| 0 <= i < s.len() ==> !is_special(#[trigger] s[i]),
    ensures
        escape_seq(s) == s,
    decreases s.len(),
{
    if s.len() == 0 {
        assert(escape_seq(s) =~= s);
    } else {
        lemma_escape_clean(s.subrange(1, s.len() as int));
        assert(escape_seq(s) =~= s);
    }
}

/// Escaped text never holds a raw line break: newlines and carriage returns
/// are rewritten to backtick sequences, so a value embedded in a one-line
/// template cannot split the line or smuggle a second command into the
/// generated script.
pub proof fn lemma_escape_no_newline(s: Seq<char>)
    ensures
        forall|i: int|
            0 <= i < escape_seq(s).len() ==> #[trigger] escape_seq(s)[i] != '\n' && escape_seq(
                s,
            )[i] != '\r',
    decreases s.len(),
{
    if s.len() == 0 {
    } else {
        lemma_escape_no_newline(s.subrange(1, s.len() as int));
        assert forall|i: int| 0 <= i < escape_seq(s).len() implies #[trigger] escape_seq(s)[i]
            != '\n' && escape_seq(s)[i] != '\r' by {
            let head = escape_char(s[0]);
            let tail = escape_seq(s.subrange(1, s.len() as int));
            if i < head.len() {
                assert(escape_seq(s)[i] == head[i]);
            } else {
                assert(escape_seq(s)[i] == tail[i - head.len()]);
            }
        }
    }
}

/// The round-trip law: reading the escaped text back the way the shell reads
/// a single-quoted literal yields the original string, for every string,
/// including the empty string and strings holding quotes, backticks, tabs,
/// newlines and carriage returns.
pub proof fn lemma_unescape_escape(s: Seq<char>)
    ensures
        unescape_seq(escape_seq(s)) == s,
    decreases s.len(),
{
    if s.len() == 0 {
    } else {
        let c = s[0];
        let rest = s.subrange(1, s.len() as int);
        let t = escape_seq(s);
        lemma_unescape_escape(rest);
        if is_special(c) {
            assert(t[0] == '`');
            assert(t[1] == escape_char(c)[1]);
            assert(unescape_pair(escape_char(c)[1]) == c);
            assert(t.subrange(2, t.len() as int) =~= escape_seq(rest));
            assert(unescape_seq(t) =~= s);
        } else {
            assert(t[0] == c && c != '`');
            assert(t.subrange(1, t.len() as int) =~= escape_seq(rest));
            assert(unescape_seq(t) =~= s);
        }
    }
}

/// Escapes a value for embedding inside a PowerShell single-quoted literal.
/// A string free of special characters is returned unchanged; otherwise each
/// special character is replaced by its backtick escape sequence.
pub fn powershell_escape(s: &str) -> (r: String)
    ensures
        r@ == escape_seq(s@),
{
    let n: usize = s.unicode_len();
    let mut has_special: bool = false;
    let mut i: usize = 0;
    while i < n
        invariant
            n == s@.len(),
            i <= n,
            has_special <==> (exists|j: int| 0 <= j < i && is_special(#[trigger] s@[j])),
        decreases n - i,
    {
        let c = s.get_char(i);
        if c == '\t' || c == '\n' || c == '\r' || c == '\'' || c == '`' {
            has_special = true;
        }
        i = i + 1;
    }
    if !has_special {
        proof {
            lemma_escape_clean(s@);
        }
        return s.to_owned();
    }
    let mut es = String::new();
    let mut k: usize = 0;
    while k < n
        invariant
            n == s@.len(),
            k <= n,
            es@ == escape_seq(s@.subrange(0, k as int)),
        decreases n - k,
    {
        let c = s.get_char(k);
        if c == '\t' {
            es.push('`');
            es.push('t');
        } else if c == '\n' {
            es.push('`');
            es.push('n');
        } else if c == '\r' {
            es.push('`');
            es.push('r');
        } else if c == '\'' {
            es.push('`');
            es.push('\'');
        } else if c == '`' {
            es.push('`');
            es.push('`');
        } else {
            es.push(c);
        }
        proof {
            lemma_escape_snoc(s@.subrange(0, k as int), c);
            assert(s@.subrange(0, k as int).push(c) =~= s@.subrange(0, k as int + 1));
            assert(es@ =~= escape_seq(s@.subrange(0, k as int + 1)));
        }
        k = k + 1;
    }
    proof {
        assert(s@.subrange(0, n as int) =~= s@);
    }
    es
}

} // verus!
