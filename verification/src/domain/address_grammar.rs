//! The grammar of an e-mail address, as a predicate on texts.
//!
//! ```text
//! address    = local-part "@" domain
//! local-part = 1*( atext / "." )
//! domain     = label 1*( "." label )
//! label      = let-dig [ *61( let-dig / "-" ) let-dig ]
//! atext      = let-dig / "!" / "#" / "$" / "%" / "&" / "'" / "*" / "+" /
//!              "-" / "/" / "=" / "?" / "^" / "_" / "`" / "{" / "|" / "}" / "~"
//! let-dig    = "a".."z" / "A".."Z" / "0".."9"
//! ```
//!
//! This is the grammar that HTML gives for the value of an e-mail input,
//! with one restriction: the domain has at least two labels. Every accepted
//! text is ASCII and free of whitespace, quotes and comments.

use vstd::prelude::*;
use vstd::utf8::is_ascii_chars;

verus! {

/// An ASCII letter or digit.
pub open spec fn is_let_dig(c: char) -> bool {
    ||| 'a' <= c <= 'z'
    ||| 'A' <= c <= 'Z'
    ||| '0' <= c <= '9'
}

/// A character that may stand anywhere in a local part, the dot aside.
pub open spec fn is_atext(c: char) -> bool {
    ||| is_let_dig(c)
    ||| c == '!'
    ||| c == '#'
    ||| c == '$'
    ||| c == '%'
    ||| c == '&'
    ||| c == '\''
    ||| c == '*'
    ||| c == '+'
    ||| c == '-'
    ||| c == '/'
    ||| c == '='
    ||| c == '?'
    ||| c == '^'
    ||| c == '_'
    ||| c == '`'
    ||| c == '{'
    ||| c == '|'
    ||| c == '}'
    ||| c == '~'
}

/// A character of a local part.
pub open spec fn is_local_char(c: char) -> bool {
    is_atext(c) || c == '.'
}

/// A character of a label.
pub open spec fn is_label_char(c: char) -> bool {
    is_let_dig(c) || c == '-'
}

/// The longest label that a domain may hold.
pub const MAX_LABEL_LEN: usize = 63;

/// `local-part`: one or more characters, each `atext` or a dot.
pub open spec fn is_local_part(t: Seq<char>) -> bool {
    &&& t.len() >= 1
    &&& forall|i: int| 0 <= i < t.len() ==> is_local_char(#[trigger] t[i])
}

/// `label`: between 1 and 63 letters, digits and hyphens, with no hyphen at
/// either end.
pub open spec fn is_label(t: Seq<char>) -> bool {
    &&& 1 <= t.len() <= MAX_LABEL_LEN
    &&& is_let_dig(t.first())
    &&& is_let_dig(t.last())
    &&& forall|i: int| 0 <= i < t.len() ==> is_label_char(#[trigger] t[i])
}

/// `t[from..to]` is one of the pieces into which the dots of `t` cut it: it
/// holds no dot, and on each side it ends at a dot or at an end of `t`.
pub open spec fn is_piece(t: Seq<char>, from: int, to: int) -> bool {
    &&& 0 <= from <= to <= t.len()
    &&& from == 0 || t[from - 1] == '.'
    &&& to == t.len() || t[to] == '.'
    &&& forall|k: int| from <= k < to ==> #[trigger] t[k] != '.'
}

/// `domain`: at least one dot, and every piece between dots is a label.
pub open spec fn is_domain(t: Seq<char>) -> bool {
    &&& t.contains('.')
    &&& forall|from: int, to: int| #[trigger]
        is_piece(t, from, to) ==> is_label(t.subrange(from, to))
}

/// `s` splits at position `at` into a local part, an `@` and a domain.
pub open spec fn splits_at(s: Seq<char>, at: int) -> bool {
    &&& 0 <= at < s.len()
    &&& s[at] == '@'
    &&& is_local_part(s.subrange(0, at))
    &&& is_domain(s.subrange(at + 1, s.len() as int))
}

/// `address`: the texts that are e-mail addresses.
pub open spec fn is_valid_email(s: Seq<char>) -> bool {
    exists|at: int| splits_at(s, at)
}

/// Where the piece that holds position `i` begins.
spec fn piece_start(t: Seq<char>, i: int) -> int
    decreases i,
{
    if i <= 0 || t[i - 1] == '.' {
        i
    } else {
        piece_start(t, i - 1)
    }
}

/// Where the piece that holds position `i` ends.
spec fn piece_end(t: Seq<char>, i: int) -> int
    decreases t.len() - i,
{
    if i >= t.len() || t[i] == '.' {
        i
    } else {
        piece_end(t, i + 1)
    }
}

proof fn lemma_piece_start(t: Seq<char>, i: int)
    requires
        0 <= i <= t.len(),
    ensures
        0 <= piece_start(t, i) <= i,
        piece_start(t, i) == 0 || t[piece_start(t, i) - 1] == '.',
        forall|k: int| piece_start(t, i) <= k < i ==> #[trigger] t[k] != '.',
    decreases i,
{
    if i <= 0 || t[i - 1] == '.' {
    } else {
        lemma_piece_start(t, i - 1);
    }
}

proof fn lemma_piece_end(t: Seq<char>, i: int)
    requires
        0 <= i <= t.len(),
    ensures
        i <= piece_end(t, i) <= t.len(),
        piece_end(t, i) == t.len() || t[piece_end(t, i)] == '.',
        forall|k: int| i <= k < piece_end(t, i) ==> #[trigger] t[k] != '.',
    decreases t.len() - i,
{
    if i >= t.len() || t[i] == '.' {
    } else {
        lemma_piece_end(t, i + 1);
    }
}

/// A position that holds no dot lies in a piece.
proof fn lemma_piece_around(t: Seq<char>, i: int)
    requires
        0 <= i < t.len(),
        t[i] != '.',
    ensures
        is_piece(t, piece_start(t, i), piece_end(t, i)),
        piece_start(t, i) <= i < piece_end(t, i),
{
    lemma_piece_start(t, i);
    lemma_piece_end(t, i);
}

/// Every character of a domain is a dot or a character of a label.
pub proof fn lemma_domain_chars(t: Seq<char>, i: int)
    requires
        is_domain(t),
        0 <= i < t.len(),
    ensures
        t[i] == '.' || is_label_char(t[i]),
{
    if t[i] != '.' {
        lemma_piece_around(t, i);
        let from = piece_start(t, i);
        let to = piece_end(t, i);
        assert(is_label(t.subrange(from, to)));
        assert(t.subrange(from, to)[i - from] == t[i]);
    }
}

/// An address holds its `@` once: the position at which it splits is the
/// only one that holds an `@`, and every other character is one that a local
/// part may hold.
pub proof fn lemma_address_chars(s: Seq<char>, at: int, i: int)
    requires
        splits_at(s, at),
        0 <= i < s.len(),
    ensures
        i == at <==> s[i] == '@',
        i != at ==> is_local_char(s[i]),
{
    let local = s.subrange(0, at);
    let domain = s.subrange(at + 1, s.len() as int);
    if i < at {
        assert(local[i] == s[i]);
    } else if i > at {
        lemma_domain_chars(domain, i - at - 1);
        assert(domain[i - at - 1] == s[i]);
    }
}

/// Every character of an address is an ASCII character.
pub proof fn lemma_address_is_ascii(s: Seq<char>)
    requires
        is_valid_email(s),
    ensures
        is_ascii_chars(s),
{
    let at = choose|at: int| splits_at(s, at);
    assert forall|i: int| 0 <= i < s.len() implies '\0' <= #[trigger] s[i] <= '\u{7f}' by {
        lemma_address_chars(s, at, i);
    }
}

/// No dot follows some `@` of `s`: whichever `@` is taken to end the local
/// part, a text of which this holds has a domain without a dot.
pub open spec fn lacks_domain_dot(s: Seq<char>) -> bool {
    exists|at: int|
        0 <= at < s.len() && #[trigger] s[at] == '@' && forall|k: int|
            at < k < s.len() ==> #[trigger] s[k] != '.'
}

/// A text that is empty, or holds no `@`, or holds an `@` that no dot
/// follows, is not an address.
pub proof fn lemma_malformed_is_no_address(s: Seq<char>)
    requires
        s.len() == 0 || !s.contains('@') || lacks_domain_dot(s),
    ensures
        !is_valid_email(s),
{
    if is_valid_email(s) {
        let at = choose|at: int| splits_at(s, at);
        assert(s.contains('@'));
        let other = choose|other: int|
            0 <= other < s.len() && #[trigger] s[other] == '@' && forall|k: int|
                other < k < s.len() ==> #[trigger] s[k] != '.';
        lemma_address_chars(s, at, other);
        let domain = s.subrange(at + 1, s.len() as int);
        let dot = choose|dot: int| 0 <= dot < domain.len() && domain[dot] == '.';
        assert(s[at + 1 + dot] == '.');
    }
}

} // verus!
