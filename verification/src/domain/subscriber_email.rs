//! An e-mail address that has passed the grammar.

use crate::domain::address_grammar::is_domain;
use crate::domain::address_grammar::is_label;
use crate::domain::address_grammar::is_label_char;
use crate::domain::address_grammar::is_let_dig;
use crate::domain::address_grammar::is_local_char;
use crate::domain::address_grammar::is_local_part;
use crate::domain::address_grammar::is_piece;
use crate::domain::address_grammar::is_valid_email;
use crate::domain::address_grammar::lacks_domain_dot;
use crate::domain::address_grammar::lemma_address_is_ascii;
use crate::domain::address_grammar::lemma_malformed_is_no_address;
use crate::domain::address_grammar::splits_at;
use crate::domain::address_grammar::MAX_LABEL_LEN;
use vstd::prelude::*;
use vstd::slice::slice_subrange;
use vstd::string::StringExecFns;
use vstd::utf8::is_ascii_chars_encode_utf8;

verus! {

/// The text that a sequence of ASCII bytes spells.
spec fn as_chars(bytes: Seq<u8>) -> Seq<char> {
    Seq::new(bytes.len(), |i: int| bytes[i] as char)
}

fn is_let_dig_byte(b: u8) -> (ok: bool)
    ensures
        ok == is_let_dig(b as char),
{
    let c = b as char;
    ('a' <= c && c <= 'z') || ('A' <= c && c <= 'Z') || ('0' <= c && c <= '9')
}

fn is_local_byte(b: u8) -> (ok: bool)
    ensures
        ok == is_local_char(b as char),
{
    let c = b as char;
    is_let_dig_byte(b) || c == '.' || c == '!' || c == '#' || c == '$' || c == '%' || c == '&'
        || c == '\'' || c == '*' || c == '+' || c == '-' || c == '/' || c == '=' || c == '?'
        || c == '^' || c == '_' || c == '`' || c == '{' || c == '|' || c == '}' || c == '~'
}

fn is_local_part_bytes(part: &[u8]) -> (ok: bool)
    ensures
        ok == is_local_part(as_chars(part@)),
{
    let n = part.len();
    let mut i: usize = 0;
    while i < n
        invariant
            i <= n,
            n == part@.len(),
            forall|k: int| 0 <= k < i ==> is_local_char(#[trigger] as_chars(part@)[k]),
        decreases n - i,
    {
        if !is_local_byte(part[i]) {
            assert(!is_local_char(as_chars(part@)[i as int]));
            return false;
        }
        i += 1;
    }
    n >= 1
}

fn is_label_bytes(label: &[u8]) -> (ok: bool)
    ensures
        ok == is_label(as_chars(label@)),
{
    let n = label.len();
    if n < 1 || n > MAX_LABEL_LEN {
        return false;
    }
    if !is_let_dig_byte(label[0]) || !is_let_dig_byte(label[n - 1]) {
        return false;
    }
    let mut i: usize = 0;
    while i < n
        invariant
            i <= n,
            n == label@.len(),
            forall|k: int| 0 <= k < i ==> is_label_char(#[trigger] as_chars(label@)[k]),
        decreases n - i,
    {
        let b = label[i];
        if !(is_let_dig_byte(b) || b as char == '-') {
            assert(!is_label_char(as_chars(label@)[i as int]));
            return false;
        }
        i += 1;
    }
    true
}

fn is_domain_bytes(domain: &[u8]) -> (ok: bool)
    ensures
        ok == is_domain(as_chars(domain@)),
{
    let ghost t = as_chars(domain@);
    let n = domain.len();
    let mut start: usize = 0;
    loop
        invariant
            n == domain@.len(),
            t == as_chars(domain@),
            start <= n,
            start == 0 || t[start - 1] == '.',
            forall|from: int, to: int| #[trigger]
                is_piece(t, from, to) && to < start ==> is_label(t.subrange(from, to)),
        decreases n - start,
    {
        let mut end = start;
        while end < n && domain[end] as char != '.'
            invariant
                n == domain@.len(),
                t == as_chars(domain@),
                start <= end <= n,
                forall|k: int| start <= k < end ==> #[trigger] t[k] != '.',
            decreases n - end,
        {
            end += 1;
        }
        assert(is_piece(t, start as int, end as int));
        let label = slice_subrange(domain, start, end);
        assert(as_chars(label@) =~= t.subrange(start as int, end as int));
        if !is_label_bytes(label) {
            return false;
        }
        assert forall|from: int, to: int| #[trigger]
            is_piece(t, from, to) && start <= to <= end implies from == start && to == end by {
            if to < end {
                assert(t[to] == '.');
            }
            if from < start {
                assert(t[start - 1] == '.');
            }
            if from > start {
                assert(t[from - 1] == '.');
            }
        }
        if end == n {
            proof {
                if start > 0 {
                    assert(t[start - 1] == '.');
                } else {
                    assert forall|k: int| 0 <= k < t.len() implies t[k] != '.' by {}
                }
            }
            return start > 0;
        }
        start = end + 1;
    }
}

/// Whether `text` is an e-mail address.
pub fn is_address(text: &str) -> (ok: bool)
    ensures
        ok == is_valid_email(text@),
{
    if !text.is_ascii() {
        proof {
            if is_valid_email(text@) {
                lemma_address_is_ascii(text@);
            }
        }
        return false;
    }
    let bytes = text.as_bytes();
    proof {
        is_ascii_chars_encode_utf8(text@);
        assert(as_chars(bytes@) =~= text@);
    }
    let n = bytes.len();
    let mut at: usize = 0;
    while at < n && bytes[at] as char != '@'
        invariant
            n == bytes@.len(),
            text@ == as_chars(bytes@),
            at <= n,
            forall|k: int| 0 <= k < at ==> #[trigger] text@[k] != '@',
        decreases n - at,
    {
        at += 1;
    }
    if at == n {
        return false;
    }
    let local = slice_subrange(bytes, 0, at);
    let domain = slice_subrange(bytes, at + 1, n);
    assert(as_chars(local@) =~= text@.subrange(0, at as int));
    assert(as_chars(domain@) =~= text@.subrange(at + 1, n as int));
    let ok = is_local_part_bytes(local) && is_domain_bytes(domain);
    proof {
        if ok {
            assert(splits_at(text@, at as int));
        } else {
            assert forall|other: int| !splits_at(text@, other) by {
                if splits_at(text@, other) && other != at {
                    assert(other > at);
                    assert(text@.subrange(0, other)[at as int] == '@');
                }
            }
        }
    }
    ok
}

/// The complaint about a text that is no e-mail address.
#[derive(Debug)]
pub struct ValidationError {
    /// The text that was turned down, as it was given.
    pub input: String,
}

impl ValidationError {
    /// A sentence that names the rejected text.
    pub fn message(&self) -> (text: String)
        ensures
            text@ == self.input@ + " is not a valid subscriber email."@,
    {
        self.input.clone().concat(" is not a valid subscriber email.")
    }
}

/// An e-mail address. Every value of this type holds a text that the
/// grammar accepts: `parse` is the only way to make one, and nothing changes
/// it afterwards.
#[derive(Debug)]
pub struct SubscriberEmail(String);

impl View for SubscriberEmail {
    type V = Seq<char>;

    closed spec fn view(&self) -> Seq<char> {
        self.0@
    }
}

impl SubscriberEmail {
    /// What holds of every value of this type.
    #[verifier::type_invariant]
    pub open spec fn holds_an_address(self) -> bool {
        is_valid_email(self@)
    }

    /// Accepts `s` exactly when it is an e-mail address, and keeps it as it
    /// is; otherwise hands it back in the error. In particular a text that
    /// is empty, or holds no `@`, or holds an `@` that no dot follows, is
    /// turned down.
    pub fn parse(s: String) -> (parsed: Result<SubscriberEmail, ValidationError>)
        ensures
            parsed is Ok <==> is_valid_email(s@),
            parsed matches Ok(email) ==> email@ == s@,
            parsed matches Err(error) ==> error.input@ == s@,
            s@.len() == 0 || !s@.contains('@') || lacks_domain_dot(s@) ==> parsed is Err,
    {
        proof {
            if s@.len() == 0 || !s@.contains('@') || lacks_domain_dot(s@) {
                lemma_malformed_is_no_address(s@);
            }
        }
        if is_address(s.as_str()) {
            Ok(SubscriberEmail(s))
        } else {
            Err(ValidationError { input: s })
        }
    }

    /// The address as text.
    pub fn as_ref(&self) -> (text: &str)
        ensures
            text@ == self@,
            is_valid_email(text@),
    {
        proof {
            use_type_invariant(self);
        }
        self.0.as_str()
    }
}

} // verus!
