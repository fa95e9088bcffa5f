//! JSON text for strings, through `serde_json`.

use vstd::prelude::*;

verus! {

/// The lowercase hexadecimal digit for `n < 16`.
pub open spec fn hex_lower(n: int) -> char {
    if n < 10 {
        (48 + n) as char
    } else {
        (87 + n) as char
    }
}

/// How `serde_json` writes one character inside a JSON string: quote and
/// backslash are escaped, the control characters below U+0020 take their
/// short escape (`\b \t \n \f \r`) or `\u00XX` with lowercase hex digits,
/// every other character stands as it is.
pub open spec fn json_escaped_char(c: char) -> Seq<char> {
    if c == '"' {
        seq!['\\', '"']
    } else if c == '\\' {
        seq!['\\', '\\']
    } else if c == '\u{8}' {
        seq!['\\', 'b']
    } else if c == '\t' {
        seq!['\\', 't']
    } else if c == '\n' {
        seq!['\\', 'n']
    } else if c == '\u{c}' {
        seq!['\\', 'f']
    } else if c == '\r' {
        seq!['\\', 'r']
    } else if (c as int) < 0x20 {
        seq!['\\', 'u', '0', '0', hex_lower((c as int) / 16), hex_lower((c as int) % 16)]
    } else {
        seq![c]
    }
}

/// The escaped contents of a JSON string, character by character.
pub open spec fn json_escaped(s: Seq<char>) -> Seq<char>
    decreases s.len(),
{
    if s.len() == 0 {
        seq![]
    } else {
        json_escaped(s.drop_last()) + json_escaped_char(s.last())
    }
}

/// The JSON string literal for `s`: the escaped contents between quotes.
pub open spec fn json_string(s: Seq<char>) -> Seq<char> {
    seq!['"'] + json_escaped(s) + seq!['"']
}

/// No character of `s` is changed by escaping.
pub open spec fn json_plain(s: Seq<char>) -> bool {
    forall|i: int| 0 <= i < s.len() ==> json_escaped_char(#[trigger] s[i]) == seq![s[i]]
}

/// Escaping works character by character, so it distributes over
/// concatenation.
pub proof fn lemma_json_escaped_concat(a: Seq<char>, b: Seq<char>)
    ensures
        json_escaped(a + b) == json_escaped(a) + json_escaped(b),
    decreases b.len(),
{
    if b.len() == 0 {
        assert(a + b =~= a);
        assert(json_escaped(b) =~= Seq::<char>::empty());
        assert(json_escaped(a) + json_escaped(b) =~= json_escaped(a));
    } else {
        lemma_json_escaped_concat(a, b.drop_last());
        assert((a + b).drop_last() =~= a + b.drop_last());
        assert((a + b).last() == b.last());
        assert(json_escaped(a) + json_escaped(b) =~= json_escaped(a) + json_escaped(b.drop_last())
            + json_escaped_char(b.last()));
    }
}

/// A text that escaping leaves alone stands as it is.
pub proof fn lemma_json_escaped_plain(s: Seq<char>)
    requires
        json_plain(s),
    ensures
        json_escaped(s) == s,
    decreases s.len(),
{
    if s.len() > 0 {
        let t = s.drop_last();
        assert forall|i: int| 0 <= i < t.len() implies json_escaped_char(#[trigger] t[i])
            == seq![t[i]] by {
            assert(t[i] == s[i]);
        }
        lemma_json_escaped_plain(t);
        assert(json_escaped_char(s[s.len() - 1]) == seq![s[s.len() - 1]]);
        assert(t.push(s.last()) =~= s);
    } else {
        assert(s =~= Seq::<char>::empty());
    }
}

/// Calls `serde_json::to_string` on a `str`. Its contract claims what
/// `serde_json`'s serializer writes for a string (`format_escaped_str` with
/// the compact formatter): the literal of `json_string`. Serialising a `str`
/// into memory cannot fail, so the error arm is never taken.
#[verifier::external_body]
pub(crate) fn json_string_literal(s: &str) -> (r: String)
    ensures
        r@ == json_string(s@),
{
    match serde_json::to_string(s) {
        Ok(t) => t,
        Err(_) => String::new(),
    }
}

} // verus!
