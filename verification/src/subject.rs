//! The subject claim codec.
//!
//! Inside a token the subject travels as the JSON rendering of a store
//! object identifier, `{"$oid":"<24 hex digits>"}`.  Issuing embeds the
//! identifier's hexadecimal form in that shape; resolution parses it back
//! and folds stray uppercase hexadecimal digits to lowercase, as the
//! store's identifier parser would.
use vstd::prelude::*;
use crate::hexid::{is_hex_char, is_subject_hex, lower_hex_char};
use crate::strutil::{starts_with, str_starts_with};

verus! {

/// The JSON-quoted object-identifier form of a subject.
pub open spec fn subject_json(id: Seq<char>) -> Seq<char> {
    "{\"$oid\":\""@ + id + "\"}"@
}

/// The subject recovered from a `name` claim: exactly the quoted
/// object-identifier shape around 24 hexadecimal digits, folded to
/// lowercase; anything else is rejected.
pub open spec fn spec_parse_subject(s: Seq<char>) -> Option<Seq<char>> {
    if s.len() == 35 && starts_with(s, "{\"$oid\":\""@) && s[33] == '"' && s[34] == '}' && (
    forall|i: int| 9 <= i < 33 ==> is_hex_char(#[trigger] s[i])) {
        Some(Seq::new(24, |i: int| lower_hex_char(s[i + 9])))
    } else {
        None
    }
}

/// Wraps an identifier's hexadecimal form in the quoted object-identifier
/// shape carried by the `name` claim.
pub fn encode_subject(id: &str) -> (r: String)
    ensures
        r@ == subject_json(id@),
{
    let mut out: String = ("{\"$oid\":\"").to_owned();
    out.append(id);
    out.append("\"}");
    out
}

/// One hexadecimal digit as a one-character string, folded to lowercase;
/// `None` for any other character.
fn hex_char_str(c: char) -> (r: Option<&'static str>)
    ensures
        (r is Some) == is_hex_char(c),
        r matches Some(t) ==> t@.len() == 1 && t@[0] == lower_hex_char(c),
{
    proof {
        reveal_strlit("0");
        reveal_strlit("1");
        reveal_strlit("2");
        reveal_strlit("3");
        reveal_strlit("4");
        reveal_strlit("5");
        reveal_strlit("6");
        reveal_strlit("7");
        reveal_strlit("8");
        reveal_strlit("9");
        reveal_strlit("a");
        reveal_strlit("b");
        reveal_strlit("c");
        reveal_strlit("d");
        reveal_strlit("e");
        reveal_strlit("f");
    }
    match c {
        '0' => Some("0"),
        '1' => Some("1"),
        '2' => Some("2"),
        '3' => Some("3"),
        '4' => Some("4"),
        '5' => Some("5"),
        '6' => Some("6"),
        '7' => Some("7"),
        '8' => Some("8"),
        '9' => Some("9"),
        'a' | 'A' => Some("a"),
        'b' | 'B' => Some("b"),
        'c' | 'C' => Some("c"),
        'd' | 'D' => Some("d"),
        'e' | 'E' => Some("e"),
        'f' | 'F' => Some("f"),
        _ => None,
    }
}

/// Parses a `name` claim back into the subject's 24-character lowercase
/// hexadecimal form.
pub fn parse_subject(s: &str) -> (r: Option<String>)
    ensures
        (r is Some) == (spec_parse_subject(s@) is Some),
        r matches Some(x) ==> spec_parse_subject(s@) == Some(x@),
{
    proof {
        reveal_strlit("{\"$oid\":\"");
    }
    let n: usize = s.unicode_len();
    if n != 35 {
        return None;
    }
    if !str_starts_with(s, "{\"$oid\":\"") {
        return None;
    }
    if s.get_char(33) != '"' || s.get_char(34) != '}' {
        return None;
    }
    let mut out = String::new();
    let mut i: usize = 9;
    while i < 33
        invariant
            9 <= i <= 33,
            s@.len() == 35,
            out@ =~= Seq::new((i - 9) as nat, |k: int| lower_hex_char(s@[k + 9])),
            forall|j: int| 9 <= j < i ==> is_hex_char(#[trigger] s@[j]),
        decreases 33 - i,
    {
        let c = s.get_char(i);
        match hex_char_str(c) {
            Some(t) => {
                out.append(t);
                proof {
                    assert(out@ =~= Seq::new((i + 1 - 9) as nat, |k: int| lower_hex_char(s@[k + 9])));
                }
            },
            None => {
                return None;
            },
        }
        i += 1;
    }
    proof {
        assert(spec_parse_subject(s@) == Some(out@)) by {
            assert(out@ =~= Seq::new(24, |k: int| lower_hex_char(s@[k + 9])));
        }
    }
    Some(out)
}

/// Parsing undoes encoding: a well-formed subject identifier embedded in
/// the claim shape is recovered exactly.
pub proof fn lemma_subject_roundtrip(id: Seq<char>)
    requires
        is_subject_hex(id),
    ensures
        spec_parse_subject(subject_json(id)) == Some(id),
{
    reveal_strlit("{\"$oid\":\"");
    reveal_strlit("\"}");
    let s = subject_json(id);
    assert(s.len() == 35);
    assert(s.subrange(0, 9) =~= "{\"$oid\":\""@);
    assert(s[33] == '"');
    assert(s[34] == '}');
    assert forall|i: int| 9 <= i < 33 implies is_hex_char(#[trigger] s[i]) by {
        assert(s[i] == id[i - 9]);
    }
    assert(Seq::new(24, |i: int| lower_hex_char(s[i + 9])) =~= id);
}

} // verus!
