//! Store identifiers on the wire.
//!
//! The store assigns each account a `u64` identifier; outside the store the
//! identifier travels as a 24-character lowercase hexadecimal string, the
//! shape of a document-store object identifier.  The top eight digits of
//! that string are always zero.
use vstd::prelude::*;

verus! {

/// The character for one hexadecimal digit (lowercase).
pub open spec fn nibble_char(d: u64) -> char {
    if d == 0 {
        '0'
    } else if d == 1 {
        '1'
    } else if d == 2 {
        '2'
    } else if d == 3 {
        '3'
    } else if d == 4 {
        '4'
    } else if d == 5 {
        '5'
    } else if d == 6 {
        '6'
    } else if d == 7 {
        '7'
    } else if d == 8 {
        '8'
    } else if d == 9 {
        '9'
    } else if d == 10 {
        'a'
    } else if d == 11 {
        'b'
    } else if d == 12 {
        'c'
    } else if d == 13 {
        'd'
    } else if d == 14 {
        'e'
    } else {
        'f'
    }
}

/// The `j`-th four-bit group of `n`, counting from the least significant.
pub open spec fn nibble_of(n: u64, j: int) -> u64 {
    (n >> ((4 * j) as u64)) & 0xf
}

/// The 24-character lowercase hexadecimal form of an identifier.
pub open spec fn id_hex(n: u64) -> Seq<char> {
    Seq::new(24, |i: int| if i < 8 {
        '0'
    } else {
        nibble_char(nibble_of(n, 23 - i))
    })
}

/// A character that can stand in a hexadecimal identifier.
pub open spec fn is_hex_char(c: char) -> bool {
    (48 <= c as u32 && c as u32 <= 57)  // '0' ..= '9'
    || (97 <= c as u32 && c as u32 <= 102)  // 'a' ..= 'f'
    || (65 <= c as u32 && c as u32 <= 70)  // 'A' ..= 'F'
}

/// Uppercase hexadecimal letters folded to lowercase; all else kept.
pub open spec fn lower_hex_char(c: char) -> char {
    if c == 'A' {
        'a'
    } else if c == 'B' {
        'b'
    } else if c == 'C' {
        'c'
    } else if c == 'D' {
        'd'
    } else if c == 'E' {
        'e'
    } else if c == 'F' {
        'f'
    } else {
        c
    }
}

/// A well-formed subject identifier: 24 lowercase hexadecimal characters.
pub open spec fn is_subject_hex(s: Seq<char>) -> bool {
    s.len() == 24 && forall|i: int|
        0 <= i < s.len() ==> is_hex_char(#[trigger] s[i]) && lower_hex_char(s[i]) == s[i]
}

pub fn nibble_str(d: u64) -> (r: &'static str)
    requires
        d < 16,
    ensures
        r@.len() == 1,
        r@[0] == nibble_char(d),
{
    proof {
        reveal_strlit("0");
        reveal_strlit("1");
        reveal_strlit("2");
        reveal_strlit("3");
        reveal_strlit("4");
        reveal_strlit("5");
        reveal_strlit("6");
        reveal_strlit("7");
        reveal_strlit("8");
        reveal_strlit("9");
        reveal_strlit("a");
        reveal_strlit("b");
        reveal_strlit("c");
        reveal_strlit("d");
        reveal_strlit("e");
        reveal_strlit("f");
    }
    if d == 0 {
        "0"
    } else if d == 1 {
        "1"
    } else if d == 2 {
        "2"
    } else if d == 3 {
        "3"
    } else if d == 4 {
        "4"
    } else if d == 5 {
        "5"
    } else if d == 6 {
        "6"
    } else if d == 7 {
        "7"
    } else if d == 8 {
        "8"
    } else if d == 9 {
        "9"
    } else if d == 10 {
        "a"
    } else if d == 11 {
        "b"
    } else if d == 12 {
        "c"
    } else if d == 13 {
        "d"
    } else if d == 14 {
        "e"
    } else {
        "f"
    }
}

/// Renders an identifier in its 24-character hexadecimal wire form.
pub fn id_hex_string(n: u64) -> (r: String)
    ensures
        r@ == id_hex(n),
{
    let mut out = String::new();
    let mut i: usize = 0;
    while i < 24
        invariant
            0 <= i <= 24,
            out@ == id_hex(n).take(i as int),
        decreases 24 - i,
    {
        let d: u64 = if i < 8 {
            0u64
        } else {
            (n >> ((4 * (23 - i)) as u64)) & 0xf
        };
        proof {
            if i >= 8 {
                let s = (4 * (23 - i)) as u64;
                assert(d == nibble_of(n, 23 - i as int));
                assert(d < 16) by (bit_vector)
                    requires
                        d == (n >> s) & 0xf,
                ;
            }
        }
        let c = nibble_str(d);
        out.append(c);
        proof {
            assert(out@ =~= id_hex(n).take(i + 1 as int));
        }
        i += 1;
    }
    proof {
        assert(out@ =~= id_hex(n));
    }
    out
}

/// Two identifiers with the same hexadecimal form are the same identifier.
pub proof fn lemma_id_hex_injective(a: u64, b: u64)
    requires
        id_hex(a) == id_hex(b),
    ensures
        a == b,
{
    assert forall|j: int| 0 <= j < 16 implies nibble_of(a, j) == nibble_of(b, j) by {
        let i = 23 - j;
        assert(8 <= i < 24);
        assert(id_hex(a)[i] == nibble_char(nibble_of(a, 23 - i)));
        assert(id_hex(b)[i] == nibble_char(nibble_of(b, 23 - i)));
        assert(id_hex(a)[i] == id_hex(b)[i]);
        let x = nibble_of(a, j);
        let y = nibble_of(b, j);
        let s = (4 * j) as u64;
        assert(x < 16 && y < 16) by (bit_vector)
            requires
                x == (a >> s) & 0xf,
                y == (b >> s) & 0xf,
        ;
        assert(nibble_char(x) == nibble_char(y));
    }
    assert(nibble_of(a, 0) == nibble_of(b, 0));
    assert(nibble_of(a, 1) == nibble_of(b, 1));
    assert(nibble_of(a, 2) == nibble_of(b, 2));
    assert(nibble_of(a, 3) == nibble_of(b, 3));
    assert(nibble_of(a, 4) == nibble_of(b, 4));
    assert(nibble_of(a, 5) == nibble_of(b, 5));
    assert(nibble_of(a, 6) == nibble_of(b, 6));
    assert(nibble_of(a, 7) == nibble_of(b, 7));
    assert(nibble_of(a, 8) == nibble_of(b, 8));
    assert(nibble_of(a, 9) == nibble_of(b, 9));
    assert(nibble_of(a, 10) == nibble_of(b, 10));
    assert(nibble_of(a, 11) == nibble_of(b, 11));
    assert(nibble_of(a, 12) == nibble_of(b, 12));
    assert(nibble_of(a, 13) == nibble_of(b, 13));
    assert(nibble_of(a, 14) == nibble_of(b, 14));
    assert(nibble_of(a, 15) == nibble_of(b, 15));
    assert(a == b) by (bit_vector)
        requires
            (a >> 0u64) & 0xf == (b >> 0u64) & 0xf,
            (a >> 4u64) & 0xf == (b >> 4u64) & 0xf,
            (a >> 8u64) & 0xf == (b >> 8u64) & 0xf,
            (a >> 12u64) & 0xf == (b >> 12u64) & 0xf,
            (a >> 16u64) & 0xf == (b >> 16u64) & 0xf,
            (a >> 20u64) & 0xf == (b >> 20u64) & 0xf,
            (a >> 24u64) & 0xf == (b >> 24u64) & 0xf,
            (a >> 28u64) & 0xf == (b >> 28u64) & 0xf,
            (a >> 32u64) & 0xf == (b >> 32u64) & 0xf,
            (a >> 36u64) & 0xf == (b >> 36u64) & 0xf,
            (a >> 40u64) & 0xf == (b >> 40u64) & 0xf,
            (a >> 44u64) & 0xf == (b >> 44u64) & 0xf,
            (a >> 48u64) & 0xf == (b >> 48u64) & 0xf,
            (a >> 52u64) & 0xf == (b >> 52u64) & 0xf,
            (a >> 56u64) & 0xf == (b >> 56u64) & 0xf,
            (a >> 60u64) & 0xf == (b >> 60u64) & 0xf,
    ;
}

/// The wire form of an identifier is itself a well-formed subject string.
pub proof fn lemma_id_hex_is_subject(n: u64)
    ensures
        is_subject_hex(id_hex(n)),
{
    assert forall|i: int| 0 <= i < id_hex(n).len() implies is_hex_char(#[trigger] id_hex(n)[i])
        && lower_hex_char(id_hex(n)[i]) == id_hex(n)[i] by {
        if i >= 8 {
            let d = nibble_of(n, 23 - i);
            let s = (4 * (23 - i)) as u64;
            assert(d < 16) by (bit_vector)
                requires
                    d == (n >> s) & 0xf,
            ;
        }
    }
}

} // verus!
