//! Principal and entity identifiers.
//!
//! Every record in the system is keyed by a 128-bit identifier that travels
//! in text as the usual hyphenated hexadecimal form (8-4-4-4-12 digits).
//! Parsing and printing are implemented and verified here, together with
//! the round-trip law that printing an identifier and parsing the result
//! gives the identifier back.

use vstd::prelude::*;
use vstd::arithmetic::div_mod::{
    lemma_basic_div,
    lemma_div_denominator,
    lemma_fundamental_div_mod,
    lemma_mod_bound,
};

verus! {

/// A 128-bit identifier, the numeric value behind the hyphenated text form.
#[derive(Debug, Clone, Copy, PartialEq, Eq, Hash, Structural)]
pub struct UuidValue {
    pub value: u128,
}

/// Sixteen to the `n`-th power.
pub open spec fn p16(n: int) -> int
    decreases n,
{
    if n <= 0 {
        1
    } else {
        16 * p16(n - 1)
    }
}

pub proof fn lemma_p16_pos(n: int)
    ensures
        p16(n) >= 1,
    decreases n,
{
    if n > 0 {
        lemma_p16_pos(n - 1);
    }
}

pub proof fn lemma_p16_mono(a: int, b: int)
    requires
        a <= b,
    ensures
        p16(a) <= p16(b),
    decreases b - a,
{
    if a < b {
        lemma_p16_mono(a, b - 1);
        lemma_p16_pos(b - 1);
    }
}

pub open spec fn spec_hex_digit(c: char) -> bool {
    ('0' <= c && c <= '9') || ('a' <= c && c <= 'f') || ('A' <= c && c <= 'F')
}

/// The numeric value of a hexadecimal digit.
pub open spec fn hex_val(c: char) -> int {
    if '0' <= c && c <= '9' {
        c as int - '0' as int
    } else if 'a' <= c && c <= 'f' {
        c as int - 'a' as int + 10
    } else {
        c as int - 'A' as int + 10
    }
}

/// The lowercase digit printed for a nibble.
pub open spec fn hex_char(d: int) -> char {
    if d == 0 {
        '0'
    } else if d == 1 {
        '1'
    } else if d == 2 {
        '2'
    } else if d == 3 {
        '3'
    } else if d == 4 {
        '4'
    } else if d == 5 {
        '5'
    } else if d == 6 {
        '6'
    } else if d == 7 {
        '7'
    } else if d == 8 {
        '8'
    } else if d == 9 {
        '9'
    } else if d == 10 {
        'a'
    } else if d == 11 {
        'b'
    } else if d == 12 {
        'c'
    } else if d == 13 {
        'd'
    } else if d == 14 {
        'e'
    } else {
        'f'
    }
}

/// Where the `j`-th of the 32 digits sits in the 36-character text.
pub open spec fn digit_index(j: int) -> int {
    if j < 8 {
        j
    } else if j < 12 {
        j + 1
    } else if j < 16 {
        j + 2
    } else if j < 20 {
        j + 3
    } else {
        j + 4
    }
}

/// Which of the 32 digits sits at text position `i` (undefined at hyphens).
pub open spec fn digit_of_index(i: int) -> int {
    if i < 8 {
        i
    } else if i < 13 {
        i - 1
    } else if i < 18 {
        i - 2
    } else if i < 23 {
        i - 3
    } else {
        i - 4
    }
}

/// How many hyphens precede text position `i`.
pub open spec fn hyphens_before(i: int) -> int {
    if i <= 8 {
        0
    } else if i <= 13 {
        1
    } else if i <= 18 {
        2
    } else {
        if i <= 23 {
            3
        } else {
            4
        }
    }
}

pub open spec fn spec_is_hyphen_index(i: int) -> bool {
    i == 8 || i == 13 || i == 18 || i == 23
}

/// The text form is well formed: 36 characters, hyphens at the four fixed
/// positions, hexadecimal digits everywhere else.
pub open spec fn spec_uuid_well_formed(s: Seq<char>) -> bool {
    &&& s.len() == 36
    &&& s[8] == '-'
    &&& s[13] == '-'
    &&& s[18] == '-'
    &&& s[23] == '-'
    &&& forall|j: int| 0 <= j < 32 ==> spec_hex_digit(#[trigger] s[digit_index(j)])
}

/// The value of the first `n` digits, read most significant first.
pub open spec fn uuid_prefix_value(s: Seq<char>, n: int) -> int
    decreases n,
{
    if n <= 0 {
        0
    } else {
        uuid_prefix_value(s, n - 1) * 16 + hex_val(s[digit_index(n - 1)])
    }
}

/// What parsing the text form yields: the digits' value, or nothing when
/// the text is not well formed.
pub open spec fn spec_parse_uuid(s: Seq<char>) -> Option<UuidValue> {
    if spec_uuid_well_formed(s) {
        Some(UuidValue { value: uuid_prefix_value(s, 32) as u128 })
    } else {
        None
    }
}

/// The `j`-th nibble of `v`, most significant first.
pub open spec fn nibble(v: int, j: int) -> int {
    (v / p16(31 - j)) % 16
}

/// The canonical lowercase hyphenated text of an identifier.
pub open spec fn spec_format_uuid(u: UuidValue) -> Seq<char> {
    Seq::new(
        36,
        |i: int|
            if spec_is_hyphen_index(i) {
                '-'
            } else {
                hex_char(nibble(u.value as int, digit_of_index(i)))
            },
    )
}

fn hex_digit_value(c: char) -> (r: Option<u8>)
    ensures
        match r {
            Some(d) => spec_hex_digit(c) && d as int == hex_val(c) && d < 16,
            None => !spec_hex_digit(c),
        },
{
    if '0' <= c && c <= '9' {
        Some(((c as u32) - ('0' as u32)) as u8)
    } else if 'a' <= c && c <= 'f' {
        Some((((c as u32) - ('a' as u32)) + 10) as u8)
    } else if 'A' <= c && c <= 'F' {
        Some((((c as u32) - ('A' as u32)) + 10) as u8)
    } else {
        None
    }
}

fn digit_index_exec(j: usize) -> (r: usize)
    requires
        j < 32,
    ensures
        r as int == digit_index(j as int),
        r < 36,
{
    if j < 8 {
        j
    } else if j < 12 {
        j + 1
    } else if j < 16 {
        j + 2
    } else if j < 20 {
        j + 3
    } else {
        j + 4
    }
}

/// Parse the hyphenated text form of an identifier.
pub fn parse_uuid(s: &str) -> (r: Option<UuidValue>)
    ensures
        r == spec_parse_uuid(s@),
{
    let len = s.unicode_len();
    if len != 36 {
        return None;
    }
    if s.get_char(8) != '-' || s.get_char(13) != '-' || s.get_char(18) != '-' || s.get_char(23)
        != '-' {
        return None;
    }
    let mut acc: u128 = 0;
    let mut j: usize = 0;
    while j < 32
        invariant
            s@.len() == 36,
            s@[8] == '-',
            s@[13] == '-',
            s@[18] == '-',
            s@[23] == '-',
            j <= 32,
            acc as int == uuid_prefix_value(s@, j as int),
            forall|j2: int| 0 <= j2 < j ==> spec_hex_digit(#[trigger] s@[digit_index(j2)]),
        decreases 32 - j,
    {
        let idx = digit_index_exec(j);
        let c = s.get_char(idx);
        let d = match hex_digit_value(c) {
            Some(d) => d,
            None => {
                assert(!spec_uuid_well_formed(s@)) by {
                    assert(!spec_hex_digit(s@[digit_index(j as int)]));
                }
                return None;
            },
        };
        proof {
            lemma_prefix_value_bound(s@, j as int);
            lemma_p16_mono(j as int, 31);
            reveal_with_fuel(p16, 33);
        }
        acc = acc * 16 + (d as u128);
        j += 1;
    }
    assert(spec_uuid_well_formed(s@));
    Some(UuidValue { value: acc })
}

/// The first `n` digits, when each is hexadecimal, stay under the
/// `n`-digit place value.
proof fn lemma_prefix_value_bound(s: Seq<char>, n: int)
    requires
        0 <= n,
        forall|j: int| 0 <= j < n ==> spec_hex_digit(#[trigger] s[digit_index(j)]),
    ensures
        0 <= uuid_prefix_value(s, n) < p16(n),
    decreases n,
{
    if n > 0 {
        lemma_prefix_value_bound(s, n - 1);
        assert(spec_hex_digit(s[digit_index(n - 1)]));
    }
}

fn hex_digit_str(d: u8) -> (r: &'static str)
    requires
        d < 16,
    ensures
        r@.len() == 1,
        r@[0] == hex_char(d as int),
{
    proof {
        reveal_strlit("0");
        reveal_strlit("1");
        reveal_strlit("2");
        reveal_strlit("3");
        reveal_strlit("4");
        reveal_strlit("5");
        reveal_strlit("6");
        reveal_strlit("7");
        reveal_strlit("8");
        reveal_strlit("9");
        reveal_strlit("a");
        reveal_strlit("b");
        reveal_strlit("c");
        reveal_strlit("d");
        reveal_strlit("e");
        reveal_strlit("f");
    }
    if d == 0 {
        "0"
    } else if d == 1 {
        "1"
    } else if d == 2 {
        "2"
    } else if d == 3 {
        "3"
    } else if d == 4 {
        "4"
    } else if d == 5 {
        "5"
    } else if d == 6 {
        "6"
    } else if d == 7 {
        "7"
    } else if d == 8 {
        "8"
    } else if d == 9 {
        "9"
    } else if d == 10 {
        "a"
    } else if d == 11 {
        "b"
    } else if d == 12 {
        "c"
    } else if d == 13 {
        "d"
    } else if d == 14 {
        "e"
    } else {
        "f"
    }
}

/// Print an identifier in its canonical lowercase hyphenated form.
pub fn format_uuid(u: &UuidValue) -> (r: String)
    ensures
        r@ == spec_format_uuid(*u),
{
    let ghost target = spec_format_uuid(*u);
    let mut out = String::from_str("");
    proof {
        reveal_strlit("");
        assert(out@ =~= target.subrange(0, 0));
    }
    let v = u.value;
    // sixteen to the thirty-first power: the place value of the first digit
    let mut pow: u128 = 0x1000_0000_0000_0000_0000_0000_0000_0000u128;
    proof {
        reveal_with_fuel(p16, 33);
        assert(pow as int == p16(31));
    }
    let mut i: usize = 0;
    let mut j: usize = 0;
    while i < 36
        invariant
            target == spec_format_uuid(*u),
            target.len() == 36,
            v == u.value,
            i <= 36,
            j as int == i as int - hyphens_before(i as int),
            j <= 32,
            j < 32 ==> pow as int == p16(31 - j as int),
            out@ =~= target.subrange(0, i as int),
        decreases 36 - i,
    {
        if i == 8 || i == 13 || i == 18 || i == 23 {
            proof {
                reveal_strlit("-");
            }
            out.append("-");
            assert(out@ =~= target.subrange(0, i as int + 1)) by {
                assert(target[i as int] == '-');
            }
        } else {
            assert(j < 32);
            proof {
                lemma_p16_pos(31 - j as int);
            }
            let d: u8 = ((v / pow) % 16) as u8;
            proof {
                lemma_mod_bound((v / pow) as int, 16);
                assert(d as int == nibble(v as int, j as int));
            }
            let piece = hex_digit_str(d);
            out.append(piece);
            assert(out@ =~= target.subrange(0, i as int + 1)) by {
                assert(target[i as int] == hex_char(nibble(v as int, digit_of_index(i as int))));
            }
            proof {
                if j < 31 {
                    assert(p16(31 - j as int) == 16 * p16(31 - j as int - 1));
                    assert(pow / 16 == p16(31 - j as int - 1)) by {
                        lemma_p16_pos(31 - j as int - 1);
                    }
                }
            }
            pow = pow / 16;
            j += 1;
        }
        i += 1;
    }
    proof {
        assert(out@ =~= target);
    }
    out
}

/// Printing is faithful: the text of an identifier is well formed and
/// parses back to the same identifier.
pub proof fn lemma_uuid_round_trip(u: UuidValue)
    ensures
        spec_uuid_well_formed(spec_format_uuid(u)),
        spec_parse_uuid(spec_format_uuid(u)) == Some(u),
{
    let f = spec_format_uuid(u);
    let v = u.value as int;
    assert forall|j: int| 0 <= j < 32 implies spec_hex_digit(#[trigger] f[digit_index(j)]) by {
        assert(digit_of_index(digit_index(j)) == j);
        assert(f[digit_index(j)] == hex_char(nibble(v, j)));
        lemma_p16_pos(31 - j);
        lemma_mod_bound(v / p16(31 - j), 16);
    }
    assert(spec_uuid_well_formed(f));
    lemma_format_prefix_value(u, 32);
    reveal_with_fuel(p16, 33);
    assert(uuid_prefix_value(f, 32) == v / 1);
    assert(uuid_prefix_value(f, 32) == v);
}

/// The first `n` digits of the printed form carry the identifier's value
/// with the last `32 - n` nibbles divided away.
proof fn lemma_format_prefix_value(u: UuidValue, n: int)
    requires
        0 <= n <= 32,
    ensures
        uuid_prefix_value(spec_format_uuid(u), n) == (u.value as int) / p16(32 - n),
    decreases n,
{
    let f = spec_format_uuid(u);
    let v = u.value as int;
    if n == 0 {
        reveal_with_fuel(p16, 33);
        assert(v < p16(32)) by {
            assert(u.value <= u128::MAX);
        }
        lemma_basic_div(v, p16(32));
    } else {
        lemma_format_prefix_value(u, n - 1);
        let j = n - 1;
        assert(digit_of_index(digit_index(j)) == j);
        assert(f[digit_index(j)] == hex_char(nibble(v, j)));
        lemma_p16_pos(31 - j);
        lemma_mod_bound(v / p16(31 - j), 16);
        assert(hex_val(hex_char(nibble(v, j))) == nibble(v, j));
        let q = v / p16(31 - j);
        // one more division by sixteen steps from this digit's place value
        // to the previous prefix's
        assert(q / 16 == v / (p16(31 - j) * 16)) by {
            lemma_div_denominator(v, p16(31 - j), 16);
        }
        assert(q / 16 == v / p16(33 - n)) by {
            assert(p16(32 - j) == 16 * p16(31 - j));
            assert(p16(31 - j) * 16 == 16 * p16(31 - j));
        }
        assert(q == 16 * (q / 16) + q % 16) by {
            lemma_fundamental_div_mod(q, 16);
        }
        assert(uuid_prefix_value(f, n) == uuid_prefix_value(f, n - 1) * 16 + hex_val(
            f[digit_index(n - 1)],
        ));
        assert(uuid_prefix_value(f, n) == (q / 16) * 16 + q % 16);
        assert(uuid_prefix_value(f, n) == q);
    }
}

} // verus!
