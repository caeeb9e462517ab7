use vstd::prelude::*;
use vstd::string::StrSliceExecFns;
use vstd::string::StringExecFns;

verus! {

/// A lowercase hexadecimal digit.
pub open spec fn is_lower_hex_digit(c: char) -> bool {
    ('0' as int) <= (c as int) <= ('9' as int) || ('a' as int) <= (c as int) <= ('f' as int)
}

/// An uppercase hexadecimal digit.
pub open spec fn is_upper_hex_digit(c: char) -> bool {
    ('0' as int) <= (c as int) <= ('9' as int) || ('A' as int) <= (c as int) <= ('F' as int)
}

/// The uppercase form of a lowercase hex digit; other characters are kept.
pub open spec fn upper_hex_char(c: char) -> char {
    if c == 'a' {
        'A'
    } else if c == 'b' {
        'B'
    } else if c == 'c' {
        'C'
    } else if c == 'd' {
        'D'
    } else if c == 'e' {
        'E'
    } else if c == 'f' {
        'F'
    } else {
        c
    }
}

/// Relies on uuid::Uuid::new_v4 and its Display form: a fresh identifier
/// rendered as 36 characters in the hyphenated layout, whose first eight are
/// lowercase hex digits. Freshness is probabilistic, so nothing is promised
/// about collisions.
#[verifier::external_body]
pub fn fresh_uuid() -> (r: String)
    ensures
        r@.len() == 36,
        forall|i: int| 0 <= i < 8 ==> is_lower_hex_digit(r@[i]),
{
    uuid::Uuid::new_v4().to_string()
}

/// The one-character string holding the uppercase form of a lowercase hex
/// digit.
fn upper_hex_fragment(c: char) -> (r: &'static str)
    requires
        is_lower_hex_digit(c),
    ensures
        r@ =~= seq![upper_hex_char(c)],
{
    let s: &'static str = match c {
        '0' => "0",
        '1' => "1",
        '2' => "2",
        '3' => "3",
        '4' => "4",
        '5' => "5",
        '6' => "6",
        '7' => "7",
        '8' => "8",
        '9' => "9",
        'a' => "A",
        'b' => "B",
        'c' => "C",
        'd' => "D",
        'e' => "E",
        _ => {
            proof {
                assert(c == 'f');
            }
            "F"
        },
    };
    proof {
        reveal_strlit("0");
        reveal_strlit("1");
        reveal_strlit("2");
        reveal_strlit("3");
        reveal_strlit("4");
        reveal_strlit("5");
        reveal_strlit("6");
        reveal_strlit("7");
        reveal_strlit("8");
        reveal_strlit("9");
        reveal_strlit("A");
        reveal_strlit("B");
        reveal_strlit("C");
        reveal_strlit("D");
        reveal_strlit("E");
        reveal_strlit("F");
    }
    s
}

/// Generates an eight-character uppercase invite code: the uppercased first
/// eight hex digits of a fresh identifier. Collisions with earlier codes are
/// possible and are caught by the caller's freshness check, not here.
pub fn generate_invite_code() -> (r: String)
    ensures
        r@.len() == 8,
        forall|i: int| 0 <= i < 8 ==> is_upper_hex_digit(#[trigger] r@[i]),
{
    let token = fresh_uuid();
    let mut code = String::new();
    let mut i: usize = 0;
    while i < 8
        invariant
            token@.len() == 36,
            forall|k: int| 0 <= k < 8 ==> is_lower_hex_digit(#[trigger] token@[k]),
            0 <= i <= 8,
            code@.len() == i,
            forall|k: int| 0 <= k < i ==> #[trigger] code@[k] == upper_hex_char(token@[k]),
        decreases 8 - i,
    {
        let c = token.as_str().get_char(i);
        let frag = upper_hex_fragment(c);
        code.append(frag);
        i += 1;
    }
    proof {
        assert forall|i: int| 0 <= i < 8 implies is_upper_hex_digit(#[trigger] code@[i]) by {
            assert(is_lower_hex_digit(token@[i]));
        }
    }
    code
}

} // verus!
