use vstd::prelude::*;

verus! {

/// A digit of lower-case hexadecimal.
pub open spec fn is_lower_hex(c: char) -> bool {
    ('0' <= c && c <= '9') || ('a' <= c && c <= 'f')
}

/// Where the hyphens stand in a token.
pub open spec fn is_hyphen_place(i: int) -> bool {
    i == 8 || i == 13 || i == 18 || i == 23
}

/// The character `c` may stand at place `i` of a token: a hyphen at the
/// four places for hyphens, a digit everywhere else.
pub open spec fn fits_place(i: int, c: char) -> bool {
    if is_hyphen_place(i) {
        c == '-'
    } else {
        is_lower_hex(c)
    }
}

/// The shape of a session token: a random identifier of 128 bits in its
/// usual writing, 32 digits of lower-case hexadecimal in groups of 8, 4, 4,
/// 4 and 12 with hyphens between them. The first digit of the third group
/// is `4` and the first of the fourth is one of `8`, `9`, `a`, `b`: these
/// six bits say how the identifier was made and are not random.
pub open spec fn is_session_token(token: Seq<char>) -> bool {
    &&& token.len() == 36
    &&& forall|i: int| 0 <= i < 36 ==> fits_place(i, #[trigger] token[i])
    &&& token[14] == '4'
    &&& (token[19] == '8' || token[19] == '9' || token[19] == 'a' || token[19] == 'b')
}

/// `uuid::Uuid::new_v4`, and `Display` of the identifier it returns: a
/// fresh random identifier in its usual writing. The contract says what
/// holds of every identifier made this way, its shape, and nothing of its
/// value. The call reads the system's source of random numbers and panics
/// where that source fails.
#[verifier::external_body]
pub(crate) fn fresh_token() -> (token: String)
    ensures
        is_session_token(token@),
{
    uuid::Uuid::new_v4().to_string()
}

} // verus!
