use vstd::prelude::*;

verus! {

/// The number of characters in a package identifier.
pub const PACKAGE_ID_LEN: usize = 10;

/// `b` is the code of an ASCII letter or digit.
pub open spec fn is_alphanumeric_byte(b: u8) -> bool {
    (0x41 <= b <= 0x5a) || (0x61 <= b <= 0x7a) || (0x30 <= b <= 0x39)
}

/// `c` is an ASCII letter or digit.
pub open spec fn is_alphanumeric_char(c: char) -> bool {
    ('A' <= c <= 'Z') || ('a' <= c <= 'z') || ('0' <= c <= '9')
}

/// A well-formed package identifier: ten ASCII letters or digits.
pub open spec fn is_package_id(s: Seq<char>) -> bool {
    &&& s.len() == PACKAGE_ID_LEN
    &&& forall|i: int| 0 <= i < s.len() ==> is_alphanumeric_char(#[trigger] s[i])
}

/// Relies on rand's `Alphanumeric` distribution, sampled with `thread_rng`:
/// each draw is one byte of `A-Z`, `a-z` or `0-9`.
#[verifier::external_body]
fn draw_alphanumeric() -> (b: u8)
    ensures
        is_alphanumeric_byte(b),
{
    rand::Rng::sample(&mut rand::thread_rng(), rand::distributions::Alphanumeric)
}

/// Relies on `String::push`: appends `c` at the end of `s`.
#[verifier::external_body]
fn push_char(s: &mut String, c: char)
    ensures
        final(s)@ == old(s)@.push(c),
{
    s.push(c)
}

/// The package identifier spelled by `draws`, one character per byte.
pub fn package_id_from_draws(draws: &Vec<u8>) -> (r: String)
    requires
        draws@.len() == PACKAGE_ID_LEN,
        forall|i: int| 0 <= i < draws@.len() ==> is_alphanumeric_byte(#[trigger] draws@[i]),
    ensures
        r@ == draws@.map_values(|b: u8| b as char),
        is_package_id(r@),
{
    let mut id = String::new();
    let mut n: usize = 0;
    while n < draws.len()
        invariant
            n <= draws@.len(),
            id@ == draws@.take(n as int).map_values(|b: u8| b as char),
        decreases draws@.len() - n,
    {
        push_char(&mut id, draws[n] as char);
        assert(draws@.take(n + 1).map_values(|b: u8| b as char) =~= id@);
        n = n + 1;
    }
    assert(draws@.take(draws@.len() as int) =~= draws@);
    assert forall|i: int| 0 <= i < id@.len() implies is_alphanumeric_char(#[trigger] id@[i]) by {
        assert(is_alphanumeric_byte(draws@[i]));
    }
    id
}

/// A fresh random package identifier. Nothing compares it with the
/// identifiers already issued: two packages may, rarely, draw the same one.
pub fn generate_package_id() -> (r: String)
    ensures
        is_package_id(r@),
{
    let mut draws: Vec<u8> = Vec::new();
    while draws.len() < PACKAGE_ID_LEN
        invariant
            draws@.len() <= PACKAGE_ID_LEN,
            forall|i: int| 0 <= i < draws@.len() ==> is_alphanumeric_byte(#[trigger] draws@[i]),
        decreases PACKAGE_ID_LEN - draws@.len(),
    {
        draws.push(draw_alphanumeric());
    }
    package_id_from_draws(&draws)
}

} // verus!
