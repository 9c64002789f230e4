//! Who a request comes from: the user that its bearer token names.
//!
//! Signatures of tokens are checked elsewhere; what is decided here is which check
//! counts, and which user the claims of a token name.

use vstd::prelude::*;
use crate::codec::base64_url;
use crate::codec::decode_url;
use crate::ids::parse_id;
use crate::ids::parsed_id;
use crate::text::chars_of;
use crate::text::has_prefix;
use crate::text::text_starts_with;

verus! {

/// The claims of a token.
#[derive(Debug)]
pub struct Claims {
    /// The identity of the user, as text.
    pub sub: String,
    /// When the token expires, in seconds since the epoch.
    pub exp: usize,
    /// When the token was issued.
    pub iat: Option<usize>,
    pub email: Option<String>,
}

/// What came of checking the signature of a token in one way.
#[derive(Debug)]
pub enum Checked {
    /// There is no key to check the signature with in this way.
    NoKey,
    /// The signature is wrong, or the token has expired.
    Rejected,
    /// The signature is right, and these are the claims of the token.
    Valid(Claims),
}

/// The token of an `Authorization` header: what follows `Bearer `; nothing for a header
/// that begins otherwise.
pub open spec fn bearer(header: Seq<char>) -> Option<Seq<char>> {
    if has_prefix(header, "Bearer "@) {
        Some(header.skip(7))
    } else {
        None
    }
}

/// The token of an `Authorization` header.
pub fn bearer_token(header: &str) -> (r: Option<String>)
    ensures
        r.deep_view() == bearer(header@),
{
    proof {
        reveal_strlit("Bearer ");
    }
    if text_starts_with(header, "Bearer ") {
        let n = header.unicode_len();
        let token = String::from_str(header.substring_char(7, n));
        assert(token@ =~= header@.skip(7));
        Some(token)
    } else {
        None
    }
}

/// The user that the claims name: the identity that their subject is the text of.
pub fn user_id_of(claims: &Claims) -> (r: Option<u128>)
    ensures
        r == parsed_id(claims.sub@),
{
    parse_id(claims.sub.as_str())
}

/// The user that a token names, from what came of checking it with the public key and
/// with the secret, and from the claims that it holds unchecked. A token that the public
/// key confirms counts by that; else the secret decides, where there is one, and a token
/// that it rejects names no user; where there is no secret, the token is taken at its
/// word.
pub open spec fn user_named(rs256: Checked, hs256: Checked, unchecked: Option<Claims>) -> Option<u128> {
    match rs256 {
        Checked::Valid(claims) => parsed_id(claims.sub@),
        _ => match hs256 {
            Checked::Valid(claims) => parsed_id(claims.sub@),
            Checked::Rejected => None,
            Checked::NoKey => match unchecked {
                Some(claims) => parsed_id(claims.sub@),
                None => None,
            },
        },
    }
}

/// The user that a token names.
pub fn parse_user_id_from_token(rs256: &Checked, hs256: &Checked, unchecked: &Option<Claims>) -> (r:
    Option<u128>)
    ensures
        r == user_named(*rs256, *hs256, *unchecked),
{
    match rs256 {
        Checked::Valid(claims) => user_id_of(claims),
        _ => match hs256 {
            Checked::Valid(claims) => user_id_of(claims),
            Checked::Rejected => None,
            Checked::NoKey => match unchecked {
                Some(claims) => user_id_of(claims),
                None => None,
            },
        },
    }
}

/// The positions of the dots in a text, in order.
pub open spec fn dots(text: Seq<char>) -> Seq<int>
    decreases text.len(),
{
    if text.len() == 0 {
        Seq::empty()
    } else if text.last() == '.' {
        dots(text.drop_last()).push(text.len() - 1)
    } else {
        dots(text.drop_last())
    }
}

/// The middle part of a token of three parts with dots between them; nothing for a text
/// of another shape.
pub open spec fn payload_part(token: Seq<char>) -> Option<Seq<char>> {
    if dots(token).len() == 2 {
        Some(token.subrange(dots(token)[0] + 1, dots(token)[1]))
    } else {
        None
    }
}

/// The bytes that the middle part of a token encodes; nothing for a token that has not
/// three parts or whose middle part is no base64.
pub open spec fn payload_of(token: Seq<char>) -> Option<Seq<u8>> {
    match payload_part(token) {
        Some(part) => match base64_url(part) {
            Ok(bytes) => Some(bytes),
            Err(_) => None,
        },
        None => None,
    }
}

/// The middle part of a token of three parts.
pub fn token_payload_part(token: &str) -> (r: Option<String>)
    ensures
        r.deep_view() == payload_part(token@),
{
    let chars = chars_of(token);
    let n = chars.len();
    let mut first: usize = 0;
    let mut second: usize = 0;
    let mut count: usize = 0;
    let mut i: usize = 0;
    assert(chars@.take(0) =~= Seq::empty());
    while i < n
        invariant
            i <= n,
            n == chars@.len(),
            count <= i,
            count == dots(chars@.take(i as int)).len(),
            count >= 1 ==> first == dots(chars@.take(i as int))[0] && first < i,
            count >= 2 ==> second == dots(chars@.take(i as int))[1] && first < second < i,
        decreases n - i,
    {
        let ghost before = chars@.take(i as int);
        let ghost after = chars@.take(i + 1);
        assert(after.drop_last() =~= before);
        assert(after.last() == chars@[i as int]);
        if chars[i] == '.' {
            if count == 0 {
                first = i;
            } else if count == 1 {
                second = i;
            }
            count += 1;
        }
        i += 1;
    }
    assert(chars@.take(n as int) =~= chars@);
    if count == 2 {
        let part = String::from_str(token.substring_char(first + 1, second));
        Some(part)
    } else {
        None
    }
}

/// The bytes that the middle part of a token encodes.
pub fn token_payload(token: &str) -> (r: Option<Vec<u8>>)
    ensures
        r.deep_view() == payload_of(token@),
{
    match token_payload_part(token) {
        Some(part) => match decode_url(part.as_str()) {
            Ok(bytes) => {
                assert(bytes.deep_view() =~= bytes@);
                Some(bytes)
            },
            Err(_) => None,
        },
        None => None,
    }
}

} // verus!
