//! Request correlation: the identifier that ties an error to the request
//! that produced it.
//!
//! The context is threaded explicitly: a request scope hands its
//! `RequestContext` to the code it runs, so two concurrent requests can never
//! observe each other's identifier.

use vstd::arithmetic::power2::pow2;
use vstd::prelude::*;

verus! {

/// The correlation scope visible to a piece of code: the identifier of the
/// request it runs for, or none when it runs outside any request.
#[derive(Clone, Copy, Debug, PartialEq, Eq, Structural)]
pub struct RequestContext {
    pub request_id: Option<u128>,
}

impl RequestContext {
    /// A context that belongs to no request.
    pub fn detached() -> (r: Self)
        ensures
            r.request_id is None,
    {
        RequestContext { request_id: None }
    }

    /// A context bound to `request_id`.
    pub fn bound(request_id: u128) -> (r: Self)
        ensures
            r.request_id == Some(request_id),
    {
        RequestContext { request_id: Some(request_id) }
    }
}

/// A version 4 (random) UUID in its 128-bit big-endian form: the version
/// nibble is 4 and the two variant bits are `10`.
pub open spec fn is_random_uuid(id: u128) -> bool {
    &&& (id >> 76u128) & 0xfu128 == 4u128
    &&& (id >> 62u128) & 0x3u128 == 2u128
}

/// A random UUID is never the nil UUID.
pub proof fn lemma_random_uuid_nonzero(id: u128)
    requires
        is_random_uuid(id),
    ensures
        id != 0,
{
    assert(id == 0u128 ==> (id >> 76u128) & 0xfu128 == 0u128) by (bit_vector);
}

/// The lowercase hexadecimal digit for `n` in `0..16`.
pub open spec fn hex_digit(n: int) -> char {
    seq!['0', '1', '2', '3', '4', '5', '6', '7', '8', '9', 'a', 'b', 'c', 'd', 'e', 'f'][n]
}

/// The `k`-th of the 32 hexadecimal digits of `id`, most significant first.
pub open spec fn uuid_nibble(id: u128, k: int) -> int {
    (id as int / pow2((4 * (31 - k)) as nat) as int) % 16
}

/// The hyphenated textual form of a UUID: 32 lowercase hexadecimal digits in
/// groups of 8, 4, 4, 4 and 12, separated by `-`.
pub open spec fn hyphenated(id: u128) -> Seq<char> {
    Seq::new(
        36,
        |i: int|
            if i == 8 || i == 13 || i == 18 || i == 23 {
                '-'
            } else {
                let k = if i < 8 {
                    i
                } else if i < 13 {
                    i - 1
                } else if i < 18 {
                    i - 2
                } else if i < 23 {
                    i - 3
                } else {
                    i - 4
                };
                hex_digit(uuid_nibble(id, k))
            },
    )
}

/// Relies on `uuid::Uuid::new_v4`, which masks a random 128-bit value and sets
/// the version to 4 and the variant to RFC 4122.
#[verifier::external_body]
fn fresh_uuid() -> (r: u128)
    ensures
        is_random_uuid(r),
{
    uuid::Uuid::new_v4().as_u128()
}

/// Relies on `uuid::Uuid`'s `Display`, which writes the hyphenated lowercase
/// form.
#[verifier::external_body]
pub(crate) fn uuid_text(id: u128) -> (r: String)
    ensures
        r@ == hyphenated(id),
{
    uuid::Uuid::from_u128(id).to_string()
}

/// Runs `f` inside the correlation scope of `request_id`: `f` receives the
/// context bound to that identifier, and its result is returned.
pub fn set_request_id<F, R>(request_id: u128, f: F) -> (r: R)
    where
        F: FnOnce(RequestContext) -> R,
    requires
        f.requires((RequestContext { request_id: Some(request_id) },)),
    ensures
        f.ensures((RequestContext { request_id: Some(request_id) },), r),
{
    let ctx = RequestContext::bound(request_id);
    f(ctx)
}

/// The identifier of the request that `ctx` belongs to; outside any request, a
/// freshly generated random one, which is bound nowhere.
pub fn get_request_id(ctx: &RequestContext) -> (r: u128)
    ensures
        ctx.request_id is Some ==> r == ctx.request_id->0,
        ctx.request_id is None ==> is_random_uuid(r) && r != 0,
{
    match ctx.request_id {
        Some(id) => id,
        None => {
            let id = fresh_uuid();
            proof {
                lemma_random_uuid_nonzero(id);
            }
            id
        },
    }
}

} // verus!
