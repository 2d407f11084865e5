//! Rules that every request passes before it is handled.

use vstd::prelude::*;

use crate::reply::Refusal;

pub mod admin_auth_middleware;
pub mod auth_fallback_guard;
pub mod auth_middleware;
pub mod bot_auth_middleware;
pub mod client;
pub mod client_guard;
pub mod csrf;
pub mod internal_proxy_guard;
pub mod ip_blocker;
pub mod origin_guard;
pub mod proxy;
pub mod registration_guard;
pub mod signup;
pub mod turnstile_middleware;
pub mod validation;
pub mod whitelist;

verus! {

/// What is done with a request.
#[derive(Clone, Copy, Debug, PartialEq, Eq)]
pub enum Guard {
    Pass,
    Refuse(Refusal),
}

/// Adds a piece to the body of a request that was read so far, unless the body would become
/// longer than `max`. The result says whether the piece was added.
pub fn read_body_bytes(body: &mut Vec<u8>, piece: &[u8], max: usize) -> (r: bool)
    ensures
        r == (old(body)@.len() + piece@.len() <= max),
        final(body)@ == (if r {
            old(body)@ + piece@
        } else {
            old(body)@
        }),
{
    if body.len() > max || piece.len() > max - body.len() {
        return false;
    }
    let ghost before = body@;
    let mut i: usize = 0;
    assert(before + piece@.take(0) =~= before);
    while i < piece.len()
        invariant
            i <= piece.len(),
            body@ == before + piece@.take(i as int),
        decreases piece.len() - i,
    {
        body.push(piece[i]);
        assert(body@ =~= before + piece@.take(i + 1));
        i += 1;
    }
    assert(piece@.take(i as int) =~= piece@);
    true
}

/// The body that is read from pieces, up to the first that does not fit.
pub open spec fn read_all(pieces: Seq<Seq<u8>>, max: int) -> Seq<u8>
    decreases pieces.len(),
{
    if pieces.len() == 0 {
        Seq::empty()
    } else {
        let before = read_all(pieces.drop_last(), max);
        if before.len() + pieces.last().len() <= max {
            before + pieces.last()
        } else {
            before
        }
    }
}

/// However many pieces come, the body never becomes longer than the limit.
pub proof fn law_bodies_are_bounded(pieces: Seq<Seq<u8>>, max: int)
    requires
        0 <= max,
    ensures
        read_all(pieces, max).len() <= max,
    decreases pieces.len(),
{
    if pieces.len() > 0 {
        law_bodies_are_bounded(pieces.drop_last(), max);
    }
}

/// A body that is within the bound is read whole, and a piece is kept exactly where it fits.
pub proof fn law_small_bodies_are_read_whole(pieces: Seq<Seq<u8>>, piece: Seq<u8>, max: int)
    ensures
        read_all(pieces, max).len() + piece.len() <= max ==> read_all(pieces.push(piece), max)
            == read_all(pieces, max) + piece,
        read_all(pieces, max).len() + piece.len() > max ==> read_all(pieces.push(piece), max)
            == read_all(pieces, max),
        read_all(Seq::empty(), max).len() == 0,
{
    assert(pieces.push(piece).drop_last() =~= pieces);
}

} // verus!
