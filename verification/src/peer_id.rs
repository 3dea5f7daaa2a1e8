//! Peer identities.
//!
//! The rest of the node addresses peers by an opaque byte string. Whether such
//! a byte string denotes a peer identity is decided by the network stack's
//! parser; the library treats that decision as a named predicate on the bytes
//! and validates byte strings against it at the façade boundary.

use vstd::prelude::*;

verus! {

#[verifier::external_type_specification]
#[verifier::external_body]
pub struct ExPeerId(libp2p::PeerId);

#[verifier::external_type_specification]
#[verifier::external_body]
pub struct ExParseError(libp2p::identity::ParseError);

/// Whether a byte string is a well-formed peer identity, exactly as
/// `libp2p_identity::PeerId::from_bytes` decides it.
pub uninterp spec fn peer_id_wf(bytes: Seq<u8>) -> bool;

/// Relies on `libp2p_identity::PeerId::from_bytes`: it parses the bytes as a
/// multihash and accepts or rejects them on the bytes' content alone, so
/// whether it returns `Ok` is a function of the byte string.
pub assume_specification[ libp2p::PeerId::from_bytes ](
    data: &[u8],
) -> (r: Result<libp2p::PeerId, libp2p::identity::ParseError>)
    ensures
        r is Ok <==> peer_id_wf(data@),
;

/// Does this byte string denote a peer identity?
pub fn peer_id_bytes_valid(bytes: &Vec<u8>) -> (r: bool)
    ensures
        r == peer_id_wf(bytes@),
{
    libp2p::PeerId::from_bytes(bytes.as_slice()).is_ok()
}

} // verus!
