//! Connections, and the peers whose messages the kernel has vouched for.

use vstd::prelude::*;
use crate::bytes;
use crate::bytes::{is_all_zero, same_bytes};
use crate::supervisor::deadline::SupervisorWireError;

verus! {

/// Service-lifetime-unique, nonzero number of one accepted transport connection.
#[derive(Debug, PartialEq, Eq)]
pub struct ConnectionGeneration {
    value: u64,
}

impl ConnectionGeneration {
    /// The number.
    pub closed spec fn view(&self) -> u64 {
        self.value
    }

    #[verifier::type_invariant]
    spec fn nonzero(self) -> bool {
        self.value != 0
    }

    /// Takes a number that the service has not handed out before; zero is refused.
    pub fn from_unique_service_value(value: u64) -> (r: Result<
        ConnectionGeneration,
        SupervisorWireError,
    >)
        ensures
            r matches Ok(generation) ==> generation@ == value && value != 0,
            r matches Err(error) ==> value == 0 && error
                == SupervisorWireError::ReplayOrSubstitution,
    {
        if value == 0 {
            Err(SupervisorWireError::ReplayOrSubstitution)
        } else {
            Ok(ConnectionGeneration { value })
        }
    }

    /// Spends the generation on the identity of its connection.
    pub fn into_identity(self) -> (r: ConnectionIdentity)
        ensures
            r.0 == self@,
            r.0 != 0,
    {
        proof {
            use_type_invariant(&self);
        }
        ConnectionIdentity(self.value)
    }
}

/// Identity of one connection.
#[derive(Clone, Copy, Debug, PartialEq, Eq, Structural)]
pub struct ConnectionIdentity(pub u64);

impl ConnectionIdentity {
    /// The number.
    pub fn get(self) -> (r: u64)
        ensures
            r == self.0,
    {
        self.0
    }
}

/// Client-visible session identifier; it carries no process authority.
#[derive(Clone, Copy, PartialEq, Eq)]
pub struct OpaqueSessionHandle(pub [u8; 32]);

impl OpaqueSessionHandle {
    /// The bytes of the handle.
    pub fn bytes(self) -> (r: [u8; 32])
        ensures
            r == self.0,
    {
        self.0
    }
}

/// Fresh unpredictable nonzero nonce of exactly one connection.
#[derive(Debug, PartialEq, Eq)]
pub struct FreshServiceNonce {
    value: [u8; 32],
}

impl FreshServiceNonce {
    /// The bytes of the nonce.
    pub closed spec fn view(&self) -> Seq<u8> {
        self.value@
    }

    #[verifier::type_invariant]
    spec fn nonzero(self) -> bool {
        !bytes::all_zero(self.value@)
    }

    /// Takes fresh random bytes; zero is refused.
    pub fn from_fresh_random(value: [u8; 32]) -> (r: Result<FreshServiceNonce, SupervisorWireError>)
        ensures
            r matches Ok(nonce) ==> nonce@ == value@ && !bytes::all_zero(value@),
            r matches Err(error) ==> bytes::all_zero(value@) && error
                == SupervisorWireError::ReplayOrSubstitution,
    {
        if is_all_zero(&value) {
            Err(SupervisorWireError::ReplayOrSubstitution)
        } else {
            Ok(FreshServiceNonce { value })
        }
    }

    /// The bytes of the nonce, which are not all zero.
    pub fn get(&self) -> (r: [u8; 32])
        ensures
            r@ == self@,
            !bytes::all_zero(r@),
    {
        proof {
            use_type_invariant(self);
        }
        self.value
    }
}

/// Code and credential facts derived from the audit trailer of one exact message.
#[derive(Clone, Copy, Debug, PartialEq, Eq)]
pub struct VerifiedPeer {
    pub connection_identity: ConnectionIdentity,
    pub audit_identity: [u8; 32],
    pub effective_uid: u32,
    pub effective_gid: u32,
    pub code_identity: [u8; 32],
}

impl VerifiedPeer {
    /// Whether the facts can belong to an authorized client: no identity is zero, and the user
    /// and group are neither root nor the reserved last number.
    pub open spec fn plausible(self) -> bool {
        &&& !bytes::all_zero(self.audit_identity@)
        &&& !bytes::all_zero(self.code_identity@)
        &&& 0 < self.effective_uid < u32::MAX
        &&& 0 < self.effective_gid < u32::MAX
    }

    /// Binds the facts of one authenticated message; implausible ones are refused.
    pub fn from_authenticated_message_audit_token(
        connection_identity: ConnectionIdentity,
        audit_identity: [u8; 32],
        effective_uid: u32,
        effective_gid: u32,
        code_identity: [u8; 32],
    ) -> (r: Result<VerifiedPeer, SupervisorWireError>)
        ensures
            ({
                let peer = VerifiedPeer {
                    connection_identity,
                    audit_identity,
                    effective_uid,
                    effective_gid,
                    code_identity,
                };
                r == (if peer.plausible() {
                    Ok(peer)
                } else {
                    Err(SupervisorWireError::PeerMismatch)
                })
            }),
    {
        if is_all_zero(&audit_identity) || effective_uid == 0 || effective_gid == 0 || effective_uid
            == u32::MAX || effective_gid == u32::MAX || is_all_zero(&code_identity) {
            return Err(SupervisorWireError::PeerMismatch);
        }
        Ok(
            VerifiedPeer {
                connection_identity,
                audit_identity,
                effective_uid,
                effective_gid,
                code_identity,
            },
        )
    }

    /// Number of the connection that the message was routed to.
    pub fn connection_generation(self) -> (r: u64)
        ensures
            r == self.connection_identity.0,
    {
        self.connection_identity.get()
    }

    /// Identity of the connection that the message was routed to.
    pub fn connection_identity(self) -> (r: ConnectionIdentity)
        ensures
            r == self.connection_identity,
    {
        self.connection_identity
    }

    /// Effective user of the sender.
    pub fn effective_uid(self) -> (r: u32)
        ensures
            r == self.effective_uid,
    {
        self.effective_uid
    }

    /// Effective group of the sender.
    pub fn effective_gid(self) -> (r: u32)
        ensures
            r == self.effective_gid,
    {
        self.effective_gid
    }

    /// Whether two messages come from the same peer on the same connection.
    pub fn same_peer(self, other: VerifiedPeer) -> (r: bool)
        ensures
            r == (self == other),
    {
        let same = self.connection_identity.0 == other.connection_identity.0 && same_bytes(
            &self.audit_identity,
            &other.audit_identity,
        ) && self.effective_uid == other.effective_uid && self.effective_gid == other.effective_gid
            && same_bytes(&self.code_identity, &other.code_identity);
        proof {
            if same {
                assert(self.audit_identity =~= other.audit_identity);
                assert(self.code_identity =~= other.code_identity);
            }
        }
        same
    }
}

/// A peer is plausible exactly where its token and its code are not zero, and its user and group
/// are ordinary ones.
pub proof fn law_plausible_peers(peer: VerifiedPeer)
    ensures
        peer.plausible() <==> {
            &&& exists|i: int| 0 <= i < 32 && peer.audit_identity@[i] != 0
            &&& exists|i: int| 0 <= i < 32 && peer.code_identity@[i] != 0
            &&& peer.effective_uid != 0 && peer.effective_uid != 0xffff_ffff
            &&& peer.effective_gid != 0 && peer.effective_gid != 0xffff_ffff
        },
{
}

} // verus!
