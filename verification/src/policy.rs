//! Peer trust policy: the verified manifest narrowed to a fixed allow-list
//! of inbound peer roles.

use vstd::prelude::*;

use crate::identity::PeerIdentity;
use crate::identity::bytes_eq;
use crate::identity::copy_bytes;
use crate::manifest::TrustManifest;

verus! {

/// The views of a list of role names.
pub open spec fn role_views(roles: Seq<Vec<u8>>) -> Seq<Seq<u8>> {
    roles.map_values(|r: Vec<u8>| r@)
}

/// Every allow-listed role is bound by the manifest map.
pub open spec fn all_roles_known(m: Map<Seq<u8>, Seq<u8>>, allow: Seq<Seq<u8>>) -> bool {
    forall|k: int| 0 <= k < allow.len() ==> m.dom().contains(#[trigger] allow[k])
}

/// The identities the manifest map assigns to the allow-listed roles.
pub open spec fn allowed_identities(m: Map<Seq<u8>, Seq<u8>>, allow: Seq<Seq<u8>>) -> Set<Seq<u8>> {
    Set::new(
        |id: Seq<u8>|
            exists|k: int|
                0 <= k < allow.len() && m.dom().contains(#[trigger] allow[k]) && m[allow[k]] == id,
    )
}

/// An allow-listed role has no entry in the trust manifest. Fatal to policy
/// construction: a partial trust policy is never built.
#[derive(Debug)]
pub struct UnknownPeerRoleError {
    pub role: Vec<u8>,
}

/// The peer identities one service surface accepts, with the
/// attestation-authority root of trust their evidence must chain to.
#[derive(Debug)]
pub struct PeerTrustPolicy {
    pub accepted: Vec<PeerIdentity>,
    pub root_of_trust: Vec<u8>,
}

/// The measurements of a list of identities, as a set (duplicates collapse).
pub open spec fn identity_set(ids: Seq<PeerIdentity>) -> Set<Seq<u8>> {
    Set::new(|id: Seq<u8>| exists|k: int| 0 <= k < ids.len() && #[trigger] ids[k]@ == id)
}

impl PeerTrustPolicy {
    /// The accepted identities, as a set (duplicates collapse).
    pub open spec fn accepted_set(&self) -> Set<Seq<u8>> {
        identity_set(self.accepted@)
    }

    /// The accepted list holds no identity twice.
    pub open spec fn wf(&self) -> bool {
        forall|i: int, j: int|
            0 <= i < j < self.accepted@.len() ==> self.accepted@[i]@ != self.accepted@[j]@
    }

    /// Whether the policy accepts a presented identity.
    pub fn accepts(&self, presented: &PeerIdentity) -> (r: bool)
        ensures
            r == self.accepted_set().contains(presented@),
    {
        let mut k: usize = 0;
        while k < self.accepted.len()
            invariant
                0 <= k <= self.accepted@.len(),
                forall|j: int| 0 <= j < k ==> #[trigger] self.accepted@[j]@ != presented@,
            decreases self.accepted@.len() - k,
        {
            if bytes_eq(
                self.accepted[k].measurement.as_slice(),
                presented.measurement.as_slice(),
            ) {
                proof {
                    assert(self.accepted@[k as int]@ == presented@);
                }
                return true;
            }
            k = k + 1;
        }
        false
    }
}

/// Whether one of the listed identities has the given measurement.
fn contains_identity(ids: &Vec<PeerIdentity>, id: &PeerIdentity) -> (r: bool)
    ensures
        r == exists|i: int| 0 <= i < ids@.len() && #[trigger] ids@[i]@ == id@,
{
    let mut i: usize = 0;
    while i < ids.len()
        invariant
            0 <= i <= ids@.len(),
            forall|j: int| 0 <= j < i ==> #[trigger] ids@[j]@ != id@,
        decreases ids@.len() - i,
    {
        if bytes_eq(ids[i].measurement.as_slice(), id.measurement.as_slice()) {
            proof {
                assert(ids@[i as int]@ == id@);
            }
            return true;
        }
        i = i + 1;
    }
    false
}

/// Derives the peer trust policy for one service surface: looks up every
/// allow-listed role in the manifest and collects the identities found, as a
/// set. Any allow-listed role absent from the manifest is a fatal
/// configuration error; no partial policy is returned.
#[verifier::rlimit(50)]
pub fn build_policy(
    manifest: &TrustManifest,
    allow_list: &Vec<Vec<u8>>,
    root_of_trust: Vec<u8>,
) -> (r: Result<PeerTrustPolicy, UnknownPeerRoleError>)
    requires
        manifest.wf(),
    ensures
        match r {
            Ok(p) => {
                &&& all_roles_known(manifest@, role_views(allow_list@))
                &&& p.wf()
                &&& p.accepted_set() == allowed_identities(manifest@, role_views(allow_list@))
                &&& p.root_of_trust@ == root_of_trust@
            },
            Err(e) => exists|k: int|
                {
                    &&& 0 <= k < allow_list@.len()
                    &&& !manifest@.dom().contains(#[trigger] allow_list@[k]@)
                    &&& (forall|j: int|
                        0 <= j < k ==> manifest@.dom().contains(#[trigger] allow_list@[j]@))
                    &&& e.role@ == allow_list@[k]@
                },
        },
{
    let mut accepted: Vec<PeerIdentity> = Vec::new();
    let mut k: usize = 0;
    while k < allow_list.len()
        invariant
            manifest.wf(),
            0 <= k <= allow_list@.len(),
            forall|j: int| 0 <= j < k ==> manifest@.dom().contains(#[trigger] allow_list@[j]@),
            forall|i: int|
                0 <= i < accepted@.len() ==> exists|j: int|
                    0 <= j < k && manifest@.dom().contains(#[trigger] allow_list@[j]@)
                        && manifest@[allow_list@[j]@] == #[trigger] accepted@[i]@,
            forall|j: int|
                0 <= j < k ==> exists|i: int|
                    0 <= i < accepted@.len() && #[trigger] accepted@[i]@ == manifest@[#[trigger] allow_list@[j]@],
            forall|i: int, j: int|
                0 <= i < j < accepted@.len() ==> accepted@[i]@ != accepted@[j]@,
        decreases allow_list@.len() - k,
    {
        let role = allow_list[k].as_slice();
        match manifest.lookup(role) {
            None => {
                return Err(UnknownPeerRoleError { role: copy_bytes(role) });
            },
            Some(id) => {
                let ghost kv = k as int;
                let ghost prev = accepted@;
                if !contains_identity(&accepted, id) {
                    accepted.push(id.clone());
                    proof {
                        assert(accepted@[prev.len() as int]@ == manifest@[allow_list@[kv]@]);
                        assert forall|j: int| 0 <= j < kv + 1 implies exists|i: int|
                            0 <= i < accepted@.len() && #[trigger] accepted@[i]@
                                == manifest@[#[trigger] allow_list@[j]@] by {
                            if j < kv {
                                let i = choose|i: int|
                                    0 <= i < prev.len() && #[trigger] prev[i]@
                                        == manifest@[allow_list@[j]@];
                                assert(accepted@[i]@ == manifest@[allow_list@[j]@]);
                            } else {
                                assert(accepted@[prev.len() as int]@
                                    == manifest@[allow_list@[j]@]);
                            }
                        }
                    }
                } else {
                    proof {
                        let i = choose|i: int|
                            0 <= i < accepted@.len() && #[trigger] accepted@[i]@ == id@;
                        assert(accepted@[i]@ == manifest@[allow_list@[kv]@]);
                    }
                }
            },
        }
        k = k + 1;
    }
    proof {
        let allowv = role_views(allow_list@);
        let target = allowed_identities(manifest@, allowv);
        let ids = accepted@;
        assert forall|id: Seq<u8>| identity_set(ids).contains(id) implies target.contains(id) by {
            let i = choose|i: int| 0 <= i < ids.len() && #[trigger] ids[i]@ == id;
            let j = choose|j: int|
                0 <= j < allow_list@.len() && manifest@.dom().contains(#[trigger] allow_list@[j]@)
                    && manifest@[allow_list@[j]@] == ids[i]@;
            assert(allowv[j] == allow_list@[j]@);
            assert(manifest@.dom().contains(allowv[j]) && manifest@[allowv[j]] == id);
        }
        assert forall|id: Seq<u8>| target.contains(id) implies identity_set(ids).contains(id) by {
            let j = choose|j: int|
                0 <= j < allowv.len() && manifest@.dom().contains(#[trigger] allowv[j])
                    && manifest@[allowv[j]] == id;
            assert(allowv[j] == allow_list@[j]@);
            let i = choose|i: int|
                0 <= i < ids.len() && #[trigger] ids[i]@ == manifest@[allow_list@[j]@];
            assert(ids[i]@ == id);
        }
        assert(identity_set(ids) =~= target);
    }
    Ok(PeerTrustPolicy { accepted, root_of_trust })
}

/// Law: a policy whose accepted set is the one `build_policy` derives from a
/// verified manifest accepts exactly the identities the manifest assigns to
/// the allow-listed roles — each of them, and no others.
pub proof fn lemma_policy_accepts_exactly_allowed(
    m: TrustManifest,
    allow: Seq<Seq<u8>>,
    p: PeerTrustPolicy,
)
    requires
        m.wf(),
        all_roles_known(m@, allow),
        p.accepted_set() == allowed_identities(m@, allow),
    ensures
        forall|k: int| 0 <= k < allow.len() ==> p.accepted_set().contains(m@[#[trigger] allow[k]]),
        forall|id: Seq<u8>|
            p.accepted_set().contains(id) ==> exists|k: int|
                0 <= k < allow.len() && m@[#[trigger] allow[k]] == id,
{
    assert forall|k: int| 0 <= k < allow.len() implies p.accepted_set().contains(
        m@[#[trigger] allow[k]],
    ) by {
        assert(m.view().dom().contains(allow[k]));
        assert(allowed_identities(m@, allow).contains(m@[allow[k]]));
    }
    assert forall|id: Seq<u8>| p.accepted_set().contains(id) implies exists|k: int|
        0 <= k < allow.len() && m@[#[trigger] allow[k]] == id by {
        assert(allowed_identities(m@, allow).contains(id));
    }
}

} // verus!
