//! The enclave lifecycle controller: the command state machine the hosting
//! process drives, and the start sequence it runs.
//!
//! The host issues three commands, one at a time: initialize, start,
//! finalize. Start runs the trust bootstrap in a fixed order — verify the
//! signed manifest, derive the inbound peer trust policy from the allow-list,
//! take the attestation authority's endorsement, bind the inbound listener,
//! and connect the one outbound backend channel. Any component failure is
//! fatal to the sequence; its component-tagged cause stays inside the enclave
//! and crosses the host boundary only as the single opaque [`ServiceError`].

use vstd::prelude::*;

use crate::channel::AttestationConfig;
use crate::channel::AttestationOutcome;
use crate::channel::ChannelEndpointConfig;
use crate::channel::SecureChannel;
use crate::channel::SecureServer;
use crate::channel::connect;
use crate::identity::PeerIdentity;
use crate::identity::copy_bytes;
use crate::manifest::ManifestVerificationError;
use crate::manifest::manifest_map;
use crate::manifest::quorum_met;
use crate::manifest::verify_manifest;
use crate::manifest::well_formed_manifest;
use crate::policy::PeerTrustPolicy;
use crate::policy::UnknownPeerRoleError;
use crate::policy::all_roles_known;
use crate::policy::allowed_identities;
use crate::policy::build_policy;
use crate::policy::role_views;

verus! {

/// Build-time trust constants, injected at process start as one immutable
/// value so the core stays testable with synthetic trust material: the
/// attestation-authority root of trust, the allow-list of inbound peer
/// roles, and the role name of the one outbound backend.
#[derive(Debug)]
pub struct TrustAnchors {
    pub root_of_trust: Vec<u8>,
    pub allow_list: Vec<Vec<u8>>,
    pub backend_role: Vec<u8>,
}

/// The runtime configuration the host hands to the start command: the
/// listen address of the inbound surface, the signed manifest bytes, the
/// attestation authority's parameters (consumed by the platform's
/// attestation handshake, whose answer arrives in [`StartEvidence`]), and
/// the advertised address of the one downstream backend.
#[derive(Debug)]
pub struct StartConfig {
    pub listen_address: Vec<u8>,
    pub manifest_bytes: Vec<u8>,
    pub attestation: AttestationConfig,
    pub backend_address: Vec<u8>,
}

/// The outside collaborators' answers that the start sequence consumes: the
/// manifest-signature verdicts (one per configured verifier key), the
/// attestation authority's answer, and the facts of the backend handshake —
/// the identity the backend presented and the verdict on its evidence chain.
#[derive(Debug)]
pub struct StartEvidence {
    pub signature_verdicts: Vec<bool>,
    pub attestation: AttestationOutcome,
    pub backend_presented: PeerIdentity,
    pub backend_evidence_ok: bool,
}

/// The component-tagged cause of a failed start sequence. Kept distinct
/// inside the enclave; collapsed to the opaque [`ServiceError`] before it
/// crosses the host boundary.
#[derive(Debug)]
pub enum ComponentError {
    ManifestVerification(ManifestVerificationError),
    UnknownPeerRole(UnknownPeerRoleError),
    Attestation,
    PeerTrust,
}

/// The single opaque error the host sees when a command fails. The specific
/// cause is deliberately discarded at the host boundary: a uniform error
/// surface in exchange for diagnostic detail.
#[derive(Clone, Copy, Debug, PartialEq, Eq, Structural)]
pub struct ServiceError;

/// What a successful start yields: the bound inbound listener and the
/// established outbound channel to the one verified backend.
#[derive(Debug)]
pub struct StartPlan {
    pub server: SecureServer,
    pub backend: SecureChannel,
}

/// Whether the whole start sequence accepts, stage by stage: the signature
/// quorum and the manifest's shape, every allow-listed role bound, the
/// attestation endorsed, the backend role bound, and the backend handshake
/// presenting exactly the backend's expected identity with verified
/// evidence.
pub open spec fn start_accepts(
    anchors: TrustAnchors,
    config: StartConfig,
    evidence: StartEvidence,
) -> bool {
    let mm = manifest_map(config.manifest_bytes@);
    &&& quorum_met(evidence.signature_verdicts@)
    &&& well_formed_manifest(config.manifest_bytes@)
    &&& all_roles_known(mm, role_views(anchors.allow_list@))
    &&& evidence.attestation is Endorsed
    &&& mm.dom().contains(anchors.backend_role@)
    &&& evidence.backend_evidence_ok
    &&& mm[anchors.backend_role@] == evidence.backend_presented@
}

/// Exactly which outcome the start sequence owes for given outside answers:
/// on success, the shape of the two endpoints; on failure, the first
/// component's refusal in sequence order, with its exact cause.
pub open spec fn start_outcome(
    anchors: TrustAnchors,
    config: StartConfig,
    evidence: StartEvidence,
    r: Result<StartPlan, ComponentError>,
) -> bool {
    ({
        let q = quorum_met(evidence.signature_verdicts@);
        let wfm = well_formed_manifest(config.manifest_bytes@);
        let mm = manifest_map(config.manifest_bytes@);
        let allowv = role_views(anchors.allow_list@);
        let roles_ok = all_roles_known(mm, allowv);
        let att_ok = evidence.attestation is Endorsed;
        let backend_ok = mm.dom().contains(anchors.backend_role@);
        let backend_admitted = evidence.backend_evidence_ok && mm[anchors.backend_role@]
            == evidence.backend_presented@;
        match r {
            Ok(plan) => {
                &&& start_accepts(anchors, config, evidence)
                &&& plan.server.wf()
                &&& plan.server.status is Listening
                &&& plan.server.listen_address@ == config.listen_address@
                &&& plan.server.config.policy.accepted_set() == allowed_identities(mm, allowv)
                &&& plan.server.config.policy.root_of_trust@ == anchors.root_of_trust@
                &&& plan.server.config.material.certificate@
                    == evidence.attestation->Endorsed_0.certificate@
                &&& plan.backend.config.role is Client
                &&& plan.backend.config.target_address matches Some(a) && a@
                    == config.backend_address@
                &&& plan.backend.config.policy.accepted_set() == set![mm[anchors.backend_role@]]
                &&& plan.backend.config.policy.root_of_trust@ == anchors.root_of_trust@
                &&& plan.backend.peer@ == evidence.backend_presented@
            },
            Err(e) => match e {
                ComponentError::ManifestVerification(me) => {
                    &&& !(q && wfm)
                    &&& (me is SignatureRejected <==> !q)
                    &&& (me is MalformedManifest <==> q && !wfm)
                },
                ComponentError::UnknownPeerRole(u) => {
                    &&& q && wfm
                    &&& (roles_ok ==> att_ok && !backend_ok && u.role@ == anchors.backend_role@)
                    &&& (!roles_ok ==> exists|k: int|
                        {
                            &&& 0 <= k < allowv.len()
                            &&& !mm.dom().contains(#[trigger] allowv[k])
                            &&& (forall|j: int| 0 <= j < k ==> mm.dom().contains(#[trigger] allowv[j]))
                            &&& u.role@ == allowv[k]
                        })
                },
                ComponentError::Attestation => q && wfm && roles_ok && !att_ok,
                ComponentError::PeerTrust => {
                    &&& q && wfm && roles_ok && att_ok && backend_ok
                    &&& !backend_admitted
                },
            },
        }
    })
}

/// Runs the start sequence on the outside collaborators' answers and either
/// returns the two live endpoints or the first component's refusal, in
/// sequence order.
pub fn plan_start(anchors: &TrustAnchors, config: StartConfig, evidence: StartEvidence) -> (r:
    Result<StartPlan, ComponentError>)
    ensures
        start_outcome(*anchors, config, evidence, r),
{
    let manifest = match verify_manifest(
        config.manifest_bytes.as_slice(),
        evidence.signature_verdicts.as_slice(),
    ) {
        Ok(m) => m,
        Err(e) => {
            return Err(ComponentError::ManifestVerification(e));
        },
    };
    let server_policy = match build_policy(
        &manifest,
        &anchors.allow_list,
        copy_bytes(anchors.root_of_trust.as_slice()),
    ) {
        Ok(p) => p,
        Err(e) => {
            proof {
                let allowv = role_views(anchors.allow_list@);
                let mm = manifest_map(config.manifest_bytes@);
                assert(manifest@ == mm);
                let k = choose|k: int|
                    {
                        &&& 0 <= k < anchors.allow_list@.len()
                        &&& !manifest@.dom().contains(#[trigger] anchors.allow_list@[k]@)
                        &&& (forall|j: int|
                            0 <= j < k ==> manifest@.dom().contains(
                                #[trigger] anchors.allow_list@[j]@,
                            ))
                        &&& e.role@ == anchors.allow_list@[k]@
                    };
                assert(allowv[k] == anchors.allow_list@[k]@);
                assert(!mm.dom().contains(allowv[k]));
                assert forall|j: int| 0 <= j < k implies mm.dom().contains(
                    #[trigger] allowv[j],
                ) by {
                    assert(allowv[j] == anchors.allow_list@[j]@);
                    assert(manifest@.dom().contains(anchors.allow_list@[j]@));
                }
                assert(!all_roles_known(mm, allowv));
            }
            return Err(ComponentError::UnknownPeerRole(e));
        },
    };
    let material = match evidence.attestation {
        AttestationOutcome::Endorsed(m) => m,
        AttestationOutcome::Failed => {
            return Err(ComponentError::Attestation);
        },
    };
    let backend_identity = match manifest.lookup(anchors.backend_role.as_slice()) {
        Some(id) => id.clone(),
        None => {
            return Err(
                ComponentError::UnknownPeerRole(
                    UnknownPeerRoleError { role: copy_bytes(anchors.backend_role.as_slice()) },
                ),
            );
        },
    };
    let ghost mm = manifest_map(config.manifest_bytes@);
    let client_policy = PeerTrustPolicy {
        accepted: vec![backend_identity],
        root_of_trust: copy_bytes(anchors.root_of_trust.as_slice()),
    };
    proof {
        assert(client_policy.accepted@[0]@ == mm[anchors.backend_role@]);
        assert(client_policy.accepted_set() =~= set![mm[anchors.backend_role@]]);
    }
    let server_config = ChannelEndpointConfig::new_server(material.clone(), server_policy);
    let client_config = ChannelEndpointConfig::new_client(
        material,
        client_policy,
        config.backend_address,
    );
    let server = SecureServer::bind(config.listen_address, server_config);
    let backend = match connect(
        client_config,
        evidence.backend_presented,
        evidence.backend_evidence_ok,
    ) {
        Ok(ch) => ch,
        Err(_) => {
            return Err(ComponentError::PeerTrust);
        },
    };
    Ok(StartPlan { server, backend })
}

/// Law: a malformed or unsigned manifest stops the start sequence at the
/// manifest verifier. The refusal is the verifier's own — no trust policy
/// and no channel endpoint is ever built from such a manifest.
pub proof fn lemma_bad_manifest_stops_start(
    anchors: TrustAnchors,
    config: StartConfig,
    evidence: StartEvidence,
    r: Result<StartPlan, ComponentError>,
)
    requires
        start_outcome(anchors, config, evidence, r),
        !(quorum_met(evidence.signature_verdicts@) && well_formed_manifest(
            config.manifest_bytes@,
        )),
    ensures
        r is Err,
        r->Err_0 is ManifestVerification,
{
    match r {
        Ok(plan) => {
            assert(start_accepts(anchors, config, evidence));
        },
        Err(e) => {
            match e {
                ComponentError::ManifestVerification(me) => {},
                ComponentError::UnknownPeerRole(u) => {},
                ComponentError::Attestation => {},
                ComponentError::PeerTrust => {},
            }
        },
    }
}

/// The lifecycle states of the one enclave process.
#[derive(Clone, Copy, Debug, PartialEq, Eq, Structural)]
pub enum LifecycleState {
    Uninitialized,
    Initialized,
    Running,
    Failed,
    Finalized,
}

/// The command state machine the host drives, exactly one instance per
/// enclave process. Each command is invoked synchronously, one at a time; a
/// command arriving in the wrong state is refused explicitly — never a
/// silent re-initialization — and leaves the state unchanged.
#[derive(Debug)]
pub struct EnclaveLifecycle {
    pub state: LifecycleState,
}

impl EnclaveLifecycle {
    /// A fresh enclave process, before the host has initialized it.
    pub fn new() -> (c: Self)
        ensures
            c.state is Uninitialized,
    {
        EnclaveLifecycle { state: LifecycleState::Uninitialized }
    }

    /// The initialize command. `setup_ok` is the outcome of the process-wide
    /// runtime setup performed by the hosting layer; its failure is fatal
    /// and reported to the host as an initialization error.
    pub fn init(&mut self, setup_ok: bool) -> (r: Result<(), ServiceError>)
        ensures
            old(self).state is Uninitialized && setup_ok ==> final(self).state is Initialized
                && r is Ok,
            old(self).state is Uninitialized && !setup_ok ==> final(self).state is Failed
                && r is Err,
            !(old(self).state is Uninitialized) ==> *final(self) == *old(self) && r is Err,
    {
        match self.state {
            LifecycleState::Uninitialized => {
                if setup_ok {
                    self.state = LifecycleState::Initialized;
                    Ok(())
                } else {
                    self.state = LifecycleState::Failed;
                    Err(ServiceError)
                }
            },
            _ => Err(ServiceError),
        }
    }

    /// The start command: runs the full trust bootstrap. On success the
    /// enclave is Running and the host receives the live endpoints; on any
    /// component failure the enclave is Failed and the host receives only
    /// the opaque [`ServiceError`], never the cause. Called in any state but
    /// Initialized — in particular on an enclave that is already Running —
    /// the command is refused with the same opaque error and changes
    /// nothing: there is no silent double start.
    pub fn start(&mut self, anchors: &TrustAnchors, config: StartConfig, evidence: StartEvidence)
        -> (r: Result<StartPlan, ServiceError>)
        ensures
            !(old(self).state is Initialized) ==> *final(self) == *old(self) && r is Err,
            old(self).state is Initialized ==> {
                &&& (r is Ok <==> start_accepts(*anchors, config, evidence))
                &&& (r is Ok ==> final(self).state is Running)
                &&& (r is Err ==> final(self).state is Failed)
                &&& (r matches Ok(plan) ==> plan.server.status is Listening
                    && plan.server.config.policy.accepted_set() == allowed_identities(
                    manifest_map(config.manifest_bytes@),
                    role_views(anchors.allow_list@),
                ) && plan.backend.peer@ == evidence.backend_presented@)
            },
    {
        match self.state {
            LifecycleState::Initialized => {
                match plan_start(anchors, config, evidence) {
                    Ok(plan) => {
                        self.state = LifecycleState::Running;
                        Ok(plan)
                    },
                    Err(_) => {
                        self.state = LifecycleState::Failed;
                        Err(ServiceError)
                    },
                }
            },
            _ => Err(ServiceError),
        }
    }

    /// The inbound listener has stopped while the enclave was Running. A
    /// listener crash is contained here — logged by the hosting layer, not
    /// propagated: the host sees the start command complete successfully
    /// whether the listener shut down cleanly or crashed.
    pub fn serving_ended(&mut self, _listener_crashed: bool) -> (r: Result<(), ServiceError>)
        requires
            old(self).state is Running,
        ensures
            *final(self) == *old(self),
            r is Ok,
    {
        Ok(())
    }

    /// The finalize command: releases process-wide resources and ends the
    /// lifecycle. `release_ok` is the outcome of that release. Finalizing a
    /// Failed enclave, or finalizing twice, is a host-contract violation and
    /// is refused explicitly, leaving the state unchanged.
    pub fn finalize(&mut self, release_ok: bool) -> (r: Result<(), ServiceError>)
        ensures
            ({
                let live = !(old(self).state is Failed) && !(old(self).state is Finalized);
                &&& live && release_ok ==> final(self).state is Finalized && r is Ok
                &&& live && !release_ok ==> final(self).state is Failed && r is Err
                &&& !live ==> *final(self) == *old(self) && r is Err
            }),
    {
        match self.state {
            LifecycleState::Failed => Err(ServiceError),
            LifecycleState::Finalized => Err(ServiceError),
            _ => {
                if release_ok {
                    self.state = LifecycleState::Finalized;
                    Ok(())
                } else {
                    self.state = LifecycleState::Failed;
                    Err(ServiceError)
                }
            },
        }
    }
}

} // verus!

