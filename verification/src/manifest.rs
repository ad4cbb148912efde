//! The trust manifest: a signed document mapping peer role names to expected
//! integrity measurements, and the verifier that gates every use of it.
//!
//! Wire form of a manifest: entries laid back to back, each a one-byte role
//! name length (at least 1), the role name, a one-byte measurement length
//! (at least 1), and the measurement. Role names must be pairwise distinct.
//!
//! The signature set accompanying the manifest is checked by an outside
//! cryptographic collaborator, one verdict per configured verifier key; the
//! quorum rule fixed here is all-of: the manifest is usable only when every
//! configured key found the signature set valid.

use vstd::prelude::*;

use crate::identity::PeerIdentity;
use crate::identity::bytes_eq;
use crate::identity::copy_bytes;

verus! {

/// One manifest entry: a role name bound to the identity expected of peers
/// serving that role.
#[derive(Debug)]
pub struct ManifestEntry {
    pub role: Vec<u8>,
    pub identity: PeerIdentity,
}

/// The (role name, measurement) pairs of a sequence of entries.
pub open spec fn entry_views(entries: Seq<ManifestEntry>) -> Seq<(Seq<u8>, Seq<u8>)> {
    entries.map_values(|e: ManifestEntry| (e.role@, e.identity@))
}

/// No role name occurs twice.
pub open spec fn unique_roles(pairs: Seq<(Seq<u8>, Seq<u8>)>) -> bool {
    forall|i: int, j: int| 0 <= i < j < pairs.len() ==> pairs[i].0 != pairs[j].0
}

/// Whether some pair binds the given role.
pub open spec fn pairs_bind_role(pairs: Seq<(Seq<u8>, Seq<u8>)>, role: Seq<u8>) -> bool {
    exists|i: int| 0 <= i < pairs.len() && pairs[i].0 == role
}

/// The role-to-measurement map described by a sequence of pairs; a repeated
/// role keeps its last binding.
pub open spec fn map_of_pairs(pairs: Seq<(Seq<u8>, Seq<u8>)>) -> Map<Seq<u8>, Seq<u8>>
    decreases pairs.len(),
{
    if pairs.len() == 0 {
        Map::empty()
    } else {
        map_of_pairs(pairs.drop_last()).insert(pairs.last().0, pairs.last().1)
    }
}

/// With pairwise-distinct roles, the map of a pair sequence binds exactly the
/// roles the pairs bind, each to the measurement its pair names.
pub proof fn lemma_map_of_pairs(pairs: Seq<(Seq<u8>, Seq<u8>)>)
    requires
        unique_roles(pairs),
    ensures
        forall|role: Seq<u8>|
            #[trigger] map_of_pairs(pairs).dom().contains(role) <==> pairs_bind_role(pairs, role),
        forall|i: int|
            0 <= i < pairs.len() ==> #[trigger] map_of_pairs(pairs).contains_pair(
                pairs[i].0,
                pairs[i].1,
            ),
    decreases pairs.len(),
{
    if pairs.len() == 0 {
        assert forall|role: Seq<u8>| !(#[trigger] map_of_pairs(pairs).dom().contains(role)) by {}
        assert forall|role: Seq<u8>| !pairs_bind_role(pairs, role) by {}
    } else {
        let prefix = pairs.drop_last();
        let last = pairs.last();
        assert(unique_roles(prefix)) by {
            assert forall|i: int, j: int| 0 <= i < j < prefix.len() implies prefix[i].0
                != prefix[j].0 by {
                assert(pairs[i].0 != pairs[j].0);
            }
        }
        lemma_map_of_pairs(prefix);
        let m = map_of_pairs(pairs);
        assert forall|role: Seq<u8>| #[trigger] m.dom().contains(role) implies pairs_bind_role(
            pairs,
            role,
        ) by {
            if role == last.0 {
                assert(pairs[pairs.len() - 1].0 == role);
            } else {
                assert(map_of_pairs(prefix).dom().contains(role));
                let i = choose|i: int| 0 <= i < prefix.len() && prefix[i].0 == role;
                assert(pairs[i].0 == role);
            }
        }
        assert forall|role: Seq<u8>| pairs_bind_role(pairs, role) implies #[trigger] m.dom()
            .contains(role) by {
            let i = choose|i: int| 0 <= i < pairs.len() && pairs[i].0 == role;
            if i < pairs.len() - 1 {
                assert(prefix[i].0 == role);
                assert(pairs_bind_role(prefix, role));
            }
        }
        assert forall|i: int| 0 <= i < pairs.len() implies #[trigger] m.contains_pair(
            pairs[i].0,
            pairs[i].1,
        ) by {
            if i < pairs.len() - 1 {
                assert(map_of_pairs(prefix).contains_pair(prefix[i].0, prefix[i].1));
                assert(pairs[i].0 != last.0);
            }
        }
    }
}

/// The entry list encoded in `bytes`, or nothing when the bytes are not a
/// well-formed encoding.
pub open spec fn parse_entries(bytes: Seq<u8>) -> Option<Seq<(Seq<u8>, Seq<u8>)>>
    decreases bytes.len(),
{
    if bytes.len() == 0 {
        Some(Seq::empty())
    } else {
        let role_len = bytes[0] as int;
        if role_len == 0 || bytes.len() < 2 + role_len {
            None
        } else {
            let id_len = bytes[1 + role_len] as int;
            if id_len == 0 || bytes.len() < 2 + role_len + id_len {
                None
            } else {
                let role = bytes.subrange(1, 1 + role_len);
                let id = bytes.subrange(2 + role_len, 2 + role_len + id_len);
                match parse_entries(bytes.skip(2 + role_len + id_len)) {
                    Some(rest) => Some(seq![(role, id)] + rest),
                    None => None,
                }
            }
        }
    }
}

/// Whether `bytes` encode a manifest: the entry list parses and its role
/// names are pairwise distinct.
pub open spec fn well_formed_manifest(bytes: Seq<u8>) -> bool {
    parse_entries(bytes) is Some && unique_roles(parse_entries(bytes)->Some_0)
}

/// The pairs of a well-formed manifest encoding.
pub open spec fn manifest_pairs(bytes: Seq<u8>) -> Seq<(Seq<u8>, Seq<u8>)>
    recommends
        well_formed_manifest(bytes),
{
    parse_entries(bytes)->Some_0
}

/// The role-to-identity map of a well-formed manifest encoding.
pub open spec fn manifest_map(bytes: Seq<u8>) -> Map<Seq<u8>, Seq<u8>>
    recommends
        well_formed_manifest(bytes),
{
    map_of_pairs(manifest_pairs(bytes))
}

/// The all-of quorum rule: at least one verifier key is configured and every
/// key's verdict on the signature set is positive.
pub open spec fn quorum_met(verdicts: Seq<bool>) -> bool {
    verdicts.len() > 0 && forall|i: int| 0 <= i < verdicts.len() ==> verdicts[i]
}

/// Why a signed manifest was refused.
#[derive(Clone, Copy, Debug, PartialEq, Eq, Structural)]
pub enum ManifestVerificationError {
    /// The signature set did not validate under the quorum rule.
    SignatureRejected,
    /// The manifest bytes are not a well-formed role-to-identity encoding.
    MalformedManifest,
}

/// A verified trust manifest: role names bound to expected peer identities,
/// role names pairwise distinct.
#[derive(Debug)]
pub struct TrustManifest {
    pub entries: Vec<ManifestEntry>,
}

impl TrustManifest {
    /// The manifest's (role, measurement) pairs, in entry order.
    pub open spec fn pairs(&self) -> Seq<(Seq<u8>, Seq<u8>)> {
        entry_views(self.entries@)
    }

    /// Role names are pairwise distinct.
    pub open spec fn wf(&self) -> bool {
        unique_roles(self.pairs())
    }
}

impl View for TrustManifest {
    type V = Map<Seq<u8>, Seq<u8>>;

    open spec fn view(&self) -> Map<Seq<u8>, Seq<u8>> {
        map_of_pairs(self.pairs())
    }
}

impl TrustManifest {
    /// The identity expected of peers serving `role`, when the manifest
    /// binds that role.
    pub fn lookup(&self, role: &[u8]) -> (r: Option<&PeerIdentity>)
        requires
            self.wf(),
        ensures
            match r {
                Some(id) => self@.dom().contains(role@) && self@[role@] == id@,
                None => !self@.dom().contains(role@),
            },
    {
        let mut i: usize = 0;
        while i < self.entries.len()
            invariant
                self.wf(),
                0 <= i <= self.entries@.len(),
                forall|k: int| 0 <= k < i ==> self.pairs()[k].0 != role@,
            decreases self.entries@.len() - i,
        {
            if bytes_eq(self.entries[i].role.as_slice(), role) {
                proof {
                    lemma_map_of_pairs(self.pairs());
                    assert(self.pairs()[i as int].0 == role@);
                    assert(self@.contains_pair(self.pairs()[i as int].0, self.pairs()[i as int].1));
                }
                return Some(&self.entries[i].identity);
            }
            i = i + 1;
        }
        proof {
            lemma_map_of_pairs(self.pairs());
            if self@.dom().contains(role@) {
                let k = choose|k: int| 0 <= k < self.pairs().len() && self.pairs()[k].0 == role@;
                assert(self.pairs()[k].0 != role@);
            }
        }
        None
    }
}

/// Whether every verifier key's verdict is positive (and there is one).
fn all_verdicts_positive(verdicts: &[bool]) -> (r: bool)
    ensures
        r == quorum_met(verdicts@),
{
    if verdicts.len() == 0 {
        return false;
    }
    let mut i: usize = 0;
    while i < verdicts.len()
        invariant
            0 <= i <= verdicts@.len(),
            forall|j: int| 0 <= j < i ==> verdicts@[j],
        decreases verdicts@.len() - i,
    {
        if !verdicts[i] {
            return false;
        }
        i = i + 1;
    }
    true
}

/// Parses the manifest wire form into an entry list, or reports that the
/// bytes are malformed.
fn parse_manifest_entries(bytes: &[u8]) -> (r: Option<Vec<ManifestEntry>>)
    ensures
        match r {
            Some(entries) => parse_entries(bytes@) == Some(entry_views(entries@)),
            None => parse_entries(bytes@) is None,
        },
{
    let mut entries: Vec<ManifestEntry> = Vec::new();
    let mut i: usize = 0;
    proof {
        assert(bytes@.skip(0) =~= bytes@);
        assert(entry_views(entries@) =~= Seq::<(Seq<u8>, Seq<u8>)>::empty());
    }
    while i < bytes.len()
        invariant
            0 <= i <= bytes@.len(),
            parse_entries(bytes@) == (match parse_entries(bytes@.skip(i as int)) {
                Some(rest) => Some(entry_views(entries@) + rest),
                None => None,
            }),
        decreases bytes@.len() - i,
    {
        let ghost rem = bytes@.skip(i as int);
        let ghost prev = entries@;
        proof {
            assert(rem.len() == bytes@.len() - i);
            assert(rem[0] == bytes@[i as int]);
        }
        let role_len = bytes[i] as usize;
        let avail = bytes.len() - i;
        if role_len == 0 || avail < 2 + role_len {
            proof {
                assert(parse_entries(rem) is None);
            }
            return None;
        }
        proof {
            assert(rem[1 + role_len as int] == bytes@[i as int + 1 + role_len as int]);
        }
        let id_len = bytes[i + 1 + role_len] as usize;
        if id_len == 0 || avail < 2 + role_len + id_len {
            proof {
                assert(parse_entries(rem) is None);
            }
            return None;
        }
        let entry_len = 2 + role_len + id_len;
        let role = copy_bytes(vstd::slice::slice_subrange(bytes, i + 1, i + 1 + role_len));
        let id = copy_bytes(
            vstd::slice::slice_subrange(bytes, i + 2 + role_len, i + entry_len),
        );
        proof {
            assert(role@ =~= rem.subrange(1, 1 + role_len as int));
            assert(id@ =~= rem.subrange(2 + role_len as int, 2 + role_len as int + id_len as int));
            assert(rem.skip(entry_len as int) =~= bytes@.skip(i as int + entry_len as int));
        }
        entries.push(ManifestEntry { role, identity: PeerIdentity { measurement: id } });
        proof {
            let ev = (rem.subrange(1, 1 + role_len as int), rem.subrange(
                2 + role_len as int,
                2 + role_len as int + id_len as int,
            ));
            assert(entry_views(entries@) =~= entry_views(prev) + seq![ev]);
            match parse_entries(rem.skip(entry_len as int)) {
                Some(rest2) => {
                    assert(parse_entries(rem) == Some(seq![ev] + rest2));
                    assert(entry_views(prev) + (seq![ev] + rest2) =~= (entry_views(prev)
                        + seq![ev]) + rest2);
                },
                None => {
                    assert(parse_entries(rem) is None);
                },
            }
        }
        i = i + entry_len;
    }
    proof {
        assert(bytes@.skip(i as int) =~= Seq::<u8>::empty());
        assert(parse_entries(bytes@.skip(i as int)) == Some(Seq::<(Seq<u8>, Seq<u8>)>::empty()));
        assert(entry_views(entries@) + Seq::<(Seq<u8>, Seq<u8>)>::empty() =~= entry_views(
            entries@,
        ));
    }
    Some(entries)
}

/// Whether the entries' role names are pairwise distinct.
fn entry_roles_unique(entries: &Vec<ManifestEntry>) -> (r: bool)
    ensures
        r == unique_roles(entry_views(entries@)),
{
    let mut i: usize = 0;
    while i < entries.len()
        invariant
            0 <= i <= entries@.len(),
            forall|p: int, q: int| 0 <= p < q < i ==> entry_views(entries@)[p].0 != entry_views(
                entries@,
            )[q].0,
        decreases entries@.len() - i,
    {
        let mut j: usize = 0;
        while j < i
            invariant
                0 <= j <= i < entries@.len(),
                forall|p: int, q: int| 0 <= p < q < i ==> entry_views(entries@)[p].0
                    != entry_views(entries@)[q].0,
                forall|q: int| 0 <= q < j ==> entry_views(entries@)[q].0 != entry_views(
                    entries@,
                )[i as int].0,
            decreases i - j,
        {
            if bytes_eq(entries[j].role.as_slice(), entries[i].role.as_slice()) {
                proof {
                    assert(entry_views(entries@)[j as int].0 == entry_views(entries@)[i as int].0);
                }
                return false;
            }
            j = j + 1;
        }
        i = i + 1;
    }
    true
}

/// Validates a signed manifest: the signature verdicts (one per configured
/// verifier key, produced by the outside cryptographic collaborator) must
/// meet the all-of quorum, and the bytes must parse into the role-to-identity
/// structure with pairwise-distinct roles. Nothing derived from the manifest
/// exists unless both checks pass.
pub fn verify_manifest(manifest_bytes: &[u8], signature_verdicts: &[bool]) -> (r: Result<
    TrustManifest,
    ManifestVerificationError,
>)
    ensures
        match r {
            Ok(m) => quorum_met(signature_verdicts@) && well_formed_manifest(manifest_bytes@)
                && m.wf() && m.pairs() == manifest_pairs(manifest_bytes@) && m@ == manifest_map(
                manifest_bytes@,
            ),
            Err(e) => {
                &&& (e is SignatureRejected <==> !quorum_met(signature_verdicts@))
                &&& (e is MalformedManifest <==> quorum_met(signature_verdicts@)
                    && !well_formed_manifest(manifest_bytes@))
            },
        },
{
    if !all_verdicts_positive(signature_verdicts) {
        return Err(ManifestVerificationError::SignatureRejected);
    }
    let entries = match parse_manifest_entries(manifest_bytes) {
        Some(entries) => entries,
        None => {
            return Err(ManifestVerificationError::MalformedManifest);
        },
    };
    if !entry_roles_unique(&entries) {
        return Err(ManifestVerificationError::MalformedManifest);
    }
    Ok(TrustManifest { entries })
}

} // verus!
