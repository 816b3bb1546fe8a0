//! Bookkeeping of MPC sessions: which sessions are established, who the local
//! party is in a new one, and what mesh the parties of a session form.

use crate::error::Error;
use crate::keys::{key_views, same_key, PublicKey};
use crate::mesh::{NetworkConfigFile, NetworkPartyConfig, NetworkPartyConfigView};
use crate::p2p::{
    config_views, incomplete_text, is_complete, table_is_complete, PartyIndex, RevealMsg,
    RevealMsgView,
};
use std::collections::HashMap;
use std::sync::Arc;
use vstd::prelude::*;

verus! {

/// Seconds granted to the mesh handshake.
pub const HANDSHAKE_TIMEOUT_SECS: u64 = 60;

/// Calls `Arc::clone`: the result points to the same allocation as `handle`.
#[verifier::external_body]
fn share<H>(handle: &Arc<H>) -> (out: Arc<H>)
    ensures
        out == *handle,
{
    Arc::clone(handle)
}

/// The handles of the sessions established so far, by session identifier.
/// No identifier occurs twice.
///
/// The entries are kept in a list: the hash-map specification of vstd covers
/// keys of primitive types only, so nothing could be proved of a map keyed by
/// strings.
pub struct SessionCache<H> {
    entries: Vec<(String, Arc<H>)>,
}

impl<H> SessionCache<H> {
    /// Whether no identifier occurs twice.
    pub closed spec fn wf(self) -> bool {
        forall|a: int, b: int|
            0 <= a < b < self.entries.len() ==> (#[trigger] self.entries[a]).0@ != (
            #[trigger] self.entries[b]).0@
    }

    /// The cache as a map from session identifier to handle.
    pub closed spec fn view(&self) -> Map<Seq<char>, Arc<H>> {
        Map::new(
            |id: Seq<char>| exists|k: int| 0 <= k < self.entries.len() && self.entries[k].0@ == id,
            |id: Seq<char>|
                self.entries[choose|k: int| 0 <= k < self.entries.len() && self.entries[k].0@ == id].1,
        )
    }

    /// A cache without sessions.
    pub fn new() -> (out: Self)
        ensures
            out.wf(),
            out@ == Map::<Seq<char>, Arc<H>>::empty(),
    {
        let out = SessionCache { entries: Vec::new() };
        assert(out@ =~= Map::<Seq<char>, Arc<H>>::empty());
        out
    }

    /// Number of cached sessions.
    pub fn len(&self) -> (out: usize)
        requires
            self.wf(),
        ensures
            out == self@.dom().len(),
            self@.dom().finite(),
    {
        proof {
            self.lemma_dom_len(self.entries.len() as int);
            assert(self.ids_upto(self.entries.len() as int) =~= self@.dom());
        }
        self.entries.len()
    }

    spec fn ids_upto(self, k: int) -> Set<Seq<char>> {
        Set::new(|id: Seq<char>| exists|t: int| 0 <= t < k && t < self.entries.len() && self.entries[t].0@ == id)
    }

    proof fn lemma_dom_len(self, k: int)
        requires
            self.wf(),
            0 <= k <= self.entries.len(),
        ensures
            self.ids_upto(k).finite(),
            self.ids_upto(k).len() == k,
        decreases k,
    {
        if k == 0 {
            assert(self.ids_upto(k) =~= Set::empty());
        } else {
            self.lemma_dom_len(k - 1);
            let id = self.entries[k - 1].0@;
            assert(self.ids_upto(k) =~= self.ids_upto(k - 1).insert(id));
            assert(!self.ids_upto(k - 1).contains(id));
        }
    }

    /// The handle cached under `session_id`, if there is one.
    pub fn get(&self, session_id: &str) -> (out: Option<Arc<H>>)
        requires
            self.wf(),
        ensures
            match out {
                Some(handle) => self@.contains_key(session_id@) && handle == self@[session_id@],
                None => !self@.contains_key(session_id@),
            },
    {
        let wanted = session_id.to_owned();
        let mut k: usize = 0;
        while k < self.entries.len()
            invariant
                k <= self.entries.len(),
                wanted@ == session_id@,
                self.wf(),
                forall|j: int| 0 <= j < k ==> self.entries[j].0@ != wanted@,
            decreases self.entries.len() - k,
        {
            if self.entries[k].0 == wanted {
                proof {
                    let found = choose|t: int|
                        0 <= t < self.entries.len() && self.entries[t].0@ == session_id@;
                    assert(found == k);
                }
                return Some(share(&self.entries[k].1));
            }
            k = k + 1;
        }
        None
    }

    /// Caches `handle` under `session_id`, replacing what was cached under it before.
    pub fn insert(&mut self, session_id: &str, handle: Arc<H>)
        requires
            old(self).wf(),
        ensures
            final(self).wf(),
            final(self)@ == old(self)@.insert(session_id@, handle),
    {
        let wanted = session_id.to_owned();
        let ghost before = *self;
        let mut k: usize = 0;
        while k < self.entries.len() && !(self.entries[k].0 == wanted)
            invariant
                k <= self.entries.len(),
                wanted@ == session_id@,
                *self == before,
                forall|j: int| 0 <= j < k ==> self.entries[j].0@ != wanted@,
            decreases self.entries.len() - k,
        {
            k = k + 1;
        }
        if k < self.entries.len() {
            self.entries.set(k, (wanted, handle));
        } else {
            self.entries.push((wanted, handle));
        }
        proof {
            let after = *self;
            assert forall|t: int| 0 <= t < after.entries.len() && t != k implies after.entries[t]
                == before.entries[t] by {}
            assert(after.entries[k as int].0@ == session_id@);
            assert(after.entries[k as int].1 == handle);
            assert(after.wf());
            assert forall|id: Seq<char>| #[trigger]
                after@.contains_key(id) <==> (id == session_id@ || before@.contains_key(id)) by {
                if after@.contains_key(id) && id != session_id@ {
                    let t = choose|t: int| 0 <= t < after.entries.len() && after.entries[t].0@ == id;
                    assert(before.entries[t].0@ == id);
                }
                if before@.contains_key(id) && id != session_id@ {
                    let t = choose|t: int|
                        0 <= t < before.entries.len() && before.entries[t].0@ == id;
                    assert(after.entries[t].0@ == id);
                }
            }
            assert forall|id: Seq<char>| after@.contains_key(id) implies after@[id]
                == before@.insert(session_id@, handle)[id] by {
                let t = choose|t: int| 0 <= t < after.entries.len() && after.entries[t].0@ == id;
                if id != session_id@ {
                    let u = choose|u: int|
                        0 <= u < before.entries.len() && before.entries[u].0@ == id;
                    assert(before.entries[t].0@ == id);
                    assert(t == u);
                } else {
                    assert(t == k);
                }
            }
            assert(after@ =~= before@.insert(session_id@, handle));
        }
    }
}

/// Whether `p` is the first position of `key` among `keys`.
pub open spec fn is_first_position(keys: Seq<Seq<u8>>, key: Seq<u8>, p: int) -> bool {
    &&& 0 <= p < keys.len()
    &&& keys[p] == key
    &&& forall|q: int| 0 <= q < p ==> keys[q] != key
}

/// What a party needs to run the configuration exchange of a new session.
#[derive(Debug)]
pub struct SessionPlan {
    /// Index of the local party among the participants.
    pub local_party_index: PartyIndex,
    /// Number of participants.
    pub n: u16,
    /// What the local party commits to and reveals.
    pub local_reveal: RevealMsg,
    /// The public key of every party, by party index.
    pub party_mapping: HashMap<PartyIndex, PublicKey>,
}

/// How a request for a session is answered.
#[derive(Debug)]
pub enum Establishment<H> {
    /// The session is established already; this is its handle.
    Cached(Arc<H>),
    /// The session is new; its configuration exchange is to be run as planned.
    Exchange(SessionPlan),
}

/// The mathematical content of a list of mesh entries.
pub open spec fn party_views(parties: Seq<NetworkPartyConfig>) -> Seq<NetworkPartyConfigView> {
    Seq::new(parties.len(), |k: int| parties[k]@)
}

/// The entries of a complete table of `n` parties, in ascending order of
/// party index.
pub open spec fn parties_in_order(
    table: Map<PartyIndex, NetworkPartyConfigView>,
    n: u16,
) -> Seq<NetworkPartyConfigView> {
    Seq::new(n as nat, |j: int| table[j as PartyIndex])
}

/// Decides how MPC sessions are established and remembers the established ones.
///
/// `H` is the handle of an established mesh.
pub struct MpcNetworkManager<H> {
    local_public_key: PublicKey,
    mpc_listen_dns: String,
    key_path: String,
    cert_path: String,
    established_handlers: SessionCache<H>,
}

impl<H> MpcNetworkManager<H> {
    /// Whether the manager's cache is well formed.
    pub closed spec fn wf(self) -> bool {
        self.established_handlers.wf()
    }

    /// Serialised public key of the local node.
    pub closed spec fn local_public_key(self) -> Seq<u8> {
        self.local_public_key@
    }

    /// Address on which the local MPC endpoint listens.
    pub closed spec fn mpc_listen_dns(self) -> Seq<char> {
        self.mpc_listen_dns@
    }

    /// Location of the local private key.
    pub closed spec fn key_path(self) -> Seq<char> {
        self.key_path@
    }

    /// Location of the local certificate.
    pub closed spec fn cert_path(self) -> Seq<char> {
        self.cert_path@
    }

    /// The established sessions, by session identifier.
    pub closed spec fn sessions(self) -> Map<Seq<char>, Arc<H>> {
        self.established_handlers@
    }

    /// A manager without established sessions.
    pub fn new(
        local_public_key: PublicKey,
        mpc_listen_dns: String,
        key_path: String,
        cert_path: String,
    ) -> (out: Self)
        ensures
            out.wf(),
            out.local_public_key() == local_public_key@,
            out.mpc_listen_dns() == mpc_listen_dns@,
            out.key_path() == key_path@,
            out.cert_path() == cert_path@,
            out.sessions() == Map::<Seq<char>, Arc<H>>::empty(),
    {
        MpcNetworkManager {
            local_public_key,
            mpc_listen_dns,
            key_path,
            cert_path,
            established_handlers: SessionCache::new(),
        }
    }

    /// Answers a request for the session `session_instance_id` among
    /// `ordered_participants`.
    ///
    /// An established session is answered from the cache, whatever the
    /// participants. Otherwise the session needs between two and 65535
    /// participants, the local node among them; the local party index is the
    /// first position of the local key, and party `j` is the participant at
    /// position `j`.
    pub fn establish_mpc_session(
        &self,
        session_instance_id: &str,
        ordered_participants: &Vec<PublicKey>,
    ) -> (out: Result<Establishment<H>, Error>)
        requires
            self.wf(),
        ensures
            if self.sessions().contains_key(session_instance_id@) {
                out matches Ok(Establishment::Cached(handle)) && handle == self.sessions()[session_instance_id@]
            } else if ordered_participants.len() < 2 {
                out matches Err(Error::ConfigError(text)) && text@
                    == "MPC requires at least 2 participants"@
            } else if ordered_participants.len() > u16::MAX {
                out matches Err(Error::ConfigError(text)) && text@
                    == "MPC supports at most 65535 participants"@
            } else if !key_views(ordered_participants@).contains(self.local_public_key()) {
                out matches Err(Error::ConfigError(text)) && text@
                    == "Local node not found in participant list"@
            } else {
                &&& out matches Ok(Establishment::Exchange(plan))
                &&& plan.n == ordered_participants.len()
                &&& is_first_position(
                    key_views(ordered_participants@),
                    self.local_public_key(),
                    plan.local_party_index as int,
                )
                &&& plan.local_reveal@ == (RevealMsgView {
                    dns_name: self.mpc_listen_dns(),
                    cert_path: self.cert_path(),
                })
                &&& forall|j: PartyIndex|
                    plan.party_mapping@.contains_key(j) <==> j < ordered_participants.len()
                &&& forall|j: PartyIndex|
                    j < ordered_participants.len() ==> (#[trigger] plan.party_mapping@[j])@
                        == ordered_participants@[j as int]@
            },
    {
        if let Some(handle) = self.established_handlers.get(session_instance_id) {
            return Ok(Establishment::Cached(handle));
        }
        let count = ordered_participants.len();
        if count < 2 {
            return Err(
                Error::ConfigError(String::from_str("MPC requires at least 2 participants")),
            );
        }
        if count > 65535 {
            return Err(
                Error::ConfigError(String::from_str("MPC supports at most 65535 participants")),
            );
        }
        let ghost keys = key_views(ordered_participants@);
        assert(keys.len() == count);
        assert forall|j: int| 0 <= j < count implies #[trigger] keys[j] == ordered_participants@[j]@ by {}
        let mut position: usize = 0;
        while position < count && !same_key(&ordered_participants[position], &self.local_public_key)
            invariant
                position <= count,
                count == ordered_participants.len(),
                keys == key_views(ordered_participants@),
                forall|j: int| 0 <= j < count ==> #[trigger] keys[j] == ordered_participants@[j]@,
                forall|q: int| 0 <= q < position ==> keys[q] != self.local_public_key@,
            decreases count - position,
        {
            position = position + 1;
        }
        if position == count {
            assert(!keys.contains(self.local_public_key@));
            return Err(
                Error::ConfigError(String::from_str("Local node not found in participant list")),
            );
        }
        assert(keys[position as int] == self.local_public_key@);
        assert(keys.contains(self.local_public_key@));
        let local_reveal = RevealMsg {
            dns_name: self.mpc_listen_dns.clone(),
            cert_path: self.cert_path.clone(),
        };
        let mut party_mapping: HashMap<PartyIndex, PublicKey> = HashMap::new();
        let mut j: usize = 0;
        while j < count
            invariant
                j <= count <= 65535,
                count == ordered_participants.len(),
                forall|t: PartyIndex| party_mapping@.contains_key(t) <==> t < j,
                forall|t: PartyIndex|
                    t < j ==> (#[trigger] party_mapping@[t])@ == ordered_participants@[t as int]@,
            decreases count - j,
        {
            let key = ordered_participants[j].clone();
            party_mapping.insert(j as PartyIndex, key);
            j = j + 1;
        }
        Ok(
            Establishment::Exchange(
                SessionPlan {
                    local_party_index: position as PartyIndex,
                    n: count as u16,
                    local_reveal,
                    party_mapping,
                },
            ),
        )
    }

    /// Turns the end of the configuration exchange into the mesh to set up.
    ///
    /// A commitment mismatch is handed on as it is, with its blames. Any other
    /// failure of the exchange fails the session with a protocol error that
    /// quotes the failure, and so does a table that does not hold exactly one
    /// entry for each of the parties `0..n-1`. A complete table yields the mesh
    /// of the local party: its index, where it listens, its private key, the
    /// entries of all parties in ascending order, and the handshake timeout.
    pub fn exchange_finished(
        &self,
        plan: &SessionPlan,
        result: Result<HashMap<PartyIndex, NetworkPartyConfig>, Error>,
    ) -> (out: Result<NetworkConfigFile, Error>)
        ensures
            match result {
                Ok(table) => if is_complete(table@, plan.n) {
                    &&& out matches Ok(config)
                    &&& config.my_id == plan.local_party_index
                    &&& config.bind_addr@ == self.mpc_listen_dns()
                    &&& config.key_path@ == self.key_path()
                    &&& party_views(config.parties@) == parties_in_order(
                        config_views(table@),
                        plan.n,
                    )
                    &&& config.timeout_secs == Some(HANDSHAKE_TIMEOUT_SECS)
                } else {
                    &&& out matches Err(Error::MpcProtocolError(text))
                    &&& text@ == incomplete_text()
                },
                Err(Error::CommitmentMismatch { guilty_parties }) => {
                    &&& out matches Err(Error::CommitmentMismatch { guilty_parties: handed_on })
                    &&& handed_on@ == guilty_parties@
                },
                Err(e) => {
                    &&& out matches Err(Error::MpcProtocolError(text))
                    &&& text@ == "Config exchange failed: "@ + e.spec_describe()
                },
            },
    {
        match result {
            Err(Error::CommitmentMismatch { guilty_parties }) => Err(
                Error::CommitmentMismatch { guilty_parties },
            ),
            Err(e) => {
                let mut text = String::from_str("Config exchange failed: ");
                text.append(e.describe().as_str());
                Err(Error::MpcProtocolError(text))
            },
            Ok(table) => {
                if !table_is_complete(&table, plan.n) {
                    return Err(
                        Error::MpcProtocolError(
                            String::from_str(
                                "Config exchange did not yield exactly one entry per party",
                            ),
                        ),
                    );
                }
                let mut parties: Vec<NetworkPartyConfig> = Vec::new();
                let mut j: u16 = 0;
                while j < plan.n
                    invariant
                        j <= plan.n,
                        is_complete(table@, plan.n),
                        parties@.len() == j,
                        forall|t: int|
                            0 <= t < j ==> (#[trigger] parties@[t])@ == table@[t as PartyIndex]@,
                    decreases plan.n - j,
                {
                    assert(table@.contains_key(j));
                    match table.get(&j) {
                        Some(config) => {
                            let entry = NetworkPartyConfig {
                                id: config.id,
                                dns_name: crate::mesh::Address {
                                    hostname: config.dns_name.hostname.clone(),
                                    port: config.dns_name.port,
                                },
                                cert_path: config.cert_path.clone(),
                            };
                            assert(entry@ == table@[j]@);
                            parties.push(entry);
                        },
                        None => {},
                    }
                    j = j + 1;
                }
                assert(party_views(parties@) =~= parties_in_order(config_views(table@), plan.n));
                Ok(
                    NetworkConfigFile {
                        my_id: plan.local_party_index as usize,
                        bind_addr: self.mpc_listen_dns.clone(),
                        key_path: self.key_path.clone(),
                        parties,
                        timeout_secs: Some(HANDSHAKE_TIMEOUT_SECS),
                    },
                )
            },
        }
    }

    /// Records the end of the mesh handshake of session `session_instance_id`.
    ///
    /// A failure leaves the cache as it was, so that the session can be tried
    /// again, and is reported as a network error that quotes the reason. A
    /// handle for a session that is cached already is dropped: the cached
    /// handle is returned and stays. Any other handle is wrapped for sharing,
    /// cached under the session identifier and returned.
    pub fn handshake_finished(
        &mut self,
        session_instance_id: &str,
        result: Result<H, String>,
    ) -> (out: Result<Arc<H>, Error>)
        requires
            old(self).wf(),
        ensures
            final(self).wf(),
            final(self).local_public_key() == old(self).local_public_key(),
            final(self).mpc_listen_dns() == old(self).mpc_listen_dns(),
            final(self).key_path() == old(self).key_path(),
            final(self).cert_path() == old(self).cert_path(),
            match result {
                Ok(handler) => if old(self).sessions().contains_key(session_instance_id@) {
                    &&& out matches Ok(handle)
                    &&& handle == old(self).sessions()[session_instance_id@]
                    &&& final(self).sessions() == old(self).sessions()
                } else {
                    &&& out matches Ok(handle)
                    &&& *handle == handler
                    &&& final(self).sessions() == old(self).sessions().insert(
                        session_instance_id@,
                        handle,
                    )
                },
                Err(reason) => {
                    &&& out matches Err(Error::NetworkError(text))
                    &&& text@ == "Failed to establish MPC network: "@ + reason@
                    &&& final(self).sessions() == old(self).sessions()
                },
            },
    {
        match result {
            Ok(handler) => {
                match self.established_handlers.get(session_instance_id) {
                    Some(cached) => Ok(cached),
                    None => {
                        let handle = Arc::new(handler);
                        let returned = share(&handle);
                        self.established_handlers.insert(session_instance_id, handle);
                        Ok(returned)
                    },
                }
            },
            Err(reason) => {
                let mut text = String::from_str("Failed to establish MPC network: ");
                text.append(reason.as_str());
                Err(Error::NetworkError(text))
            },
        }
    }
}

} // verus!
