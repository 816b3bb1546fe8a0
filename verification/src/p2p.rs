//! Commit-reveal exchange by which the parties of a session agree on the
//! configuration of their MPC mesh.

use crate::digest::{sha256, spec_sha256};
use crate::encoding::{bincode_serialize_pair, encode_string_pair};
use crate::error::Error;
use crate::mesh::{Address, AddressView, NetworkPartyConfig, NetworkPartyConfigView};
use crate::text::{chars_of, number_error, parse_u16, parse_u16_chars};
use std::collections::HashMap;
use vstd::prelude::*;

verus! {

/// Position of a party in the agreed ordering of a session.
pub type PartyIndex = u16;

/// Identifier that the transport assigns to a delivered message.
pub type MsgId = u64;

/// First-round message: the digest of the sender's encoded [`RevealMsg`].
#[derive(Debug, Clone, PartialEq)]
pub struct CommitMsg {
    pub commitment: [u8; 32],
}

/// Second-round message: where the sender's MPC endpoint listens and where its
/// certificate lies.
#[derive(Debug, Clone, PartialEq)]
pub struct RevealMsg {
    pub dns_name: String,
    pub cert_path: String,
}

/// Mathematical content of a [`RevealMsg`].
pub struct RevealMsgView {
    pub dns_name: Seq<char>,
    pub cert_path: Seq<char>,
}

impl View for RevealMsg {
    type V = RevealMsgView;

    open spec fn view(&self) -> RevealMsgView {
        RevealMsgView { dns_name: self.dns_name@, cert_path: self.cert_path@ }
    }
}

/// The messages of the configuration exchange.
#[derive(Debug, Clone, PartialEq)]
pub enum ConfigExchangeMsg {
    Commit(CommitMsg),
    Reveal(RevealMsg),
}

/// Evidence that a party revealed something other than what it committed to.
#[derive(Debug, Clone, Copy, PartialEq, Eq, Structural)]
pub struct Blame {
    pub guilty_party: PartyIndex,
    pub commitment_msg: MsgId,
    pub reveal_msg: MsgId,
}

/// Whether position `p` holds the one and only colon of `s`.
pub open spec fn is_only_colon(s: Seq<char>, p: int) -> bool {
    &&& 0 <= p < s.len()
    &&& s[p] == ':'
    &&& forall|k: int| 0 <= k < s.len() && k != p ==> s[k] != ':'
}

/// The endpoint that `hostname:port` text names, if it has that shape: exactly
/// one colon, and after it a decimal 16-bit port.
pub open spec fn spec_parse_dns_name(s: Seq<char>) -> Option<AddressView> {
    if exists|p: int| is_only_colon(s, p) {
        let p = choose|p: int| is_only_colon(s, p);
        match parse_u16(s.skip(p + 1)) {
            Some(port) => Some(AddressView { hostname: s.take(p), port }),
            None => None,
        }
    } else {
        None
    }
}

/// What is reported of text that names no endpoint: why its port is no
/// number, if the text has its one colon, and else the text itself.
pub open spec fn dns_error_text(s: Seq<char>) -> Seq<char> {
    if exists|p: int| is_only_colon(s, p) {
        let p = choose|p: int| is_only_colon(s, p);
        "Invalid port number: "@ + number_error(s.skip(p + 1)).spec_message()
    } else {
        "Invalid format, expected hostname:port, got "@ + s
    }
}

/// Splits `hostname:port` text into an [`Address`].
pub fn parse_dns_name(dns_name: &str) -> (out: Result<Address, Error>)
    ensures
        match spec_parse_dns_name(dns_name@) {
            Some(address) => out matches Ok(a) && a@ == address,
            None => out matches Err(Error::InvalidDnsName(text)) && text@ == dns_error_text(
                dns_name@,
            ),
        },
{
    let chars = chars_of(dns_name);
    let n = chars.len();
    let mut first: usize = n;
    let mut colons: usize = 0;
    let mut k: usize = 0;
    while k < n
        invariant
            k <= n,
            n == chars.len(),
            colons <= k,
            colons == 0 ==> first == n && forall|j: int| 0 <= j < k ==> chars@[j] != ':',
            colons > 0 ==> first < k && chars@[first as int] == ':',
            colons == 1 ==> forall|j: int| 0 <= j < k && j != first ==> chars@[j] != ':',
            colons > 1 ==> exists|j: int| 0 <= j < k && j != first && chars@[j] == ':',
        decreases n - k,
    {
        if chars[k] == ':' {
            if colons == 0 {
                first = k;
            }
            colons = colons + 1;
        }
        k = k + 1;
    }
    if colons != 1 {
        proof {
            if exists|p: int| is_only_colon(chars@, p) {
                let p = choose|p: int| is_only_colon(chars@, p);
                if colons > 1 {
                    let j = choose|j: int| 0 <= j < k && j != first && chars@[j] == ':';
                    assert(j == p && first == p);
                }
            }
        }
        let mut message = String::from_str("Invalid format, expected hostname:port, got ");
        message.append(dns_name);
        return Err(Error::InvalidDnsName(message));
    }
    proof {
        assert(is_only_colon(chars@, first as int));
        let p = choose|p: int| is_only_colon(chars@, p);
        assert(p == first);
        assert(chars@.skip(first + 1) == chars@.subrange(first + 1, n as int));
    }
    match parse_u16_chars(&chars, first + 1, n) {
        Ok(port) => {
            let hostname = dns_name.substring_char(0, first).to_owned();
            Ok(Address { hostname, port })
        },
        Err(reason) => {
            let mut message = String::from_str("Invalid port number: ");
            message.append(reason.message());
            Err(Error::InvalidDnsName(message))
        },
    }
}

/// A round message as the transport hands it over: who sent it, under which
/// identifier it was delivered, and what it says.
#[derive(Debug, Clone)]
pub struct Delivered<M> {
    pub sender: PartyIndex,
    pub msg_id: MsgId,
    pub msg: M,
}

/// The bytes that stand for a [`RevealMsg`] on the wire and under the digest.
pub open spec fn spec_encode_reveal(msg: RevealMsgView) -> Seq<u8> {
    encode_string_pair(msg.dns_name, msg.cert_path)
}

/// The commitment that belongs to a [`RevealMsg`]: the SHA-256 digest of its encoding.
pub open spec fn spec_commitment(msg: RevealMsgView) -> Seq<u8> {
    spec_sha256(spec_encode_reveal(msg))
}

/// Encodes a [`RevealMsg`] in the one format all parties use.
pub fn encode_reveal(msg: &RevealMsg) -> (out: Vec<u8>)
    ensures
        out@ == spec_encode_reveal(msg@),
{
    bincode_serialize_pair(msg.dns_name.as_str(), msg.cert_path.as_str()).unwrap()
}

/// Computes the commitment to a [`RevealMsg`].
pub fn commitment_of(msg: &RevealMsg) -> (out: CommitMsg)
    ensures
        out.commitment@ == spec_commitment(msg@),
{
    let encoded = encode_reveal(msg);
    CommitMsg { commitment: sha256(encoded.as_slice()) }
}

/// Whether two digests hold the same bytes.
pub fn same_digest(a: &[u8; 32], b: &[u8; 32]) -> (out: bool)
    ensures
        out == (a@ == b@),
{
    let mut k: usize = 0;
    while k < 32
        invariant
            k <= 32,
            forall|j: int| 0 <= j < k ==> a@[j] == b@[j],
        decreases 32 - k,
    {
        if a[k] != b[k] {
            return false;
        }
        k = k + 1;
    }
    assert(a@ =~= b@);
    true
}

/// The mesh entry of party `j`, given what it revealed; none if its endpoint
/// does not parse.
pub open spec fn party_config(j: PartyIndex, msg: RevealMsgView) -> Option<NetworkPartyConfigView> {
    match spec_parse_dns_name(msg.dns_name) {
        Some(address) => Some(
            NetworkPartyConfigView { id: j as usize, dns_name: address, cert_path: msg.cert_path },
        ),
        None => None,
    }
}

/// What a party concludes from one peer's commitment and reveal.
pub enum Verdict {
    /// The messages are the local party's own and are not examined.
    Own,
    /// The reveal does not hash to the commitment.
    Guilty(Blame),
    /// The reveal matches the commitment but names no valid endpoint.
    Unreadable,
    /// The reveal matches the commitment and yields this mesh entry.
    Verified(NetworkPartyConfigView),
}

/// The verdict of party `i` on a commitment and the reveal delivered in the
/// same position, given the digest of that reveal.
pub open spec fn verdict(
    i: PartyIndex,
    commit: Delivered<CommitMsg>,
    reveal: Delivered<RevealMsg>,
    digest: Seq<u8>,
) -> Verdict {
    if commit.sender == i {
        Verdict::Own
    } else if commit.msg.commitment@ != digest {
        Verdict::Guilty(
            Blame {
                guilty_party: commit.sender,
                commitment_msg: commit.msg_id,
                reveal_msg: reveal.msg_id,
            },
        )
    } else {
        match party_config(commit.sender, reveal.msg@) {
            Some(config) => Verdict::Verified(config),
            None => Verdict::Unreadable,
        }
    }
}

/// The two completed rounds as one party sees them, with the digest of every
/// delivered reveal.
pub struct Rounds {
    pub commitments: Seq<Delivered<CommitMsg>>,
    pub revealed: Seq<Delivered<RevealMsg>>,
    pub digests: Seq<Seq<u8>>,
}

/// Whether a table has exactly one entry for each of the parties `0..n-1`.
pub open spec fn is_complete<V>(table: Map<PartyIndex, V>, n: u16) -> bool {
    forall|j: PartyIndex| table.contains_key(j) <==> j < n
}

/// How the configuration exchange ends for one party.
pub enum ExchangeOutcome {
    /// Every peer was verified; the map holds the mesh entry of each party.
    Agreed(Map<PartyIndex, NetworkPartyConfigView>),
    /// At least one peer cheated; the blames are in delivery order.
    Cheated(Seq<Blame>),
    /// Nobody cheated, but the local endpoint, or else that of the first
    /// verified peer with such an endpoint, is not `hostname:port`; the text is
    /// the malformed endpoint.
    InvalidDns(Seq<char>),
    /// Nobody cheated and every endpoint is well formed, but the rounds do not
    /// yield exactly one entry per party.
    Incomplete,
}

impl Rounds {
    /// Number of positions at which a commitment, a reveal and its digest are there.
    pub open spec fn len(self) -> int {
        let shorter = if self.commitments.len() <= self.revealed.len() {
            self.commitments.len()
        } else {
            self.revealed.len()
        };
        if shorter <= self.digests.len() {
            shorter as int
        } else {
            self.digests.len() as int
        }
    }

    /// The verdict of party `i` on position `k`.
    pub open spec fn verdict_at(self, i: PartyIndex, k: int) -> Verdict {
        verdict(i, self.commitments[k], self.revealed[k], self.digests[k])
    }

    /// The blames that the first `k` positions give rise to, in delivery order.
    pub open spec fn blames_upto(self, i: PartyIndex, k: int) -> Seq<Blame>
        decreases k,
    {
        if k <= 0 {
            Seq::empty()
        } else {
            let earlier = self.blames_upto(i, k - 1);
            match self.verdict_at(i, k - 1) {
                Verdict::Guilty(blame) => earlier.push(blame),
                _ => earlier,
            }
        }
    }

    /// The mesh entries of the peers verified at the first `k` positions, a
    /// later delivery replacing an earlier one of the same sender.
    pub open spec fn peers_upto(
        self,
        i: PartyIndex,
        k: int,
    ) -> Map<PartyIndex, NetworkPartyConfigView>
        decreases k,
    {
        if k <= 0 {
            Map::empty()
        } else {
            let earlier = self.peers_upto(i, k - 1);
            match self.verdict_at(i, k - 1) {
                Verdict::Verified(config) => earlier.insert(self.commitments[k - 1].sender, config),
                _ => earlier,
            }
        }
    }

    /// Whether position `k` is the first at which a verified peer names no valid
    /// endpoint.
    pub open spec fn is_first_unreadable(self, i: PartyIndex, k: int) -> bool {
        &&& 0 <= k < self.len()
        &&& self.verdict_at(i, k) is Unreadable
        &&& forall|j: int| 0 <= j < k ==> !(#[trigger] self.verdict_at(i, j) is Unreadable)
    }

    /// The malformed endpoint over which the exchange of party `i` stumbles, if
    /// there is one: the local endpoint, or else that of the first verified peer
    /// whose endpoint is not `hostname:port`.
    pub open spec fn malformed_endpoint(
        self,
        i: PartyIndex,
        local: RevealMsgView,
    ) -> Option<Seq<char>> {
        if party_config(i, local) is None {
            Some(local.dns_name)
        } else if exists|k: int| self.is_first_unreadable(i, k) {
            let k = choose|k: int| self.is_first_unreadable(i, k);
            Some(self.revealed[k].msg.dns_name@)
        } else {
            None
        }
    }

    /// The outcome of the exchange for party `i` of `n`, which reveals `local`.
    ///
    /// Every position is judged. If any peer cheated, the exchange fails with
    /// the blames of all cheaters. Else a malformed endpoint fails it. Else the
    /// table of the local entry and the verified peers' entries is the result,
    /// provided it holds exactly one entry per party.
    pub open spec fn outcome(self, i: PartyIndex, n: u16, local: RevealMsgView) -> ExchangeOutcome {
        if self.blames_upto(i, self.len()).len() > 0 {
            ExchangeOutcome::Cheated(self.blames_upto(i, self.len()))
        } else {
            match self.malformed_endpoint(i, local) {
                Some(name) => ExchangeOutcome::InvalidDns(name),
                None => {
                    let table = self.peers_upto(i, self.len()).insert(
                        i,
                        party_config(i, local).unwrap(),
                    );
                    if is_complete(table, n) {
                        ExchangeOutcome::Agreed(table)
                    } else {
                        ExchangeOutcome::Incomplete
                    }
                },
            }
        }
    }
}

/// The digests that belong to the delivered reveals.
pub open spec fn reveal_digests(revealed: Seq<Delivered<RevealMsg>>) -> Seq<Seq<u8>> {
    Seq::new(revealed.len(), |k: int| spec_commitment(revealed[k].msg@))
}

/// The two completed rounds, every reveal with the digest that belongs to it.
pub open spec fn digested(
    commitments: Seq<Delivered<CommitMsg>>,
    revealed: Seq<Delivered<RevealMsg>>,
) -> Rounds {
    Rounds { commitments, revealed, digests: reveal_digests(revealed) }
}

/// The outcome of the exchange for party `i` of `n`, from its own reveal and
/// the two completed rounds.
pub open spec fn exchange_outcome(
    i: PartyIndex,
    n: u16,
    local: RevealMsgView,
    commitments: Seq<Delivered<CommitMsg>>,
    revealed: Seq<Delivered<RevealMsg>>,
) -> ExchangeOutcome {
    digested(commitments, revealed).outcome(i, n, local)
}

/// The mathematical content of a table of mesh entries.
pub open spec fn config_views(
    configs: Map<PartyIndex, NetworkPartyConfig>,
) -> Map<PartyIndex, NetworkPartyConfigView> {
    Map::new(|j: PartyIndex| configs.contains_key(j), |j: PartyIndex| configs[j]@)
}

/// The byte strings of a list of digests.
pub open spec fn digest_views(digests: Seq<[u8; 32]>) -> Seq<Seq<u8>> {
    Seq::new(digests.len(), |k: int| digests[k]@)
}

/// What is reported of rounds that do not yield one entry per party.
pub open spec fn incomplete_text() -> Seq<char> {
    "Config exchange did not yield exactly one entry per party"@
}

/// Whether a result is the one that an outcome calls for.
pub open spec fn result_matches_outcome(
    result: Result<HashMap<PartyIndex, NetworkPartyConfig>, Error>,
    outcome: ExchangeOutcome,
) -> bool {
    match outcome {
        ExchangeOutcome::Agreed(configs) => result matches Ok(table) && config_views(table@)
            == configs,
        ExchangeOutcome::Cheated(blames) => result matches Err(
            Error::CommitmentMismatch { guilty_parties },
        ) && guilty_parties@ == blames,
        ExchangeOutcome::InvalidDns(name) => result matches Err(Error::InvalidDnsName(text))
            && text@ == dns_error_text(name),
        ExchangeOutcome::Incomplete => result matches Err(Error::MpcProtocolError(text)) && text@
            == incomplete_text(),
    }
}

/// The party indices below `n`.
pub open spec fn indices_below(n: u16) -> Set<PartyIndex> {
    Set::new(|j: PartyIndex| j < n)
}

/// There are `n` party indices below `n`.
pub proof fn lemma_indices_below(n: u16)
    ensures
        indices_below(n).finite(),
        indices_below(n).len() == n,
    decreases n,
{
    if n == 0 {
        assert(indices_below(n) =~= Set::empty());
    } else {
        let below = (n - 1) as PartyIndex;
        lemma_indices_below(below);
        assert(indices_below(n) =~= indices_below(below).insert(below));
    }
}

/// Whether `table` has exactly one entry for each of the parties `0..n-1`.
pub fn table_is_complete<V>(table: &HashMap<PartyIndex, V>, n: u16) -> (out: bool)
    ensures
        out == is_complete(table@, n),
{
    proof {
        lemma_indices_below(n);
    }
    if table.len() != n as usize {
        proof {
            if is_complete(table@, n) {
                assert(table@.dom() =~= indices_below(n));
            }
        }
        return false;
    }
    let mut j: u16 = 0;
    while j < n
        invariant
            j <= n,
            forall|t: PartyIndex| t < j ==> table@.contains_key(t),
        decreases n - j,
    {
        if !table.contains_key(&j) {
            return false;
        }
        j = j + 1;
    }
    proof {
        assert(indices_below(n).subset_of(table@.dom()));
        vstd::set_lib::lemma_subset_equality(indices_below(n), table@.dom());
        assert forall|t: PartyIndex| table@.contains_key(t) implies t < n by {
            assert(indices_below(n).contains(t));
        }
    }
    true
}

/// Checks every peer's commitment against the digest of its reveal and
/// collates the mesh configuration of party `i` of `n`.
///
/// Commitments, reveals and digests are paired by position, and every
/// position is judged. The local party's own messages are skipped. A
/// commitment that is not the digest yields a blame; if any blame was recorded
/// the exchange fails with all of them. Else the local party and every peer
/// must have revealed a valid endpoint, and together they must be exactly the
/// parties `0..n-1`.
pub fn collate_digested(
    i: PartyIndex,
    n: u16,
    local_config: &RevealMsg,
    commitments: &Vec<Delivered<CommitMsg>>,
    revealed: &Vec<Delivered<RevealMsg>>,
    digests: &Vec<[u8; 32]>,
) -> (out: Result<HashMap<PartyIndex, NetworkPartyConfig>, Error>)
    ensures
        result_matches_outcome(
            out,
            (Rounds {
                commitments: commitments@,
                revealed: revealed@,
                digests: digest_views(digests@),
            }).outcome(i, n, local_config@),
        ),
{
    let ghost rounds = Rounds {
        commitments: commitments@,
        revealed: revealed@,
        digests: digest_views(digests@),
    };
    let mut party_configs: HashMap<PartyIndex, NetworkPartyConfig> = HashMap::new();
    assert(config_views(party_configs@) =~= rounds.peers_upto(i, 0));
    let mut guilty_parties: Vec<Blame> = Vec::new();
    let mut malformed: Option<Error> = None;
    let ghost mut malformed_at: int = 0;
    let shorter = if commitments.len() <= revealed.len() {
        commitments.len()
    } else {
        revealed.len()
    };
    let m = if shorter <= digests.len() {
        shorter
    } else {
        digests.len()
    };
    let mut k: usize = 0;
    while k < m
        invariant
            k <= m,
            m == rounds.len(),
            rounds.commitments == commitments@,
            rounds.revealed == revealed@,
            rounds.digests == digest_views(digests@),
            guilty_parties@ == rounds.blames_upto(i, k as int),
            config_views(party_configs@) == rounds.peers_upto(i, k as int),
            malformed is None ==> forall|j: int|
                0 <= j < k ==> !(#[trigger] rounds.verdict_at(i, j) is Unreadable),
            malformed matches Some(e) ==> {
                &&& malformed_at < k
                &&& rounds.is_first_unreadable(i, malformed_at)
                &&& e matches Error::InvalidDnsName(text)
                &&& text@ == dns_error_text(revealed@[malformed_at].msg.dns_name@)
            },
        decreases m - k,
    {
        let commit = &commitments[k];
        let reveal = &revealed[k];
        assert(rounds.digests[k as int] == digests@[k as int]@);
        if commit.sender != i {
            if !same_digest(&commit.msg.commitment, &digests[k]) {
                guilty_parties.push(
                    Blame {
                        guilty_party: commit.sender,
                        commitment_msg: commit.msg_id,
                        reveal_msg: reveal.msg_id,
                    },
                );
            } else {
                match parse_dns_name(reveal.msg.dns_name.as_str()) {
                    Err(e) => {
                        if malformed.is_none() {
                            malformed = Some(e);
                            proof {
                                malformed_at = k as int;
                            }
                        }
                    },
                    Ok(address) => {
                        let config = NetworkPartyConfig {
                            id: commit.sender as usize,
                            dns_name: address,
                            cert_path: reveal.msg.cert_path.clone(),
                        };
                        let ghost before = party_configs@;
                        let ghost view = config@;
                        party_configs.insert(commit.sender, config);
                        assert(config_views(party_configs@) =~= config_views(before).insert(
                            commit.sender,
                            view,
                        ));
                    },
                }
            }
        }
        k = k + 1;
    }
    if guilty_parties.len() > 0 {
        return Err(Error::CommitmentMismatch { guilty_parties });
    }
    let local_address = match parse_dns_name(local_config.dns_name.as_str()) {
        Ok(address) => address,
        Err(e) => {
            return Err(e);
        },
    };
    match malformed {
        Some(e) => {
            proof {
                let first = choose|f: int| rounds.is_first_unreadable(i, f);
                assert(first == malformed_at) by {
                    if first < malformed_at {
                        assert(!(rounds.verdict_at(i, first) is Unreadable));
                    } else if first > malformed_at {
                        assert(rounds.verdict_at(i, malformed_at) is Unreadable);
                    }
                }
            }
            return Err(e);
        },
        None => {},
    }
    assert(!exists|f: int| rounds.is_first_unreadable(i, f));
    let own = NetworkPartyConfig {
        id: i as usize,
        dns_name: local_address,
        cert_path: local_config.cert_path.clone(),
    };
    let ghost peers = party_configs@;
    let ghost own_view = own@;
    party_configs.insert(i, own);
    assert(config_views(party_configs@) =~= config_views(peers).insert(i, own_view));
    assert(is_complete(party_configs@, n) == is_complete(config_views(party_configs@), n)) by {
        assert(config_views(party_configs@).dom() =~= party_configs@.dom());
        assert forall|j: PartyIndex|
            config_views(party_configs@).contains_key(j) == party_configs@.contains_key(j) by {}
        if is_complete(party_configs@, n) {
            assert forall|j: PartyIndex|
                config_views(party_configs@).contains_key(j) <==> j < n by {
                assert(party_configs@.contains_key(j) <==> j < n);
            }
        }
        if is_complete(config_views(party_configs@), n) {
            assert forall|j: PartyIndex| party_configs@.contains_key(j) <==> j < n by {
                assert(config_views(party_configs@).contains_key(j) <==> j < n);
            }
        }
    }
    if table_is_complete(&party_configs, n) {
        Ok(party_configs)
    } else {
        Err(
            Error::MpcProtocolError(
                String::from_str("Config exchange did not yield exactly one entry per party"),
            ),
        )
    }
}

/// Checks every peer's reveal against its commitment and collates the mesh
/// configuration of party `i` of `n`: digests every delivered reveal, then
/// judges the rounds by those digests.
pub fn collate_configs(
    i: PartyIndex,
    n: u16,
    local_config: &RevealMsg,
    commitments: &Vec<Delivered<CommitMsg>>,
    revealed: &Vec<Delivered<RevealMsg>>,
) -> (out: Result<HashMap<PartyIndex, NetworkPartyConfig>, Error>)
    ensures
        result_matches_outcome(
            out,
            exchange_outcome(i, n, local_config@, commitments@, revealed@),
        ),
{
    let mut digests: Vec<[u8; 32]> = Vec::new();
    let mut k: usize = 0;
    while k < revealed.len()
        invariant
            k <= revealed.len(),
            digests@.len() == k,
            forall|j: int|
                0 <= j < k ==> (#[trigger] digests@[j])@ == spec_commitment(revealed@[j].msg@),
        decreases revealed.len() - k,
    {
        digests.push(commitment_of(&revealed[k].msg).commitment);
        k = k + 1;
    }
    assert(digest_views(digests@) =~= reveal_digests(revealed@));
    collate_digested(i, n, local_config, commitments, revealed, &digests)
}

/// Where a party stands in the configuration exchange.
#[derive(Debug)]
pub enum ExchangeState {
    /// Nothing has been sent yet.
    Idle,
    /// The commitment is out; the first round is being collected.
    AwaitingCommitments,
    /// The reveal is out; the second round is being collected.
    AwaitingReveals { commitments: Vec<Delivered<CommitMsg>> },
    /// The exchange has ended.
    Finished,
}

/// What the transport reports to the exchange.
#[derive(Debug)]
pub enum ExchangeEvent {
    /// The transport is ready.
    Started,
    /// The first round is complete.
    Commitments(Vec<Delivered<CommitMsg>>),
    /// The second round is complete.
    Reveals(Vec<Delivered<RevealMsg>>),
    /// Sending or receiving failed; the text says how.
    TransportFailed(String),
}

/// What the exchange asks of its driver.
#[derive(Debug)]
pub enum ExchangeAction {
    /// Broadcast the message to all parties, then collect the round it belongs to.
    Broadcast(ConfigExchangeMsg),
    /// Stop: the exchange has ended with this result.
    Finish(Result<HashMap<PartyIndex, NetworkPartyConfig>, Error>),
}

/// One party's side of the configuration exchange, as a state machine: the
/// driver performs each action and reports back what happened.
#[derive(Debug)]
pub struct ConfigExchange {
    /// Index of the local party.
    pub i: PartyIndex,
    /// Number of parties.
    pub n: u16,
    /// What the local party commits to and reveals.
    pub local_config: RevealMsg,
    /// Progress so far.
    pub state: ExchangeState,
}

/// Begins the configuration exchange of party `i` among `n` parties: commits
/// to `local_config` and waits for the commitments of the others.
pub fn mpc_config_exchange(i: PartyIndex, n: u16, local_config: RevealMsg) -> (out: (ConfigExchange, ExchangeAction))
    ensures
        out.0.i == i,
        out.0.n == n,
        out.0.local_config@ == local_config@,
        out.0.state is AwaitingCommitments,
        out.1 matches ExchangeAction::Broadcast(ConfigExchangeMsg::Commit(commit))
            && commit.commitment@ == spec_commitment(local_config@),
{
    ConfigExchange::new(i, n, local_config).step(ExchangeEvent::Started)
}

impl ConfigExchange {
    /// An exchange that has not begun.
    pub fn new(i: PartyIndex, n: u16, local_config: RevealMsg) -> (out: Self)
        ensures
            out.i == i,
            out.n == n,
            out.local_config == local_config,
            out.state is Idle,
    {
        ConfigExchange { i, n, local_config, state: ExchangeState::Idle }
    }

    /// Advances the exchange by one event.
    ///
    /// From `Idle`, `Started` broadcasts the commitment. The completed first
    /// round is stored and answered with the reveal. The completed second round
    /// ends the exchange with the collated configuration or the reason it
    /// failed. A transport failure ends a running exchange with that failure.
    /// Any other event is out of order and ends the exchange with a protocol
    /// error.
    pub fn step(self, event: ExchangeEvent) -> (out: (Self, ExchangeAction))
        ensures
            out.0.i == self.i,
            out.0.n == self.n,
            out.0.local_config@ == self.local_config@,
            match (self.state, event) {
                (ExchangeState::Idle, ExchangeEvent::Started) => {
                    &&& out.0.state is AwaitingCommitments
                    &&& out.1 matches ExchangeAction::Broadcast(ConfigExchangeMsg::Commit(commit))
                    &&& commit.commitment@ == spec_commitment(self.local_config@)
                },
                (ExchangeState::AwaitingCommitments, ExchangeEvent::Commitments(commitments)) => {
                    &&& out.0.state matches ExchangeState::AwaitingReveals { commitments: kept }
                    &&& kept == commitments
                    &&& out.1 matches ExchangeAction::Broadcast(ConfigExchangeMsg::Reveal(reveal))
                    &&& reveal@ == self.local_config@
                },
                (ExchangeState::AwaitingReveals { commitments }, ExchangeEvent::Reveals(revealed)) => {
                    &&& out.0.state is Finished
                    &&& out.1 matches ExchangeAction::Finish(result)
                    &&& result_matches_outcome(
                        result,
                        exchange_outcome(
                            self.i,
                            self.n,
                            self.local_config@,
                            commitments@,
                            revealed@,
                        ),
                    )
                },
                (ExchangeState::Finished, _) => {
                    &&& out.0.state is Finished
                    &&& out.1 matches ExchangeAction::Finish(Err(Error::MpcProtocolError(text)))
                    &&& text@ == "the exchange has already ended"@
                },
                (_, ExchangeEvent::TransportFailed(reason)) => {
                    &&& out.0.state is Finished
                    &&& out.1 matches ExchangeAction::Finish(
                        Err(Error::ExchangeRoundBasedError(text)),
                    )
                    &&& text@ == reason@
                },
                _ => {
                    &&& out.0.state is Finished
                    &&& out.1 matches ExchangeAction::Finish(Err(Error::MpcProtocolError(text)))
                    &&& text@ == "event out of order"@
                },
            },
    {
        let ConfigExchange { i, n, local_config, state } = self;
        match (state, event) {
            (ExchangeState::Idle, ExchangeEvent::Started) => {
                let commit = commitment_of(&local_config);
                (
                    ConfigExchange { i, n, local_config, state: ExchangeState::AwaitingCommitments },
                    ExchangeAction::Broadcast(ConfigExchangeMsg::Commit(commit)),
                )
            },
            (ExchangeState::AwaitingCommitments, ExchangeEvent::Commitments(commitments)) => {
                let reveal = RevealMsg {
                    dns_name: local_config.dns_name.clone(),
                    cert_path: local_config.cert_path.clone(),
                };
                (
                    ConfigExchange {
                        i,
                        n,
                        local_config,
                        state: ExchangeState::AwaitingReveals { commitments },
                    },
                    ExchangeAction::Broadcast(ConfigExchangeMsg::Reveal(reveal)),
                )
            },
            (ExchangeState::AwaitingReveals { commitments }, ExchangeEvent::Reveals(revealed)) => {
                let result = collate_configs(i, n, &local_config, &commitments, &revealed);
                (
                    ConfigExchange { i, n, local_config, state: ExchangeState::Finished },
                    ExchangeAction::Finish(result),
                )
            },
            (ExchangeState::Finished, _) => (
                ConfigExchange { i, n, local_config, state: ExchangeState::Finished },
                ExchangeAction::Finish(
                    Err(Error::MpcProtocolError(String::from_str("the exchange has already ended"))),
                ),
            ),
            (_, ExchangeEvent::TransportFailed(reason)) => (
                ConfigExchange { i, n, local_config, state: ExchangeState::Finished },
                ExchangeAction::Finish(Err(Error::ExchangeRoundBasedError(reason))),
            ),
            _ => (
                ConfigExchange { i, n, local_config, state: ExchangeState::Finished },
                ExchangeAction::Finish(
                    Err(Error::MpcProtocolError(String::from_str("event out of order"))),
                ),
            ),
        }
    }
}

} // verus!
