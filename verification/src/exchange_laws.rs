//! What the configuration exchange guarantees to the parties that run it.

use crate::mesh::NetworkPartyConfigView;
use crate::p2p::{
    digested, exchange_outcome, indices_below, is_complete, lemma_indices_below, party_config,
    spec_commitment, Blame, CommitMsg, Delivered, ExchangeOutcome, PartyIndex, RevealMsg,
    RevealMsgView, Rounds, Verdict,
};
use vstd::prelude::*;

verus! {

/// The table every party should end with when party `j` reveals `configs[j]`.
pub open spec fn agreed_configs(
    n: PartyIndex,
    configs: Seq<RevealMsgView>,
) -> Map<PartyIndex, NetworkPartyConfigView> {
    Map::new(
        |j: PartyIndex| j < n,
        |j: PartyIndex| party_config(j, configs[j as int]).unwrap(),
    )
}

/// Whether one of the first `k` commitments was sent by party `j`.
pub open spec fn heard_before(commitments: Seq<Delivered<CommitMsg>>, j: PartyIndex, k: int) -> bool {
    exists|t: int| 0 <= t < k && t < commitments.len() && (#[trigger] commitments[t]).sender == j
}

/// Whether the two rounds delivered to party `i` are those of an honest run
/// among `n` parties in which party `j` reveals `configs[j]`: every delivered
/// message comes from a party of the session, every reveal is its sender's
/// configuration, every commitment is the digest of that configuration, and
/// every other party's messages were delivered.
pub open spec fn honest_rounds(
    i: PartyIndex,
    n: PartyIndex,
    configs: Seq<RevealMsgView>,
    commitments: Seq<Delivered<CommitMsg>>,
    revealed: Seq<Delivered<RevealMsg>>,
) -> bool {
    &&& configs.len() == n
    &&& commitments.len() == revealed.len()
    &&& forall|k: int|
        0 <= k < commitments.len() ==> {
            let sender = (#[trigger] commitments[k]).sender;
            &&& sender < n
            &&& revealed[k].msg@ == configs[sender as int]
            &&& commitments[k].msg.commitment@ == spec_commitment(configs[sender as int])
        }
    &&& forall|j: PartyIndex|
        j < n && j != i ==> #[trigger] heard_before(commitments, j, commitments.len() as int)
}

proof fn lemma_honest_prefix(
    i: PartyIndex,
    n: PartyIndex,
    configs: Seq<RevealMsgView>,
    commitments: Seq<Delivered<CommitMsg>>,
    revealed: Seq<Delivered<RevealMsg>>,
    k: int,
)
    requires
        i < n,
        honest_rounds(i, n, configs, commitments, revealed),
        forall|j: PartyIndex| j < n ==> party_config(j, configs[j as int]) is Some,
        0 <= k <= commitments.len(),
    ensures
        ({
            let rounds = digested(commitments, revealed);
            &&& rounds.blames_upto(i, k).len() == 0
            &&& forall|t: int| 0 <= t < k ==> !(#[trigger] rounds.verdict_at(i, t) is Unreadable)
            &&& forall|j: PartyIndex| #[trigger]
                rounds.peers_upto(i, k).contains_key(j) <==> (j != i && heard_before(
                    commitments,
                    j,
                    k,
                ))
            &&& forall|j: PartyIndex| #[trigger]
                rounds.peers_upto(i, k).contains_key(j) ==> j < n && rounds.peers_upto(i, k)[j]
                    == party_config(j, configs[j as int]).unwrap()
        }),
    decreases k,
{
    let rounds = digested(commitments, revealed);
    if k > 0 {
        lemma_honest_prefix(i, n, configs, commitments, revealed, k - 1);
        let sender = commitments[k - 1].sender;
        let earlier = rounds.peers_upto(i, k - 1);
        let now = rounds.peers_upto(i, k);
        assert(party_config(sender, configs[sender as int]) is Some);
        assert(rounds.digests[k - 1] == spec_commitment(revealed[k - 1].msg@));
        if sender == i {
            assert(now == earlier);
        } else {
            assert(rounds.verdict_at(i, k - 1) == Verdict::Verified(
                party_config(sender, configs[sender as int]).unwrap(),
            ));
            assert(now == earlier.insert(
                sender,
                party_config(sender, configs[sender as int]).unwrap(),
            ));
        }
        assert forall|j: PartyIndex| #[trigger]
            now.contains_key(j) <==> (j != i && heard_before(commitments, j, k)) by {
            if now.contains_key(j) {
                if earlier.contains_key(j) {
                    assert(heard_before(commitments, j, k - 1));
                    let t = choose|t: int|
                        0 <= t < k - 1 && t < commitments.len() && (
                        #[trigger] commitments[t]).sender == j;
                    assert(0 <= t < k && commitments[t].sender == j);
                } else {
                    assert(commitments[k - 1].sender == j);
                }
            }
            if j != i && heard_before(commitments, j, k) {
                let t = choose|t: int|
                    0 <= t < k && t < commitments.len() && (#[trigger] commitments[t]).sender == j;
                if t < k - 1 {
                    assert(heard_before(commitments, j, k - 1));
                }
            }
        }
    }
}

/// Honest runs agree: when every one of `n >= 2` parties commits to what it
/// reveals and every revealed endpoint is well formed, party `i` ends the
/// exchange with a table of exactly `n` entries, keyed `0..n-1`, that holds
/// party `j`'s configuration under `j`. The table does not depend on `i`.
pub proof fn lemma_honest_exchange_agrees(
    i: PartyIndex,
    n: PartyIndex,
    configs: Seq<RevealMsgView>,
    commitments: Seq<Delivered<CommitMsg>>,
    revealed: Seq<Delivered<RevealMsg>>,
)
    requires
        n >= 2,
        i < n,
        honest_rounds(i, n, configs, commitments, revealed),
        forall|j: PartyIndex| j < n ==> party_config(j, configs[j as int]) is Some,
    ensures
        exchange_outcome(i, n, configs[i as int], commitments, revealed)
            == ExchangeOutcome::Agreed(agreed_configs(n, configs)),
        is_complete(agreed_configs(n, configs), n),
        agreed_configs(n, configs).dom().finite(),
        agreed_configs(n, configs).dom().len() == n,
{
    let m = commitments.len() as int;
    let rounds = digested(commitments, revealed);
    let own = party_config(i, configs[i as int]).unwrap();
    lemma_honest_prefix(i, n, configs, commitments, revealed, m);
    assert(rounds.len() == m);
    assert(!exists|k: int| rounds.is_first_unreadable(i, k));
    let table = rounds.peers_upto(i, m).insert(i, own);
    assert(table =~= agreed_configs(n, configs)) by {
        assert forall|j: PartyIndex| table.contains_key(j) <==> j < n by {
            if j < n && j != i {
                assert(heard_before(commitments, j, m));
            }
        }
    }
    lemma_indices_below(n);
    assert(agreed_configs(n, configs).dom() =~= indices_below(n));
}

/// Whatever is agreed is complete: an exchange of party `i` of `n` that ends
/// with a table ends with one that has exactly the keys `0..n-1`.
pub proof fn lemma_agreed_is_complete(
    i: PartyIndex,
    n: u16,
    local: RevealMsgView,
    commitments: Seq<Delivered<CommitMsg>>,
    revealed: Seq<Delivered<RevealMsg>>,
)
    ensures
        exchange_outcome(i, n, local, commitments, revealed) matches ExchangeOutcome::Agreed(table)
            ==> is_complete(table, n),
{
}

/// Any two parties of an honest run end the exchange with the same table.
pub proof fn lemma_honest_parties_agree(
    first: PartyIndex,
    second: PartyIndex,
    n: PartyIndex,
    configs: Seq<RevealMsgView>,
    first_commitments: Seq<Delivered<CommitMsg>>,
    first_revealed: Seq<Delivered<RevealMsg>>,
    second_commitments: Seq<Delivered<CommitMsg>>,
    second_revealed: Seq<Delivered<RevealMsg>>,
)
    requires
        n >= 2,
        first < n,
        second < n,
        honest_rounds(first, n, configs, first_commitments, first_revealed),
        honest_rounds(second, n, configs, second_commitments, second_revealed),
        forall|j: PartyIndex| j < n ==> party_config(j, configs[j as int]) is Some,
    ensures
        exchange_outcome(first, n, configs[first as int], first_commitments, first_revealed)
            == exchange_outcome(
            second,
            n,
            configs[second as int],
            second_commitments,
            second_revealed,
        ),
{
    lemma_honest_exchange_agrees(first, n, configs, first_commitments, first_revealed);
    lemma_honest_exchange_agrees(second, n, configs, second_commitments, second_revealed);
}

proof fn lemma_blames_grow(rounds: Rounds, i: PartyIndex, k: int, m: int, blame: Blame)
    requires
        0 <= k <= m,
        rounds.blames_upto(i, k).contains(blame),
    ensures
        rounds.blames_upto(i, m).contains(blame),
    decreases m - k,
{
    if k < m {
        let earlier = rounds.blames_upto(i, m - 1);
        lemma_blames_grow(rounds, i, k, m - 1, blame);
        let at = choose|t: int| 0 <= t < earlier.len() && earlier[t] == blame;
        let now = rounds.blames_upto(i, m);
        assert(now[at] == blame);
    }
}

/// A cheater is blamed: if the peer whose messages were delivered at position
/// `k` revealed something that does not hash to its commitment, then the
/// exchange of party `i` fails with a list of blames that names that peer
/// together with the identifiers of both of its messages, whatever else was
/// delivered.
pub proof fn lemma_cheater_is_blamed(
    i: PartyIndex,
    n: u16,
    local: RevealMsgView,
    commitments: Seq<Delivered<CommitMsg>>,
    revealed: Seq<Delivered<RevealMsg>>,
    k: int,
)
    requires
        0 <= k < commitments.len(),
        k < revealed.len(),
        commitments[k].sender != i,
        commitments[k].msg.commitment@ != spec_commitment(revealed[k].msg@),
    ensures
        exchange_outcome(i, n, local, commitments, revealed) matches ExchangeOutcome::Cheated(
            blames,
        ) && blames.contains(
            Blame {
                guilty_party: commitments[k].sender,
                commitment_msg: commitments[k].msg_id,
                reveal_msg: revealed[k].msg_id,
            },
        ),
{
    let rounds = digested(commitments, revealed);
    let m = rounds.len();
    let blame = Blame {
        guilty_party: commitments[k].sender,
        commitment_msg: commitments[k].msg_id,
        reveal_msg: revealed[k].msg_id,
    };
    assert(rounds.digests[k] == spec_commitment(revealed[k].msg@));
    let upto = rounds.blames_upto(i, k + 1);
    assert(upto[upto.len() - 1] == blame);
    lemma_blames_grow(rounds, i, k + 1, m, blame);
    assert(rounds.blames_upto(i, m).len() > 0);
}

} // verus!
