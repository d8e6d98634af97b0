//! Quorum verification: matching extracted signature proofs against the
//! expected signer identities and canonical messages.

use vstd::prelude::*;

use crate::error::AudiusProgramError;
use crate::eth_address_eq;
use crate::EthereumAddress;

verus! {

/// The identities of a sequence of attesters, as byte strings.
pub open spec fn spec_addresses(s: Seq<EthereumAddress>) -> Seq<Seq<u8>> {
    s.map_values(|a: EthereumAddress| a@)
}

/// An identity is among a sequence of attesters exactly when some index
/// holds it.
proof fn lemma_addresses_contains(s: Seq<EthereumAddress>, a: Seq<u8>)
    ensures
        spec_addresses(s).contains(a) <==> exists|k: int| 0 <= k < s.len() && s[k]@ == a,
{
    if spec_addresses(s).contains(a) {
        let k = choose|k: int| 0 <= k < spec_addresses(s).len() && spec_addresses(s)[k] == a;
        assert(s[k]@ == a);
    }
    if exists|k: int| 0 <= k < s.len() && s[k]@ == a {
        let k = choose|k: int| 0 <= k < s.len() && s[k]@ == a;
        assert(spec_addresses(s)[k] == a);
    }
}

/// Whether a vector of attester identities contains the given one.
pub fn contains_address(v: &Vec<EthereumAddress>, a: &EthereumAddress) -> (r: bool)
    ensures
        r <==> spec_addresses(v@).contains(a@),
{
    let n = v.len();
    let mut i: usize = 0;
    while i < n
        invariant
            i <= n,
            n == v@.len(),
            forall|j: int| 0 <= j < i ==> v@[j]@ != a@,
        decreases n - i,
    {
        if eth_address_eq(&v[i], a) {
            proof {
                assert(spec_addresses(v@)[i as int] == a@);
            }
            return true;
        }
        i += 1;
    }
    proof {
        assert forall|j: int| 0 <= j < spec_addresses(v@).len() implies spec_addresses(v@)[j]
            != a@ by {
            assert(spec_addresses(v@)[j] == v@[j]@);
        }
    }
    false
}

/// The checklist a verification pass keeps: which expected signer
/// identities have already produced a signature in the current batch.
#[derive(Debug)]
pub struct Checkmap {
    entries: Vec<(EthereumAddress, bool)>,
}

/// The map a sequence of checklist entries denotes, later entries
/// overriding earlier ones.
pub open spec fn spec_map_of_entries(entries: Seq<(EthereumAddress, bool)>) -> Map<Seq<u8>, bool>
    decreases entries.len(),
{
    if entries.len() == 0 {
        Map::empty()
    } else {
        spec_map_of_entries(entries.drop_last()).insert(
            entries.last().0@,
            entries.last().1,
        )
    }
}

impl Checkmap {
    /// The map from signer identity to its signed-already flag.
    pub closed spec fn view(&self) -> Map<Seq<u8>, bool> {
        spec_map_of_entries(self.entries@)
    }

    /// The checklist holds each identity at most once.
    pub closed spec fn wf(&self) -> bool {
        forall|i: int, j: int|
            0 <= i < j < self.entries@.len() ==> self.entries@[i].0@ != self.entries@[j].0@
    }

    /// An empty checklist.
    pub fn new() -> (r: Checkmap)
        ensures
            r.wf(),
            r@ == Map::<Seq<u8>, bool>::empty(),
    {
        Checkmap { entries: Vec::new() }
    }
}

/// A key is in the denoted map exactly when some entry carries it.
proof fn lemma_map_of_entries_contains(entries: Seq<(EthereumAddress, bool)>, a: Seq<u8>)
    ensures
        spec_map_of_entries(entries).contains_key(a) <==> exists|i: int|
            0 <= i < entries.len() && entries[i].0@ == a,
    decreases entries.len(),
{
    if entries.len() > 0 {
        lemma_map_of_entries_contains(entries.drop_last(), a);
        if entries.last().0@ == a {
            assert(entries[entries.len() - 1].0@ == a);
        } else if spec_map_of_entries(entries).contains_key(a) {
            let i = choose|i: int| 0 <= i < entries.drop_last().len() && entries.drop_last()[i].0@
                == a;
            assert(entries[i].0@ == a);
        } else if exists|i: int| 0 <= i < entries.len() && entries[i].0@ == a {
            let i = choose|i: int| 0 <= i < entries.len() && entries[i].0@ == a;
            assert(entries.drop_last()[i].0@ == a);
        }
    }
}

/// With distinct keys, the denoted map holds each entry's flag.
proof fn lemma_map_of_entries_value(entries: Seq<(EthereumAddress, bool)>, i: int)
    requires
        forall|k: int, j: int|
            0 <= k < j < entries.len() ==> entries[k].0@ != entries[j].0@,
        0 <= i < entries.len(),
    ensures
        spec_map_of_entries(entries).contains_key(entries[i].0@),
        spec_map_of_entries(entries)[entries[i].0@] == entries[i].1,
    decreases entries.len(),
{
    lemma_map_of_entries_contains(entries, entries[i].0@);
    if i < entries.len() - 1 {
        assert(entries.last().0@ != entries[i].0@);
        lemma_map_of_entries_value(entries.drop_last(), i);
    }
}

/// With distinct keys, updating one entry's flag updates the denoted map
/// at that key alone.
proof fn lemma_map_of_entries_update(entries: Seq<(EthereumAddress, bool)>, i: int, v: bool)
    requires
        forall|k: int, j: int|
            0 <= k < j < entries.len() ==> entries[k].0@ != entries[j].0@,
        0 <= i < entries.len(),
    ensures
        spec_map_of_entries(entries.update(i, (entries[i].0, v))) == spec_map_of_entries(
            entries,
        ).insert(entries[i].0@, v),
    decreases entries.len(),
{
    let updated = entries.update(i, (entries[i].0, v));
    if i == entries.len() - 1 {
        assert(updated.drop_last() =~= entries.drop_last());
        assert(spec_map_of_entries(updated) =~= spec_map_of_entries(entries).insert(
            entries[i].0@,
            v,
        ));
    } else {
        lemma_map_of_entries_update(entries.drop_last(), i, v);
        assert(updated.drop_last() =~= entries.drop_last().update(i, (entries[i].0, v)));
        assert(updated.last() == entries.last());
        assert(entries.last().0@ != entries[i].0@);
        assert(spec_map_of_entries(updated) =~= spec_map_of_entries(entries).insert(
            entries[i].0@,
            v,
        ));
    }
}

/// The checklist built for a list of expected signers: every identity in
/// the list, each mapped to unsigned.
pub open spec fn spec_checkmap_init(signers: Seq<Seq<u8>>) -> Map<Seq<u8>, bool>
    decreases signers.len(),
{
    if signers.len() == 0 {
        Map::empty()
    } else {
        spec_checkmap_init(signers.drop_last()).insert(signers.last(), false)
    }
}

/// The initial checklist contains exactly the expected signers, each
/// still unsigned.
pub proof fn lemma_checkmap_init_props(signers: Seq<Seq<u8>>)
    ensures
        forall|a: Seq<u8>|
            spec_checkmap_init(signers).contains_key(a) <==> signers.contains(a),
        forall|a: Seq<u8>|
            spec_checkmap_init(signers).contains_key(a) ==> spec_checkmap_init(signers)[a]
                == false,
    decreases signers.len(),
{
    if signers.len() > 0 {
        let prefix = signers.drop_last();
        lemma_checkmap_init_props(prefix);
        assert forall|a: Seq<u8>| signers.contains(a) implies spec_checkmap_init(
            signers,
        ).contains_key(a) by {
            let i = choose|i: int| 0 <= i < signers.len() && signers[i] == a;
            if i == signers.len() - 1 {
                assert(a == signers.last());
            } else {
                assert(prefix[i] == a);
                assert(prefix.contains(a));
                assert(spec_checkmap_init(prefix).contains_key(a));
            }
        }
        assert forall|a: Seq<u8>| spec_checkmap_init(signers).contains_key(a) implies
            signers.contains(a) by {
            if a == signers.last() {
                assert(signers[signers.len() - 1] == a);
            } else {
                assert(spec_checkmap_init(prefix).contains_key(a));
                assert(prefix.contains(a));
                let i = choose|i: int| 0 <= i < prefix.len() && prefix[i] == a;
                assert(signers[i] == a);
            }
        }
        assert forall|a: Seq<u8>| spec_checkmap_init(signers).contains_key(a) implies
            spec_checkmap_init(signers)[a] == false by {
            if a != signers.last() {
                assert(spec_checkmap_init(prefix).contains_key(a));
            }
        }
    }
}

/// Build the checklist for a list of expected signers, every identity
/// initially unsigned.
pub fn vec_into_checkmap(vec: &Vec<EthereumAddress>) -> (r: Checkmap)
    ensures
        r.wf(),
        r@ == spec_checkmap_init(spec_addresses(vec@)),
{
    let mut map = Checkmap::new();
    let n = vec.len();
    let mut i: usize = 0;
    while i < n
        invariant
            i <= n,
            n == vec@.len(),
            map.wf(),
            forall|a: Seq<u8>|
                map@.contains_key(a) <==> spec_addresses(vec@).subrange(0, i as int).contains(a),
            forall|a: Seq<u8>| map@.contains_key(a) ==> map@[a] == false,
        decreases n - i,
    {
        let item = vec[i];
        if !checkmap_contains(&map, &item) {
            checkmap_push_unsigned(&mut map, item);
        }
        proof {
            let prefix = spec_addresses(vec@).subrange(0, i as int);
            let prefix1 = spec_addresses(vec@).subrange(0, i + 1);
            assert(prefix1.drop_last() =~= prefix);
            assert(prefix1.last() == vec@[i as int]@);
            assert forall|a: Seq<u8>| map@.contains_key(a) implies prefix1.contains(a) by {
                if a == vec@[i as int]@ {
                    assert(prefix1[prefix1.len() - 1] == a);
                } else {
                    let k = choose|k: int| 0 <= k < prefix.len() && prefix[k] == a;
                    assert(prefix1[k] == a);
                }
            }
            assert forall|a: Seq<u8>| prefix1.contains(a) implies map@.contains_key(a) by {
                let k = choose|k: int| 0 <= k < prefix1.len() && prefix1[k] == a;
                if k < prefix.len() {
                    assert(prefix[k] == a);
                }
            }
        }
        i += 1;
    }
    proof {
        let all = spec_addresses(vec@);
        assert(all.subrange(0, n as int) =~= all);
        lemma_checkmap_init_props(all);
        assert forall|a: Seq<u8>| map@.contains_key(a) implies #[trigger] spec_checkmap_init(
            all,
        ).contains_key(a) && map@[a] == spec_checkmap_init(all)[a] by {}
        assert(map@ =~= spec_checkmap_init(all));
    }
    map
}

/// Whether the checklist holds an entry for the given identity.
fn checkmap_contains(map: &Checkmap, a: &EthereumAddress) -> (r: bool)
    ensures
        r <==> map@.contains_key(a@),
{
    let n = map.entries.len();
    let mut i: usize = 0;
    proof {
        lemma_map_of_entries_contains(map.entries@, a@);
    }
    while i < n
        invariant
            i <= n,
            n == map.entries@.len(),
            map@.contains_key(a@) <==> exists|k: int|
                0 <= k < map.entries@.len() && map.entries@[k].0@ == a@,
            forall|k: int| 0 <= k < i ==> map.entries@[k].0@ != a@,
        decreases n - i,
    {
        if eth_address_eq(&map.entries[i].0, a) {
            return true;
        }
        i += 1;
    }
    false
}

/// Add an unsigned entry for an identity not yet on the checklist.
fn checkmap_push_unsigned(map: &mut Checkmap, a: EthereumAddress)
    requires
        old(map).wf(),
        !old(map)@.contains_key(a@),
    ensures
        final(map).wf(),
        final(map)@ == old(map)@.insert(a@, false),
{
    proof {
        lemma_map_of_entries_contains(map.entries@, a@);
    }
    map.entries.push((a, false));
    proof {
        assert(map.entries@.drop_last() =~= old(map).entries@);
        assert forall|i: int, j: int| 0 <= i < j < map.entries@.len() implies map.entries@[i].0@
            != map.entries@[j].0@ by {
            if j == map.entries@.len() - 1 {
                assert(map.entries@[i] == old(map).entries@[i]);
            }
        }
    }
}

/// Record a signature by the given identity on the checklist: fail with
/// `WrongSigner` for an identity that is not expected at all, and with
/// `SignCollission` for one that has already signed in this batch.
pub fn check_signer(checkmap: &mut Checkmap, eth_signer: &EthereumAddress) -> (r: Result<
    (),
    AudiusProgramError,
>)
    requires
        old(checkmap).wf(),
    ensures
        final(checkmap).wf(),
        !old(checkmap)@.contains_key(eth_signer@) ==> r == Err::<(), AudiusProgramError>(
            AudiusProgramError::WrongSigner,
        ) && final(checkmap)@ == old(checkmap)@,
        old(checkmap)@.contains_key(eth_signer@) && old(checkmap)@[eth_signer@] ==> r == Err::<
            (),
            AudiusProgramError,
        >(AudiusProgramError::SignCollission) && final(checkmap)@ == old(checkmap)@,
        old(checkmap)@.contains_key(eth_signer@) && !old(checkmap)@[eth_signer@] ==> r == Ok::<
            (),
            AudiusProgramError,
        >(()) && final(checkmap)@ == old(checkmap)@.insert(eth_signer@, true),
{
    let n = checkmap.entries.len();
    let mut i: usize = 0;
    proof {
        lemma_map_of_entries_contains(checkmap.entries@, eth_signer@);
    }
    while i < n
        invariant
            i <= n,
            n == checkmap.entries@.len(),
            checkmap == old(checkmap),
            checkmap.wf(),
            checkmap@.contains_key(eth_signer@) <==> exists|k: int|
                0 <= k < checkmap.entries@.len() && checkmap.entries@[k].0@ == eth_signer@,
            forall|k: int| 0 <= k < i ==> checkmap.entries@[k].0@ != eth_signer@,
        decreases n - i,
    {
        if eth_address_eq(&checkmap.entries[i].0, eth_signer) {
            proof {
                lemma_map_of_entries_value(checkmap.entries@, i as int);
            }
            if !checkmap.entries[i].1 {
                let key = checkmap.entries[i].0;
                proof {
                    lemma_map_of_entries_update(checkmap.entries@, i as int, true);
                }
                checkmap.entries.set(i, (key, true));
                return Ok(());
            } else {
                return Err(AudiusProgramError::SignCollission);
            }
        }
        i += 1;
    }
    Err(AudiusProgramError::WrongSigner)
}

/// The set of operator identities already seen in a verification context.
#[derive(Debug)]
pub struct OperatorSet {
    items: Vec<EthereumAddress>,
}

impl OperatorSet {
    /// The set of operator identities held.
    pub closed spec fn view(&self) -> Set<Seq<u8>> {
        Set::new(|a: Seq<u8>| spec_addresses(self.items@).contains(a))
    }

    /// An empty operator set.
    pub fn new() -> (r: OperatorSet)
        ensures
            r@ == Set::<Seq<u8>>::empty(),
    {
        let r = OperatorSet { items: Vec::new() };
        proof {
            assert(r@ =~= Set::<Seq<u8>>::empty());
        }
        r
    }

    /// Whether the set holds the given operator.
    pub fn contains(&self, a: &EthereumAddress) -> (r: bool)
        ensures
            r <==> self@.contains(a@),
    {
        contains_address(&self.items, a)
    }

    /// Insert an operator; report whether it was new, as `BTreeSet::insert`
    /// does.
    pub fn insert(&mut self, a: EthereumAddress) -> (r: bool)
        ensures
            r <==> !old(self)@.contains(a@),
            final(self)@ == old(self)@.insert(a@),
    {
        if contains_address(&self.items, &a) {
            proof {
                assert(self@ =~= self@.insert(a@));
            }
            false
        } else {
            self.items.push(a);
            proof {
                let prior = old(self).items@;
                assert forall|b: Seq<u8>| spec_addresses(self.items@).contains(b) implies old(
                    self,
                )@.insert(a@).contains(b) by {
                    lemma_addresses_contains(self.items@, b);
                    let k = choose|k: int| 0 <= k < self.items@.len() && self.items@[k]@ == b;
                    if k < prior.len() {
                        lemma_addresses_contains(prior, b);
                    }
                }
                assert forall|b: Seq<u8>| old(self)@.insert(a@).contains(b) implies spec_addresses(
                    self.items@,
                ).contains(b) by {
                    lemma_addresses_contains(self.items@, b);
                    if b == a@ {
                        assert(self.items@[self.items@.len() - 1]@ == b);
                    } else {
                        lemma_addresses_contains(prior, b);
                        let k = choose|k: int| 0 <= k < prior.len() && prior[k]@ == b;
                        assert(self.items@[k]@ == b);
                    }
                }
                assert(final(self)@ =~= old(self)@.insert(a@));
            }
            true
        }
    }

    /// An independent copy holding the same operators.
    pub fn duplicate(&self) -> (r: OperatorSet)
        ensures
            r@ == self@,
    {
        let n = self.items.len();
        let mut items: Vec<EthereumAddress> = Vec::new();
        let mut i: usize = 0;
        while i < n
            invariant
                i <= n,
                n == self.items@.len(),
                items@ == self.items@.subrange(0, i as int),
            decreases n - i,
        {
            items.push(self.items[i]);
            proof {
                assert(items@ =~= self.items@.subrange(0, i + 1));
            }
            i += 1;
        }
        proof {
            assert(self.items@.subrange(0, n as int) =~= self.items@);
        }
        let r = OperatorSet { items };
        proof {
            assert(r@ =~= self@);
        }
        r
    }
}

/// The fixed expectations one transfer verification pass checks proofs
/// against.
pub ghost struct TransferExpectations {
    /// The oracle's attester identity.
    pub oracle_address: Seq<u8>,
    /// The oracle's operator identity.
    pub oracle_operator: Seq<u8>,
    /// The message the oracle must have signed.
    pub oracle_message: Seq<u8>,
    /// The message every ordinary sender must have signed.
    pub senders_message: Seq<u8>,
    /// The expected ordinary signer identities, oracle excluded.
    pub signers: Seq<Seq<u8>>,
}

/// The running state of a transfer verification pass.
pub ghost struct TransferVerifyState {
    /// Which expected signer identities have signed so far.
    pub checkmap: Map<Seq<u8>, bool>,
    /// The operator identities met so far.
    pub operators: Set<Seq<u8>>,
    /// The number of accepted signatures so far.
    pub count: nat,
}

/// The expectations for a transfer: oracle identity and operator from its
/// sender record, the two canonical messages, and the expected signers.
pub open spec fn spec_transfer_expectations(
    bot_oracle: crate::state::SenderAccount,
    transfer: crate::messages::Transfer,
    signers: Seq<EthereumAddress>,
) -> TransferExpectations {
    TransferExpectations {
        oracle_address: bot_oracle.eth_address@,
        oracle_operator: bot_oracle.operator@,
        oracle_message: crate::messages::spec_bot_oracle_message(
            transfer.eth_recipient@,
            transfer.amount,
            transfer.id@,
        ),
        senders_message: crate::messages::spec_senders_message(
            transfer.eth_recipient@,
            transfer.amount,
            transfer.id@,
            bot_oracle.eth_address@,
        ),
        signers: spec_addresses(signers),
    }
}

/// One step of the transfer verification pass over one proof blob.
///
/// A proof whose identity is the oracle must carry the oracle message and
/// a fresh operator; one whose identity is an expected signer must not
/// have signed before and must carry the senders' message; any other
/// identity is ignored.
pub open spec fn spec_transfer_step(
    ex: TransferExpectations,
    data: Seq<u8>,
    st: TransferVerifyState,
) -> Result<TransferVerifyState, AudiusProgramError> {
    let signer = crate::utils::spec_proof_signer(data);
    let payload = crate::utils::spec_proof_payload(data);
    let after_oracle = if signer == ex.oracle_address {
        if payload != ex.oracle_message {
            Err(AudiusProgramError::SignatureVerificationFailed)
        } else if st.operators.contains(ex.oracle_operator) {
            Err(AudiusProgramError::OperatorCollision)
        } else {
            Ok(
                TransferVerifyState {
                    checkmap: st.checkmap,
                    operators: st.operators.insert(ex.oracle_operator),
                    count: st.count + 1,
                },
            )
        }
    } else {
        Ok(st)
    };
    match after_oracle {
        Err(e) => Err(e),
        Ok(st1) => if ex.signers.contains(signer) {
            if !st1.checkmap.contains_key(signer) {
                Err(AudiusProgramError::WrongSigner)
            } else if st1.checkmap[signer] {
                Err(AudiusProgramError::SignCollission)
            } else if payload != ex.senders_message {
                Err(AudiusProgramError::SignatureVerificationFailed)
            } else {
                Ok(
                    TransferVerifyState {
                        checkmap: st1.checkmap.insert(signer, true),
                        operators: st1.operators,
                        count: st1.count + 1,
                    },
                )
            }
        } else {
            Ok(st1)
        },
    }
}

/// The transfer verification pass over a whole batch of proof blobs, in
/// order, stopping at the first violation.
pub open spec fn spec_transfer_loop(
    ex: TransferExpectations,
    datas: Seq<Seq<u8>>,
    st: TransferVerifyState,
) -> Result<TransferVerifyState, AudiusProgramError>
    decreases datas.len(),
{
    if datas.len() == 0 {
        Ok(st)
    } else {
        match spec_transfer_step(ex, datas.first(), st) {
            Err(e) => Err(e),
            Ok(st1) => spec_transfer_loop(ex, datas.drop_first(), st1),
        }
    }
}

/// The outcome of transfer verification: run the pass from the initial
/// checklist and the seeded operator set, then demand that the number of
/// accepted signatures equals the number of expected signers plus one for
/// the mandatory oracle — an equality, not a lower bound.
pub open spec fn spec_verify_transfer(
    ex: TransferExpectations,
    datas: Seq<Seq<u8>>,
    initial_operators: Set<Seq<u8>>,
) -> Result<(), AudiusProgramError> {
    let st0 = TransferVerifyState {
        checkmap: spec_checkmap_init(ex.signers),
        operators: initial_operators,
        count: 0,
    };
    match spec_transfer_loop(ex, datas, st0) {
        Err(e) => Err(e),
        Ok(st) => if st.count == ex.signers.len() + 1 {
            Ok(())
        } else {
            Err(AudiusProgramError::SignatureVerificationFailed)
        },
    }
}

/// Verify a batch of signature proofs against a transfer: every expected
/// sender and the oracle must each have signed their exact canonical
/// message, with no identity signing twice and no operator met twice.
pub fn verify_transfer_signatures(
    bot_oracle: &crate::state::SenderAccount,
    transfer_data: &crate::messages::Transfer,
    instructions: &Vec<Vec<u8>>,
    signers: &Vec<EthereumAddress>,
    operators: &OperatorSet,
) -> (r: Result<(), AudiusProgramError>)
    requires
        forall|k: int| 0 <= k < instructions@.len() ==> #[trigger] instructions@[k]@.len() >= 97,
        instructions@.len() <= usize::MAX / 2,
        signers@.len() < usize::MAX,
    ensures
        r == spec_verify_transfer(
            spec_transfer_expectations(*bot_oracle, *transfer_data, signers@),
            instructions@.map_values(|d: Vec<u8>| d@),
            operators@,
        ),
{
    let ghost ex = spec_transfer_expectations(*bot_oracle, *transfer_data, signers@);
    let ghost datas = instructions@.map_values(|d: Vec<u8>| d@);
    let ghost init_ops = operators@;
    let mut operator_set = operators.duplicate();
    let mut successful_verifications: usize = 0;
    let mut checkmap = vec_into_checkmap(signers);
    let ghost st0 = TransferVerifyState {
        checkmap: checkmap@,
        operators: init_ops,
        count: 0,
    };

    let bot_oracle_message = crate::messages::bot_oracle_message(transfer_data);
    let senders_message = crate::messages::senders_message(transfer_data, &bot_oracle.eth_address);

    let n = instructions.len();
    let mut ind: usize = 0;
    proof {
        assert(datas.skip(0) =~= datas);
    }
    while ind < n
        invariant
            ind <= n,
            n == instructions@.len(),
            datas == instructions@.map_values(|d: Vec<u8>| d@),
            forall|k: int| 0 <= k < instructions@.len() ==> #[trigger] instructions@[k]@.len()
                >= 97,
            n <= usize::MAX / 2,
            signers@.len() < usize::MAX,
            checkmap.wf(),
            successful_verifications <= 2 * ind,
            bot_oracle_message@ == ex.oracle_message,
            senders_message@ == ex.senders_message,
            ex == spec_transfer_expectations(*bot_oracle, *transfer_data, signers@),
            st0.checkmap == spec_checkmap_init(ex.signers),
            st0.operators == init_ops,
            init_ops == operators@,
            st0.count == 0,
            spec_transfer_loop(ex, datas, st0) == spec_transfer_loop(
                ex,
                datas.skip(ind as int),
                (TransferVerifyState {
                    checkmap: checkmap@,
                    operators: operator_set@,
                    count: successful_verifications as nat,
                }),
            ),
        decreases n - ind,
    {
        let ghost st_cur = TransferVerifyState {
            checkmap: checkmap@,
            operators: operator_set@,
            count: successful_verifications as nat,
        };
        let ghost data = datas.skip(ind as int).first();
        proof {
            assert(data == instructions@[ind as int]@);
            assert(datas.skip(ind as int).drop_first() =~= datas.skip(ind + 1));
        }
        let instruction = &instructions[ind];
        let eth_signer = crate::utils::get_signer_from_secp_instruction(instruction);
        if eth_address_eq(&eth_signer, &bot_oracle.eth_address) {
            if let Err(e) = crate::utils::validate_eth_signature(&bot_oracle_message, instruction) {
                proof {
                    assert(spec_transfer_step(ex, data, st_cur) == Err::<
                        TransferVerifyState,
                        AudiusProgramError,
                    >(e));
                }
                return Err(e);
            }
            if !operator_set.insert(bot_oracle.operator) {
                proof {
                    assert(spec_transfer_step(ex, data, st_cur) == Err::<
                        TransferVerifyState,
                        AudiusProgramError,
                    >(AudiusProgramError::OperatorCollision));
                }
                return Err(AudiusProgramError::OperatorCollision);
            }
            successful_verifications += 1;
        }
        if contains_address(signers, &eth_signer) {
            if let Err(e) = check_signer(&mut checkmap, &eth_signer) {
                proof {
                    assert(spec_transfer_step(ex, data, st_cur) == Err::<
                        TransferVerifyState,
                        AudiusProgramError,
                    >(e));
                }
                return Err(e);
            }
            if let Err(e) = crate::utils::validate_eth_signature(&senders_message, instruction) {
                proof {
                    assert(spec_transfer_step(ex, data, st_cur) == Err::<
                        TransferVerifyState,
                        AudiusProgramError,
                    >(e));
                }
                return Err(e);
            }
            successful_verifications += 1;
        }
        proof {
            let st_next = TransferVerifyState {
                checkmap: checkmap@,
                operators: operator_set@,
                count: successful_verifications as nat,
            };
            assert(spec_transfer_step(ex, data, st_cur) == Ok::<
                TransferVerifyState,
                AudiusProgramError,
            >(st_next));
        }
        ind += 1;
    }
    proof {
        assert(datas.skip(n as int) =~= Seq::<Seq<u8>>::empty());
    }
    if successful_verifications != signers.len() + 1 {
        return Err(AudiusProgramError::SignatureVerificationFailed);
    }
    Ok(())
}

/// One step of the add-sender verification pass: every proof must come
/// from a declared signer that has not signed yet, over the exact
/// mutation message; an unknown identity is rejected outright.
pub open spec fn spec_add_sender_step(
    expected_message: Seq<u8>,
    data: Seq<u8>,
    checkmap: Map<Seq<u8>, bool>,
) -> Result<Map<Seq<u8>, bool>, AudiusProgramError> {
    let signer = crate::utils::spec_proof_signer(data);
    let payload = crate::utils::spec_proof_payload(data);
    if !checkmap.contains_key(signer) {
        Err(AudiusProgramError::WrongSigner)
    } else if checkmap[signer] {
        Err(AudiusProgramError::SignCollission)
    } else if payload != expected_message {
        Err(AudiusProgramError::SignatureVerificationFailed)
    } else {
        Ok(checkmap.insert(signer, true))
    }
}

/// The add-sender verification pass over a whole batch, in order,
/// stopping at the first violation.
pub open spec fn spec_add_sender_loop(
    expected_message: Seq<u8>,
    datas: Seq<Seq<u8>>,
    checkmap: Map<Seq<u8>, bool>,
) -> Result<Map<Seq<u8>, bool>, AudiusProgramError>
    decreases datas.len(),
{
    if datas.len() == 0 {
        Ok(checkmap)
    } else {
        match spec_add_sender_step(expected_message, datas.first(), checkmap) {
            Err(e) => Err(e),
            Ok(cm) => spec_add_sender_loop(expected_message, datas.drop_first(), cm),
        }
    }
}

/// The outcome of add-sender verification: each proof in the batch must
/// be a fresh signature by a declared signer over the registry-mutation
/// message.
pub open spec fn spec_verify_add_sender(
    reward_manager: Seq<u8>,
    new_sender: Seq<u8>,
    datas: Seq<Seq<u8>>,
    signers: Seq<Seq<u8>>,
) -> Result<(), AudiusProgramError> {
    let message = crate::messages::spec_add_sender_message(reward_manager, new_sender);
    match spec_add_sender_loop(message, datas, spec_checkmap_init(signers)) {
        Err(e) => Err(e),
        Ok(_) => Ok(()),
    }
}

/// Verify a batch of signature proofs for an add-sender mutation: every
/// proof must be a fresh signature by one of the declared signers over
/// the exact mutation message.
pub fn verify_add_sender_signatures(
    reward_manager_key: &crate::SolanaKey,
    new_sender: &EthereumAddress,
    instructions: &Vec<Vec<u8>>,
    signers: &Vec<EthereumAddress>,
) -> (r: Result<(), AudiusProgramError>)
    requires
        forall|k: int| 0 <= k < instructions@.len() ==> #[trigger] instructions@[k]@.len() >= 97,
    ensures
        r == spec_verify_add_sender(
            reward_manager_key@,
            new_sender@,
            instructions@.map_values(|d: Vec<u8>| d@),
            spec_addresses(signers@),
        ),
{
    let ghost datas = instructions@.map_values(|d: Vec<u8>| d@);
    let mut checkmap = vec_into_checkmap(signers);
    let ghost cm0 = checkmap@;
    let expected_message = crate::messages::add_sender_message(reward_manager_key, new_sender);
    let ghost message = expected_message@;

    let n = instructions.len();
    let mut ind: usize = 0;
    proof {
        assert(datas.skip(0) =~= datas);
    }
    while ind < n
        invariant
            ind <= n,
            n == instructions@.len(),
            datas == instructions@.map_values(|d: Vec<u8>| d@),
            forall|k: int| 0 <= k < instructions@.len() ==> #[trigger] instructions@[k]@.len()
                >= 97,
            checkmap.wf(),
            cm0 == spec_checkmap_init(spec_addresses(signers@)),
            message == crate::messages::spec_add_sender_message(reward_manager_key@, new_sender@),
            expected_message@ == message,
            spec_add_sender_loop(message, datas, cm0) == spec_add_sender_loop(
                message,
                datas.skip(ind as int),
                checkmap@,
            ),
        decreases n - ind,
    {
        let ghost cm_cur = checkmap@;
        let ghost data = datas.skip(ind as int).first();
        proof {
            assert(data == instructions@[ind as int]@);
            assert(datas.skip(ind as int).drop_first() =~= datas.skip(ind + 1));
        }
        let instruction = &instructions[ind];
        let eth_signer = crate::utils::get_signer_from_secp_instruction(instruction);
        if let Err(e) = check_signer(&mut checkmap, &eth_signer) {
            proof {
                assert(spec_add_sender_step(message, data, cm_cur) == Err::<
                    Map<Seq<u8>, bool>,
                    AudiusProgramError,
                >(e));
            }
            return Err(e);
        }
        if let Err(e) = crate::utils::validate_eth_signature(&expected_message, instruction) {
            proof {
                assert(spec_add_sender_step(message, data, cm_cur) == Err::<
                    Map<Seq<u8>, bool>,
                    AudiusProgramError,
                >(e));
            }
            return Err(e);
        }
        proof {
            assert(spec_add_sender_step(message, data, cm_cur) == Ok::<
                Map<Seq<u8>, bool>,
                AudiusProgramError,
            >(checkmap@));
        }
        ind += 1;
    }
    proof {
        assert(datas.skip(n as int) =~= Seq::<Seq<u8>>::empty());
    }
    Ok(())
}

/// How many proofs in a batch record the given identity as signer.
pub open spec fn spec_count_matching(datas: Seq<Seq<u8>>, addr: Seq<u8>) -> nat
    decreases datas.len(),
{
    if datas.len() == 0 {
        0nat
    } else {
        (if crate::utils::spec_proof_signer(datas.first()) == addr {
            1nat
        } else {
            0nat
        }) + spec_count_matching(datas.drop_first(), addr)
    }
}

/// How many proofs in a batch record a recognized identity: the oracle or
/// an expected signer.
pub open spec fn spec_recognized_count(ex: TransferExpectations, datas: Seq<Seq<u8>>) -> nat
    decreases datas.len(),
{
    if datas.len() == 0 {
        0nat
    } else {
        (if crate::utils::spec_proof_signer(datas.first()) == ex.oracle_address
            || ex.signers.contains(crate::utils::spec_proof_signer(datas.first())) {
            1nat
        } else {
            0nat
        }) + spec_recognized_count(ex, datas.drop_first())
    }
}

/// Every proof in the batch whose identity is recognized carries the
/// exact message its role demands.
pub open spec fn spec_payloads_valid(ex: TransferExpectations, datas: Seq<Seq<u8>>) -> bool {
    &&& forall|k: int|
        0 <= k < datas.len() && crate::utils::spec_proof_signer(#[trigger] datas[k])
            == ex.oracle_address ==> crate::utils::spec_proof_payload(datas[k])
            == ex.oracle_message
    &&& forall|k: int|
        0 <= k < datas.len() && ex.signers.contains(
            crate::utils::spec_proof_signer(#[trigger] datas[k]),
        ) ==> crate::utils::spec_proof_payload(datas[k]) == ex.senders_message
}

/// On a clean batch — valid payloads, no repeated recognized identity,
/// the oracle's operator still fresh — the pass runs to the end and
/// accepts exactly one signature per recognized proof.
proof fn lemma_transfer_loop_clean(
    ex: TransferExpectations,
    datas: Seq<Seq<u8>>,
    st: TransferVerifyState,
)
    requires
        forall|a: Seq<u8>| st.checkmap.contains_key(a) <==> ex.signers.contains(a),
        forall|a: Seq<u8>|
            st.checkmap.contains_key(a) && st.checkmap[a] ==> spec_count_matching(datas, a) == 0,
        forall|a: Seq<u8>| ex.signers.contains(a) ==> spec_count_matching(datas, a) <= 1,
        spec_payloads_valid(ex, datas),
        !ex.signers.contains(ex.oracle_address),
        st.operators.contains(ex.oracle_operator) ==> spec_count_matching(
            datas,
            ex.oracle_address,
        ) == 0,
        spec_count_matching(datas, ex.oracle_address) <= 1,
    ensures
        spec_transfer_loop(ex, datas, st) is Ok,
        spec_transfer_loop(ex, datas, st)->Ok_0.count == st.count + spec_recognized_count(
            ex,
            datas,
        ),
    decreases datas.len(),
{
    if datas.len() > 0 {
        let d = datas.first();
        let s = crate::utils::spec_proof_signer(d);
        let rest = datas.drop_first();
        assert(datas[0] == d);
        assert forall|k: int| 0 <= k < rest.len() implies #[trigger] rest[k] == datas[k + 1] by {}
        assert forall|a: Seq<u8>|
            spec_count_matching(datas, a) == (if crate::utils::spec_proof_signer(d) == a {
                1nat
            } else {
                0nat
            }) + spec_count_matching(rest, a) by {}
        if s == ex.oracle_address {
            assert(spec_count_matching(datas, ex.oracle_address) >= 1);
            let st1 = TransferVerifyState {
                checkmap: st.checkmap,
                operators: st.operators.insert(ex.oracle_operator),
                count: st.count + 1,
            };
            assert(spec_transfer_step(ex, d, st) == Ok::<
                TransferVerifyState,
                AudiusProgramError,
            >(st1));
            assert forall|a: Seq<u8>|
                st1.checkmap.contains_key(a) && st1.checkmap[a] implies spec_count_matching(
                rest,
                a,
            ) == 0 by {
                assert(spec_count_matching(datas, a) == 0);
            }
            assert forall|a: Seq<u8>| ex.signers.contains(a) implies spec_count_matching(rest, a)
                <= 1 by {
                assert(spec_count_matching(datas, a) <= 1);
            }
            lemma_transfer_loop_clean(ex, rest, st1);
        } else if ex.signers.contains(s) {
            assert(spec_count_matching(datas, s) >= 1);
            assert(st.checkmap.contains_key(s));
            assert(!st.checkmap[s]);
            let st1 = TransferVerifyState {
                checkmap: st.checkmap.insert(s, true),
                operators: st.operators,
                count: st.count + 1,
            };
            assert(spec_transfer_step(ex, d, st) == Ok::<
                TransferVerifyState,
                AudiusProgramError,
            >(st1));
            assert forall|a: Seq<u8>|
                st1.checkmap.contains_key(a) && st1.checkmap[a] implies spec_count_matching(
                rest,
                a,
            ) == 0 by {
                if a == s {
                    assert(spec_count_matching(datas, s) <= 1);
                } else {
                    assert(st.checkmap.contains_key(a) && st.checkmap[a]);
                    assert(spec_count_matching(datas, a) == 0);
                }
            }
            assert forall|a: Seq<u8>| ex.signers.contains(a) implies spec_count_matching(rest, a)
                <= 1 by {
                assert(spec_count_matching(datas, a) <= 1);
            }
            lemma_transfer_loop_clean(ex, rest, st1);
        } else {
            assert(spec_transfer_step(ex, d, st) == Ok::<
                TransferVerifyState,
                AudiusProgramError,
            >(st));
            assert forall|a: Seq<u8>|
                st.checkmap.contains_key(a) && st.checkmap[a] implies spec_count_matching(
                rest,
                a,
            ) == 0 by {
                assert(spec_count_matching(datas, a) == 0);
            }
            assert forall|a: Seq<u8>| ex.signers.contains(a) implies spec_count_matching(rest, a)
                <= 1 by {
                assert(spec_count_matching(datas, a) <= 1);
            }
            lemma_transfer_loop_clean(ex, rest, st);
        }
    }
}

/// The success-counter check is an equality, not a lower bound: a clean
/// batch — every recognized proof carries its exact message, no
/// recognized identity appears twice, the oracle's operator is fresh —
/// passes exactly when the number of recognized proofs equals the number
/// of expected signers plus one for the oracle, and fails with
/// `SignatureVerificationFailed` on any other tally, one short included.
pub proof fn lemma_verify_transfer_clean_batch(
    ex: TransferExpectations,
    datas: Seq<Seq<u8>>,
    initial_operators: Set<Seq<u8>>,
)
    requires
        spec_payloads_valid(ex, datas),
        forall|a: Seq<u8>| ex.signers.contains(a) ==> spec_count_matching(datas, a) <= 1,
        spec_count_matching(datas, ex.oracle_address) <= 1,
        !ex.signers.contains(ex.oracle_address),
        !initial_operators.contains(ex.oracle_operator),
    ensures
        spec_verify_transfer(ex, datas, initial_operators) == (if spec_recognized_count(ex, datas)
            == ex.signers.len() + 1 {
            Ok::<(), AudiusProgramError>(())
        } else {
            Err::<(), AudiusProgramError>(AudiusProgramError::SignatureVerificationFailed)
        }),
{
    let st0 = TransferVerifyState {
        checkmap: spec_checkmap_init(ex.signers),
        operators: initial_operators,
        count: 0,
    };
    lemma_checkmap_init_props(ex.signers);
    lemma_transfer_loop_clean(ex, datas, st0);
}

/// In a batch whose every proof is recognized, the recognized count is
/// the batch length.
pub proof fn lemma_recognized_count_full(ex: TransferExpectations, datas: Seq<Seq<u8>>)
    requires
        forall|k: int|
            0 <= k < datas.len() ==> crate::utils::spec_proof_signer(#[trigger] datas[k])
                == ex.oracle_address || ex.signers.contains(
                crate::utils::spec_proof_signer(datas[k]),
            ),
    ensures
        spec_recognized_count(ex, datas) == datas.len(),
    decreases datas.len(),
{
    if datas.len() > 0 {
        let rest = datas.drop_first();
        assert(datas[0] == datas.first());
        assert forall|k: int| 0 <= k < rest.len() implies #[trigger] rest[k] == datas[k + 1] by {}
        lemma_recognized_count_full(ex, rest);
    }
}

/// Supplying exactly one distinct correct signature per expected signer
/// plus the mandatory oracle signature passes verification.
pub proof fn lemma_exact_quorum_passes(
    ex: TransferExpectations,
    datas: Seq<Seq<u8>>,
    initial_operators: Set<Seq<u8>>,
)
    requires
        spec_payloads_valid(ex, datas),
        forall|k: int|
            0 <= k < datas.len() ==> crate::utils::spec_proof_signer(#[trigger] datas[k])
                == ex.oracle_address || ex.signers.contains(
                crate::utils::spec_proof_signer(datas[k]),
            ),
        forall|a: Seq<u8>| ex.signers.contains(a) ==> spec_count_matching(datas, a) <= 1,
        spec_count_matching(datas, ex.oracle_address) <= 1,
        !ex.signers.contains(ex.oracle_address),
        !initial_operators.contains(ex.oracle_operator),
        datas.len() == ex.signers.len() + 1,
    ensures
        spec_verify_transfer(ex, datas, initial_operators) == Ok::<(), AudiusProgramError>(()),
{
    lemma_verify_transfer_clean_batch(ex, datas, initial_operators);
    lemma_recognized_count_full(ex, datas);
}

/// Supplying one correct signature fewer than the quorum target fails
/// with `SignatureVerificationFailed`: the counter check is an equality.
pub proof fn lemma_one_short_fails(
    ex: TransferExpectations,
    datas: Seq<Seq<u8>>,
    initial_operators: Set<Seq<u8>>,
)
    requires
        spec_payloads_valid(ex, datas),
        forall|k: int|
            0 <= k < datas.len() ==> crate::utils::spec_proof_signer(#[trigger] datas[k])
                == ex.oracle_address || ex.signers.contains(
                crate::utils::spec_proof_signer(datas[k]),
            ),
        forall|a: Seq<u8>| ex.signers.contains(a) ==> spec_count_matching(datas, a) <= 1,
        spec_count_matching(datas, ex.oracle_address) <= 1,
        !ex.signers.contains(ex.oracle_address),
        !initial_operators.contains(ex.oracle_operator),
        datas.len() == ex.signers.len(),
    ensures
        spec_verify_transfer(ex, datas, initial_operators) == Err::<(), AudiusProgramError>(
            AudiusProgramError::SignatureVerificationFailed,
        ),
{
    lemma_verify_transfer_clean_batch(ex, datas, initial_operators);
    lemma_recognized_count_full(ex, datas);
}

/// With valid payloads and a fresh oracle, a repeated signer identity is
/// caught: the pass ends in `SignCollission`.
proof fn lemma_transfer_loop_duplicate(
    ex: TransferExpectations,
    datas: Seq<Seq<u8>>,
    st: TransferVerifyState,
    j: int,
)
    requires
        forall|a: Seq<u8>| st.checkmap.contains_key(a) <==> ex.signers.contains(a),
        spec_payloads_valid(ex, datas),
        !ex.signers.contains(ex.oracle_address),
        st.operators.contains(ex.oracle_operator) ==> spec_count_matching(
            datas,
            ex.oracle_address,
        ) == 0,
        spec_count_matching(datas, ex.oracle_address) <= 1,
        0 <= j < datas.len(),
        ex.signers.contains(crate::utils::spec_proof_signer(datas[j])),
        st.checkmap[crate::utils::spec_proof_signer(datas[j])] == true || exists|i: int|
            0 <= i < j && crate::utils::spec_proof_signer(datas[i])
                == crate::utils::spec_proof_signer(datas[j]),
    ensures
        spec_transfer_loop(ex, datas, st) == Err::<TransferVerifyState, AudiusProgramError>(
            AudiusProgramError::SignCollission,
        ),
    decreases datas.len(),
{
    let d = datas.first();
    let s = crate::utils::spec_proof_signer(d);
    let sig_j = crate::utils::spec_proof_signer(datas[j]);
    let rest = datas.drop_first();
    assert(datas[0] == d);
    assert forall|k: int| 0 <= k < rest.len() implies #[trigger] rest[k] == datas[k + 1] by {}
    assert forall|a: Seq<u8>|
        spec_count_matching(datas, a) == (if crate::utils::spec_proof_signer(d) == a {
            1nat
        } else {
            0nat
        }) + spec_count_matching(rest, a) by {}
    if j == 0 {
        assert(st.checkmap[s] == true);
        assert(spec_transfer_step(ex, d, st) == Err::<TransferVerifyState, AudiusProgramError>(
            AudiusProgramError::SignCollission,
        ));
    } else {
        if s == ex.oracle_address {
            assert(spec_count_matching(datas, ex.oracle_address) >= 1);
            let st1 = TransferVerifyState {
                checkmap: st.checkmap,
                operators: st.operators.insert(ex.oracle_operator),
                count: st.count + 1,
            };
            assert(spec_transfer_step(ex, d, st) == Ok::<
                TransferVerifyState,
                AudiusProgramError,
            >(st1));
            if !(st.checkmap[sig_j] == true) {
                let i = choose|i: int|
                    0 <= i < j && crate::utils::spec_proof_signer(datas[i]) == sig_j;
                assert(i != 0);
                assert(crate::utils::spec_proof_signer(rest[i - 1]) == sig_j);
            }
            assert(rest[j - 1] == datas[j]);
            lemma_transfer_loop_duplicate(ex, rest, st1, j - 1);
        } else if ex.signers.contains(s) {
            if st.checkmap[s] == true {
                assert(spec_transfer_step(ex, d, st) == Err::<
                    TransferVerifyState,
                    AudiusProgramError,
                >(AudiusProgramError::SignCollission));
            } else {
                let st1 = TransferVerifyState {
                    checkmap: st.checkmap.insert(s, true),
                    operators: st.operators,
                    count: st.count + 1,
                };
                assert(spec_transfer_step(ex, d, st) == Ok::<
                    TransferVerifyState,
                    AudiusProgramError,
                >(st1));
                if !(st.checkmap[sig_j] == true) && s != sig_j {
                    let i = choose|i: int|
                        0 <= i < j && crate::utils::spec_proof_signer(datas[i]) == sig_j;
                    assert(i != 0);
                    assert(crate::utils::spec_proof_signer(rest[i - 1]) == sig_j);
                }
                assert(rest[j - 1] == datas[j]);
                assert(st1.checkmap[sig_j] == true || exists|i: int|
                    0 <= i < j - 1 && crate::utils::spec_proof_signer(#[trigger] rest[i])
                        == crate::utils::spec_proof_signer(rest[j - 1]));
                lemma_transfer_loop_duplicate(ex, rest, st1, j - 1);
            }
        } else {
            assert(spec_transfer_step(ex, d, st) == Ok::<
                TransferVerifyState,
                AudiusProgramError,
            >(st));
            if !(st.checkmap[sig_j] == true) {
                let i = choose|i: int|
                    0 <= i < j && crate::utils::spec_proof_signer(datas[i]) == sig_j;
                assert(i != 0);
                assert(crate::utils::spec_proof_signer(rest[i - 1]) == sig_j);
            }
            assert(rest[j - 1] == datas[j]);
            lemma_transfer_loop_duplicate(ex, rest, st, j - 1);
        }
    }
}

/// One identity signing twice in one batch fails with `SignCollission`,
/// even when both signatures carry individually valid payloads.
pub proof fn lemma_duplicate_signer_fails(
    ex: TransferExpectations,
    datas: Seq<Seq<u8>>,
    initial_operators: Set<Seq<u8>>,
    i: int,
    j: int,
)
    requires
        spec_payloads_valid(ex, datas),
        !ex.signers.contains(ex.oracle_address),
        !initial_operators.contains(ex.oracle_operator),
        spec_count_matching(datas, ex.oracle_address) <= 1,
        0 <= i < j < datas.len(),
        crate::utils::spec_proof_signer(datas[i]) == crate::utils::spec_proof_signer(datas[j]),
        ex.signers.contains(crate::utils::spec_proof_signer(datas[j])),
    ensures
        spec_verify_transfer(ex, datas, initial_operators) == Err::<(), AudiusProgramError>(
            AudiusProgramError::SignCollission,
        ),
{
    let st0 = TransferVerifyState {
        checkmap: spec_checkmap_init(ex.signers),
        operators: initial_operators,
        count: 0,
    };
    lemma_checkmap_init_props(ex.signers);
    lemma_transfer_loop_duplicate(ex, datas, st0, j);
}

/// Up to a second oracle-identity proof, a clean pass reaches it and
/// fails there with `OperatorCollision`: the oracle's operator is already
/// in the collision set.
proof fn lemma_transfer_loop_oracle_twice(
    ex: TransferExpectations,
    datas: Seq<Seq<u8>>,
    st: TransferVerifyState,
    k: int,
)
    requires
        forall|a: Seq<u8>| st.checkmap.contains_key(a) <==> ex.signers.contains(a),
        forall|a: Seq<u8>|
            st.checkmap.contains_key(a) && st.checkmap[a] ==> forall|j: int|
                0 <= j <= k ==> crate::utils::spec_proof_signer(#[trigger] datas[j]) != a,
        !ex.signers.contains(ex.oracle_address),
        0 <= k < datas.len(),
        forall|j: int|
            0 <= j <= k && crate::utils::spec_proof_signer(#[trigger] datas[j])
                == ex.oracle_address ==> crate::utils::spec_proof_payload(datas[j])
                == ex.oracle_message,
        forall|j: int|
            0 <= j <= k && ex.signers.contains(
                crate::utils::spec_proof_signer(#[trigger] datas[j]),
            ) ==> crate::utils::spec_proof_payload(datas[j]) == ex.senders_message,
        forall|i: int, j: int|
            0 <= i < j <= k && crate::utils::spec_proof_signer(#[trigger] datas[i])
                == crate::utils::spec_proof_signer(#[trigger] datas[j]) ==> !ex.signers.contains(
                crate::utils::spec_proof_signer(datas[j]),
            ),
        crate::utils::spec_proof_signer(datas[k]) == ex.oracle_address,
        st.operators.contains(ex.oracle_operator) || exists|i: int|
            0 <= i < k && crate::utils::spec_proof_signer(#[trigger] datas[i])
                == ex.oracle_address,
    ensures
        spec_transfer_loop(ex, datas, st) == Err::<TransferVerifyState, AudiusProgramError>(
            AudiusProgramError::OperatorCollision,
        ),
    decreases datas.len(),
{
    let d = datas.first();
    let s = crate::utils::spec_proof_signer(d);
    let rest = datas.drop_first();
    assert(datas[0] == d);
    assert forall|j: int| 0 <= j < rest.len() implies #[trigger] rest[j] == datas[j + 1] by {}
    if s == ex.oracle_address {
        if st.operators.contains(ex.oracle_operator) {
            assert(spec_transfer_step(ex, d, st) == Err::<
                TransferVerifyState,
                AudiusProgramError,
            >(AudiusProgramError::OperatorCollision));
        } else {
            assert(k != 0);
            let st1 = TransferVerifyState {
                checkmap: st.checkmap,
                operators: st.operators.insert(ex.oracle_operator),
                count: st.count + 1,
            };
            assert(spec_transfer_step(ex, d, st) == Ok::<
                TransferVerifyState,
                AudiusProgramError,
            >(st1));
            assert(rest[k - 1] == datas[k]);
            lemma_transfer_loop_oracle_twice(ex, rest, st1, k - 1);
        }
    } else if ex.signers.contains(s) {
        assert(k != 0);
        assert(!st.checkmap[s]);
        let st1 = TransferVerifyState {
            checkmap: st.checkmap.insert(s, true),
            operators: st.operators,
            count: st.count + 1,
        };
        assert(spec_transfer_step(ex, d, st) == Ok::<TransferVerifyState, AudiusProgramError>(
            st1,
        ));
        assert forall|a: Seq<u8>|
            st1.checkmap.contains_key(a) && st1.checkmap[a] implies forall|j: int|
            0 <= j <= k - 1 ==> crate::utils::spec_proof_signer(#[trigger] rest[j]) != a by {
            if a == s {
                assert forall|j: int|
                    0 <= j <= k - 1 implies crate::utils::spec_proof_signer(#[trigger] rest[j])
                    != s by {
                    assert(rest[j] == datas[j + 1]);
                }
            } else {
                assert(st.checkmap.contains_key(a) && st.checkmap[a]);
            }
        }
        assert(rest[k - 1] == datas[k]);
        if !st.operators.contains(ex.oracle_operator) {
            let i = choose|i: int|
                0 <= i < k && crate::utils::spec_proof_signer(#[trigger] datas[i])
                    == ex.oracle_address;
            assert(i != 0);
            assert(crate::utils::spec_proof_signer(rest[i - 1]) == ex.oracle_address);
        }
        lemma_transfer_loop_oracle_twice(ex, rest, st1, k - 1);
    } else {
        assert(k != 0);
        assert(spec_transfer_step(ex, d, st) == Ok::<TransferVerifyState, AudiusProgramError>(
            st,
        ));
        assert(rest[k - 1] == datas[k]);
        if !st.operators.contains(ex.oracle_operator) {
            let i = choose|i: int|
                0 <= i < k && crate::utils::spec_proof_signer(#[trigger] datas[i])
                    == ex.oracle_address;
            assert(i != 0);
            assert(crate::utils::spec_proof_signer(rest[i - 1]) == ex.oracle_address);
        }
        lemma_transfer_loop_oracle_twice(ex, rest, st, k - 1);
    }
}

/// In an otherwise clean batch, a second signature by the oracle identity
/// fails with exactly `OperatorCollision`: the first oracle signature put
/// the oracle's operator into the collision set.
pub proof fn lemma_oracle_signs_twice_collides(
    ex: TransferExpectations,
    datas: Seq<Seq<u8>>,
    initial_operators: Set<Seq<u8>>,
    i: int,
    k: int,
)
    requires
        !ex.signers.contains(ex.oracle_address),
        !initial_operators.contains(ex.oracle_operator),
        0 <= i < k < datas.len(),
        crate::utils::spec_proof_signer(datas[i]) == ex.oracle_address,
        crate::utils::spec_proof_signer(datas[k]) == ex.oracle_address,
        forall|j: int|
            0 <= j <= k && crate::utils::spec_proof_signer(#[trigger] datas[j])
                == ex.oracle_address ==> crate::utils::spec_proof_payload(datas[j])
                == ex.oracle_message,
        forall|j: int|
            0 <= j <= k && ex.signers.contains(
                crate::utils::spec_proof_signer(#[trigger] datas[j]),
            ) ==> crate::utils::spec_proof_payload(datas[j]) == ex.senders_message,
        forall|x: int, j: int|
            0 <= x < j <= k && crate::utils::spec_proof_signer(#[trigger] datas[x])
                == crate::utils::spec_proof_signer(#[trigger] datas[j]) ==> !ex.signers.contains(
                crate::utils::spec_proof_signer(datas[j]),
            ),
    ensures
        spec_verify_transfer(ex, datas, initial_operators) == Err::<(), AudiusProgramError>(
            AudiusProgramError::OperatorCollision,
        ),
{
    let st0 = TransferVerifyState {
        checkmap: spec_checkmap_init(ex.signers),
        operators: initial_operators,
        count: 0,
    };
    lemma_checkmap_init_props(ex.signers);
    lemma_transfer_loop_oracle_twice(ex, datas, st0, k);
}

/// A pass that ends without error validated every recognized proof's
/// payload.
proof fn lemma_transfer_loop_ok_payloads(
    ex: TransferExpectations,
    datas: Seq<Seq<u8>>,
    st: TransferVerifyState,
)
    requires
        spec_transfer_loop(ex, datas, st) is Ok,
    ensures
        spec_payloads_valid(ex, datas),
    decreases datas.len(),
{
    if datas.len() > 0 {
        let d = datas.first();
        let rest = datas.drop_first();
        assert(datas[0] == d);
        let st1 = spec_transfer_step(ex, d, st)->Ok_0;
        lemma_transfer_loop_ok_payloads(ex, rest, st1);
        assert forall|k: int|
            0 <= k < datas.len() && crate::utils::spec_proof_signer(#[trigger] datas[k])
                == ex.oracle_address implies crate::utils::spec_proof_payload(datas[k])
            == ex.oracle_message by {
            if k > 0 {
                assert(rest[k - 1] == datas[k]);
            }
        }
        assert forall|k: int|
            0 <= k < datas.len() && ex.signers.contains(
                crate::utils::spec_proof_signer(#[trigger] datas[k]),
            ) implies crate::utils::spec_proof_payload(datas[k]) == ex.senders_message by {
            if k > 0 {
                assert(rest[k - 1] == datas[k]);
            }
        }
    }
}

/// The two transfer messages being distinct, a signature replayed in the
/// wrong role is rejected: an oracle-identity proof carrying the senders'
/// message, or a sender-identity proof carrying the oracle's message,
/// fails the whole batch.
/// Up to a proof with a wrong payload, a clean pass reaches it and fails
/// there with `SignatureVerificationFailed`.
proof fn lemma_transfer_loop_replay(
    ex: TransferExpectations,
    datas: Seq<Seq<u8>>,
    st: TransferVerifyState,
    k: int,
)
    requires
        forall|a: Seq<u8>| st.checkmap.contains_key(a) <==> ex.signers.contains(a),
        forall|a: Seq<u8>|
            st.checkmap.contains_key(a) && st.checkmap[a] ==> forall|j: int|
                0 <= j <= k ==> crate::utils::spec_proof_signer(#[trigger] datas[j]) != a,
        !ex.signers.contains(ex.oracle_address),
        0 <= k < datas.len(),
        forall|j: int|
            0 <= j < k && crate::utils::spec_proof_signer(#[trigger] datas[j])
                == ex.oracle_address ==> crate::utils::spec_proof_payload(datas[j])
                == ex.oracle_message,
        forall|j: int|
            0 <= j < k && ex.signers.contains(
                crate::utils::spec_proof_signer(#[trigger] datas[j]),
            ) ==> crate::utils::spec_proof_payload(datas[j]) == ex.senders_message,
        forall|i: int, j: int|
            0 <= i < j <= k && crate::utils::spec_proof_signer(#[trigger] datas[i])
                == crate::utils::spec_proof_signer(#[trigger] datas[j]) ==> !ex.signers.contains(
                crate::utils::spec_proof_signer(datas[j]),
            ),
        st.operators.contains(ex.oracle_operator) ==> forall|j: int|
            0 <= j < k ==> crate::utils::spec_proof_signer(#[trigger] datas[j])
                != ex.oracle_address,
        forall|i: int, j: int|
            0 <= i < j < k ==> !(crate::utils::spec_proof_signer(#[trigger] datas[i])
                == ex.oracle_address && crate::utils::spec_proof_signer(#[trigger] datas[j])
                == ex.oracle_address),
        (crate::utils::spec_proof_signer(datas[k]) == ex.oracle_address
            && crate::utils::spec_proof_payload(datas[k]) != ex.oracle_message) || (
        ex.signers.contains(crate::utils::spec_proof_signer(datas[k]))
            && crate::utils::spec_proof_payload(datas[k]) != ex.senders_message),
    ensures
        spec_transfer_loop(ex, datas, st) == Err::<TransferVerifyState, AudiusProgramError>(
            AudiusProgramError::SignatureVerificationFailed,
        ),
    decreases datas.len(),
{
    let d = datas.first();
    let s = crate::utils::spec_proof_signer(d);
    let rest = datas.drop_first();
    assert(datas[0] == d);
    assert forall|j: int| 0 <= j < rest.len() implies #[trigger] rest[j] == datas[j + 1] by {}
    if k == 0 {
        if s == ex.oracle_address {
            assert(spec_transfer_step(ex, d, st) == Err::<
                TransferVerifyState,
                AudiusProgramError,
            >(AudiusProgramError::SignatureVerificationFailed));
        } else {
            assert(!st.checkmap[s]);
            assert(spec_transfer_step(ex, d, st) == Err::<
                TransferVerifyState,
                AudiusProgramError,
            >(AudiusProgramError::SignatureVerificationFailed));
        }
    } else {
        if s == ex.oracle_address {
            assert(!st.operators.contains(ex.oracle_operator));
            let st1 = TransferVerifyState {
                checkmap: st.checkmap,
                operators: st.operators.insert(ex.oracle_operator),
                count: st.count + 1,
            };
            assert(spec_transfer_step(ex, d, st) == Ok::<
                TransferVerifyState,
                AudiusProgramError,
            >(st1));
            assert(rest[k - 1] == datas[k]);
            lemma_transfer_loop_replay(ex, rest, st1, k - 1);
        } else if ex.signers.contains(s) {
            assert(!st.checkmap[s]);
            let st1 = TransferVerifyState {
                checkmap: st.checkmap.insert(s, true),
                operators: st.operators,
                count: st.count + 1,
            };
            assert(spec_transfer_step(ex, d, st) == Ok::<
                TransferVerifyState,
                AudiusProgramError,
            >(st1));
            assert forall|a: Seq<u8>|
                st1.checkmap.contains_key(a) && st1.checkmap[a] implies forall|j: int|
                0 <= j <= k - 1 ==> crate::utils::spec_proof_signer(#[trigger] rest[j]) != a by {
                if a == s {
                    assert forall|j: int|
                        0 <= j <= k - 1 implies crate::utils::spec_proof_signer(
                        #[trigger] rest[j],
                    ) != s by {
                        assert(rest[j] == datas[j + 1]);
                    }
                } else {
                    assert(st.checkmap.contains_key(a) && st.checkmap[a]);
                }
            }
            assert(rest[k - 1] == datas[k]);
            lemma_transfer_loop_replay(ex, rest, st1, k - 1);
        } else {
            assert(spec_transfer_step(ex, d, st) == Ok::<
                TransferVerifyState,
                AudiusProgramError,
            >(st));
            assert(rest[k - 1] == datas[k]);
            lemma_transfer_loop_replay(ex, rest, st, k - 1);
        }
    }
}

/// In an otherwise clean batch, a signature replayed in the wrong role
/// fails with exactly `SignatureVerificationFailed`: the proofs before it
/// carry their exact messages with no repeated recognized identity, so
/// the pass reaches the replayed proof and rejects its payload.
pub proof fn lemma_replayed_message_code(
    ex: TransferExpectations,
    datas: Seq<Seq<u8>>,
    initial_operators: Set<Seq<u8>>,
    k: int,
)
    requires
        !ex.signers.contains(ex.oracle_address),
        !initial_operators.contains(ex.oracle_operator),
        0 <= k < datas.len(),
        forall|j: int|
            0 <= j < k && crate::utils::spec_proof_signer(#[trigger] datas[j])
                == ex.oracle_address ==> crate::utils::spec_proof_payload(datas[j])
                == ex.oracle_message,
        forall|j: int|
            0 <= j < k && ex.signers.contains(
                crate::utils::spec_proof_signer(#[trigger] datas[j]),
            ) ==> crate::utils::spec_proof_payload(datas[j]) == ex.senders_message,
        forall|i: int, j: int|
            0 <= i < j <= k && crate::utils::spec_proof_signer(#[trigger] datas[i])
                == crate::utils::spec_proof_signer(#[trigger] datas[j]) ==> !ex.signers.contains(
                crate::utils::spec_proof_signer(datas[j]),
            ),
        forall|i: int, j: int|
            0 <= i < j < k ==> !(crate::utils::spec_proof_signer(#[trigger] datas[i])
                == ex.oracle_address && crate::utils::spec_proof_signer(#[trigger] datas[j])
                == ex.oracle_address),
        (crate::utils::spec_proof_signer(datas[k]) == ex.oracle_address
            && crate::utils::spec_proof_payload(datas[k]) != ex.oracle_message) || (
        ex.signers.contains(crate::utils::spec_proof_signer(datas[k]))
            && crate::utils::spec_proof_payload(datas[k]) != ex.senders_message),
    ensures
        spec_verify_transfer(ex, datas, initial_operators) == Err::<(), AudiusProgramError>(
            AudiusProgramError::SignatureVerificationFailed,
        ),
{
    let st0 = TransferVerifyState {
        checkmap: spec_checkmap_init(ex.signers),
        operators: initial_operators,
        count: 0,
    };
    lemma_checkmap_init_props(ex.signers);
    lemma_transfer_loop_replay(ex, datas, st0, k);
}

pub proof fn lemma_replayed_message_rejected(
    ex: TransferExpectations,
    datas: Seq<Seq<u8>>,
    initial_operators: Set<Seq<u8>>,
    k: int,
)
    requires
        ex.oracle_message != ex.senders_message,
        0 <= k < datas.len(),
        (crate::utils::spec_proof_signer(datas[k]) == ex.oracle_address
            && crate::utils::spec_proof_payload(datas[k]) == ex.senders_message) || (
        ex.signers.contains(crate::utils::spec_proof_signer(datas[k]))
            && crate::utils::spec_proof_payload(datas[k]) == ex.oracle_message),
    ensures
        spec_verify_transfer(ex, datas, initial_operators) is Err,
{
    let st0 = TransferVerifyState {
        checkmap: spec_checkmap_init(ex.signers),
        operators: initial_operators,
        count: 0,
    };
    if spec_transfer_loop(ex, datas, st0) is Ok {
        lemma_transfer_loop_ok_payloads(ex, datas, st0);
    }
}

/// What one verification request checks: either a transfer, against its
/// oracle and transfer terms, or an add-sender mutation, against the
/// registry identity and the incoming sender.
#[derive(Debug)]
pub enum VerificationContext {
    /// Verify a transfer: the oracle's sender record and the transfer
    /// terms.
    Transfer { bot_oracle: crate::state::SenderAccount, transfer: crate::messages::Transfer },
    /// Verify an add-sender mutation: the registry identity and the
    /// identity to be added.
    AddSender { reward_manager_key: crate::SolanaKey, new_sender: EthereumAddress },
}

/// The outcome of verifying a batch of proofs in a given context.
pub open spec fn spec_verify_signatures(
    context: VerificationContext,
    datas: Seq<Seq<u8>>,
    signers: Seq<EthereumAddress>,
    initial_operators: Set<Seq<u8>>,
) -> Result<(), AudiusProgramError> {
    match context {
        VerificationContext::Transfer { bot_oracle, transfer } => spec_verify_transfer(
            spec_transfer_expectations(bot_oracle, transfer, signers),
            datas,
            initial_operators,
        ),
        VerificationContext::AddSender { reward_manager_key, new_sender } => spec_verify_add_sender(
            reward_manager_key@,
            new_sender@,
            datas,
            spec_addresses(signers),
        ),
    }
}

/// Build the verification context for a transfer.
pub fn build_verify_secp_transfer(
    bot_oracle: crate::state::SenderAccount,
    transfer_data: crate::messages::Transfer,
) -> (r: VerificationContext)
    ensures
        r == (VerificationContext::Transfer { bot_oracle, transfer: transfer_data }),
{
    VerificationContext::Transfer { bot_oracle, transfer: transfer_data }
}

/// Build the verification context for an add-sender mutation.
pub fn build_verify_secp_add_sender(
    reward_manager_key: crate::SolanaKey,
    new_sender: EthereumAddress,
) -> (r: VerificationContext)
    ensures
        r == (VerificationContext::AddSender { reward_manager_key, new_sender }),
{
    VerificationContext::AddSender { reward_manager_key, new_sender }
}

/// Verify a batch of signature proofs in the given context, against the
/// declared signers and, for a transfer, the seeded operator set.
pub fn verify_signatures(
    context: &VerificationContext,
    instructions: &Vec<Vec<u8>>,
    signers: &Vec<EthereumAddress>,
    operators: &OperatorSet,
) -> (r: Result<(), AudiusProgramError>)
    requires
        forall|k: int| 0 <= k < instructions@.len() ==> #[trigger] instructions@[k]@.len() >= 97,
        instructions@.len() <= usize::MAX / 2,
        signers@.len() < usize::MAX,
    ensures
        r == spec_verify_signatures(
            *context,
            instructions@.map_values(|d: Vec<u8>| d@),
            signers@,
            operators@,
        ),
{
    match context {
        VerificationContext::Transfer { bot_oracle, transfer } => verify_transfer_signatures(
            bot_oracle,
            transfer,
            instructions,
            signers,
            operators,
        ),
        VerificationContext::AddSender { reward_manager_key, new_sender } =>
            verify_add_sender_signatures(
            reward_manager_key,
            new_sender,
            instructions,
            signers,
        ),
    }
}

} // verus!
