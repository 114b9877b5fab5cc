//! A will and its execution.
//!
//! A will names beneficiaries and gives each a split. Executing it divides a
//! balance among the beneficiaries in the ratio of their splits. The library
//! decides which transfers are due; whoever runs the contract sends them.

use crate::contract::{Contract, ContractView, Transfer, TransferView};
use crate::encoding::{bytes_to_hex, encode};
use crate::error::{AuthorizationError, PermissionDenied};
use vstd::arithmetic::div_mod::{lemma_div_pos_is_pos, lemma_fundamental_div_mod, lemma_mod_bound};
use vstd::prelude::*;
use vstd::utf8::encode_utf8;

verus! {

/// The largest number of beneficiaries that a will can name.
pub const MAX_BENEFICIARIES: usize = 10;

/// A will as it is stored.
#[derive(Debug, PartialEq, Eq)]
pub struct WillStoreEntry {
    /// Who made the will.
    pub executor: String,
    /// Who inherits.
    pub beneficiary: Vec<String>,
    /// The split of each beneficiary, in the order of `beneficiary`.
    pub splits: Vec<u128>,
}

/// A will as a mathematical value.
pub struct WillStoreEntryView {
    pub executor: Seq<char>,
    pub beneficiary: Seq<Seq<char>>,
    pub splits: Seq<u128>,
}

impl View for WillStoreEntry {
    type V = WillStoreEntryView;

    open spec fn view(&self) -> WillStoreEntryView {
        WillStoreEntryView {
            executor: self.executor@,
            beneficiary: self.beneficiary@.map_values(|b: String| b@),
            splits: self.splits@,
        }
    }
}

impl WillStoreEntryView {
    /// Whether the will is well-formed: it names at most
    /// `MAX_BENEFICIARIES` beneficiaries and has one split for each.
    pub open spec fn wf(self) -> bool {
        self.beneficiary.len() == self.splits.len() <= MAX_BENEFICIARIES
    }
}

/// Why a will was not stored, changed or executed.
#[derive(Clone, Copy, Debug, PartialEq, Eq, Structural)]
pub enum WillError {
    /// The will does not have one split for each beneficiary, or names too
    /// many beneficiaries.
    Malformed,
    /// The will names as many beneficiaries as it can.
    Full,
    /// The authorization gate turned the caller away.
    Unauthorized(AuthorizationError),
    /// The will names beneficiaries, but all splits are zero.
    NoShares,
    /// The splits, or the balance times a split, do not fit in 128 bits.
    Overflow,
}

/// The sum of `splits`.
pub open spec fn total(splits: Seq<u128>) -> nat
    decreases splits.len(),
{
    if splits.len() == 0 {
        0
    } else {
        total(splits.drop_last()) + splits.last() as nat
    }
}

/// The part of `balance` that falls to a split of `split` out of `sum`,
/// rounded down.
pub open spec fn share(balance: u128, split: u128, sum: nat) -> int {
    (balance * split) / (sum as int)
}

/// Whether the payouts of `will` out of `balance` can be computed in 128
/// bits.
pub open spec fn fits(will: WillStoreEntryView, balance: u128) -> bool {
    &&& total(will.splits) <= u128::MAX
    &&& forall|i: int|
        0 <= i < will.splits.len() ==> balance * (#[trigger] will.splits[i]) <= u128::MAX
}

/// The transfers that executing `will` on `balance` is made of: one to each
/// beneficiary, in order, of its share. A will without beneficiaries pays
/// nobody.
pub open spec fn payouts(will: WillStoreEntryView, balance: u128) -> Result<
    Seq<TransferView>,
    WillError,
> {
    let sum = total(will.splits);
    if !fits(will, balance) {
        Err(WillError::Overflow)
    } else if sum == 0 && will.splits.len() > 0 {
        Err(WillError::NoShares)
    } else {
        Ok(
            Seq::new(
                will.splits.len(),
                |i: int|
                    TransferView {
                        receiver_id: will.beneficiary[i],
                        amount: share(balance, will.splits[i], sum) as u128,
                    },
            ),
        )
    }
}

/// What executing `will` answers to `caller`: the payouts, where the
/// authorization gate of `contract` lets `caller` through.
pub open spec fn execution(
    contract: ContractView,
    will: WillStoreEntryView,
    caller: Seq<char>,
    balance: u128,
) -> Result<Seq<TransferView>, WillError> {
    match contract.require_approved_codehash(caller) {
        Err(e) => Err(WillError::Unauthorized(e)),
        Ok(_) => payouts(will, balance),
    }
}

/// The sum of the first splits is at most the sum of all.
pub proof fn lemma_total_of_prefix(splits: Seq<u128>, n: int)
    requires
        0 <= n <= splits.len(),
    ensures
        total(splits.take(n)) <= total(splits),
    decreases splits.len() - n,
{
    if n == splits.len() {
        assert(splits.take(n) =~= splits);
    } else {
        lemma_total_of_prefix(splits, n + 1);
        assert(splits.take(n + 1).drop_last() =~= splits.take(n));
    }
}

/// Where the splits sum to zero, each of them is zero.
pub proof fn lemma_total_zero(splits: Seq<u128>, i: int)
    requires
        total(splits) == 0,
        0 <= i < splits.len(),
    ensures
        splits[i] == 0,
    decreases splits.len(),
{
    if i < splits.len() - 1 {
        lemma_total_zero(splits.drop_last(), i);
    }
}

/// The sum of the amounts of `transfers`.
pub open spec fn paid(transfers: Seq<TransferView>) -> nat
    decreases transfers.len(),
{
    if transfers.len() == 0 {
        0
    } else {
        paid(transfers.drop_last()) + transfers.last().amount as nat
    }
}

proof fn lemma_share_is_bounded(balance: u128, split: u128, sum: nat)
    requires
        sum > 0,
        balance * split <= u128::MAX,
    ensures
        0 <= share(balance, split, sum) <= u128::MAX,
        share(balance, split, sum) * sum <= balance * split,
{
    let x = balance * split;
    let d = sum as int;
    let q = x / d;
    lemma_fundamental_div_mod(x, d);
    lemma_mod_bound(x, d);
    lemma_div_pos_is_pos(x, d);
    assert(q <= q * d) by (nonlinear_arith)
        requires
            q >= 0,
            d >= 1,
    ;
}

proof fn lemma_paid_to_the_first(will: WillStoreEntryView, balance: u128, n: int)
    requires
        payouts(will, balance) is Ok,
        total(will.splits) > 0,
        0 <= n <= will.splits.len(),
    ensures
        paid(payouts(will, balance)->Ok_0.take(n)) * total(will.splits) <= balance * total(
            will.splits.take(n),
        ),
    decreases n,
{
    let transfers = payouts(will, balance)->Ok_0;
    let sum = total(will.splits);
    if n == 0 {
        assert(paid(transfers.take(0)) * sum == 0) by (nonlinear_arith)
            requires
                paid(transfers.take(0)) == 0,
        ;
        assert(balance * total(will.splits.take(0)) == 0) by (nonlinear_arith)
            requires
                total(will.splits.take(0)) == 0,
        ;
    } else {
        lemma_paid_to_the_first(will, balance, n - 1);
        assert(transfers.take(n).drop_last() =~= transfers.take(n - 1));
        assert(will.splits.take(n).drop_last() =~= will.splits.take(n - 1));
        let split = will.splits[n - 1];
        assert(balance * split <= u128::MAX);
        lemma_share_is_bounded(balance, split, sum);
        let amount = transfers[n - 1].amount;
        assert(amount == share(balance, split, sum));
        let before = paid(transfers.take(n - 1));
        let total_before = total(will.splits.take(n - 1));
        assert(paid(transfers.take(n)) == before + amount);
        assert(total(will.splits.take(n)) == total_before + split);
        assert((before + amount) * sum <= balance * (total_before + split)) by (nonlinear_arith)
            requires
                before * sum <= balance * total_before,
                amount * sum <= balance * split,
        ;
    }
}

/// Executing a will never pays out more than the balance: the amounts of
/// its transfers sum to the balance at most.
pub proof fn law_payouts_stay_within_balance(will: WillStoreEntryView, balance: u128)
    requires
        payouts(will, balance) is Ok,
    ensures
        paid(payouts(will, balance)->Ok_0) <= balance,
{
    let transfers = payouts(will, balance)->Ok_0;
    let sum = total(will.splits);
    if will.splits.len() > 0 {
        lemma_paid_to_the_first(will, balance, will.splits.len() as int);
        assert(transfers.take(will.splits.len() as int) =~= transfers);
        assert(will.splits.take(will.splits.len() as int) =~= will.splits);
        assert(paid(transfers) <= balance) by (nonlinear_arith)
            requires
                paid(transfers) * sum <= balance * sum,
                sum > 0,
        ;
    }
}

/// The executor of a will: the will it holds, kept well-formed.
pub struct WillExecutor {
    will_entry: WillStoreEntry,
}

impl View for WillExecutor {
    type V = WillStoreEntryView;

    closed spec fn view(&self) -> WillStoreEntryView {
        self.will_entry@
    }
}

fn clone_names(names: &Vec<String>) -> (r: Vec<String>)
    ensures
        r@.map_values(|b: String| b@) == names@.map_values(|b: String| b@),
{
    let mut r: Vec<String> = Vec::new();
    let mut i: usize = 0;
    while i < names.len()
        invariant
            i <= names@.len(),
            r@.len() == i,
            forall|j: int| 0 <= j < i ==> r@[j]@ == names@[j]@,
        decreases names@.len() - i,
    {
        r.push(names[i].clone());
        i += 1;
    }
    assert(r@.map_values(|b: String| b@) =~= names@.map_values(|b: String| b@));
    r
}

impl WillExecutor {
    /// The invariant of the type: the will it holds is well-formed.
    pub closed spec fn wf(&self) -> bool {
        self.will_entry@.wf()
    }

    /// Stores `will_request`, where it is well-formed.
    pub fn init(will_request: WillStoreEntry) -> (r: Result<WillExecutor, WillError>)
        ensures
            r is Ok <==> will_request@.wf(),
            r matches Ok(executor) ==> executor.wf() && executor@ == will_request@,
            r matches Err(e) ==> e == WillError::Malformed,
    {
        if will_request.beneficiary.len() == will_request.splits.len()
            && will_request.splits.len() <= MAX_BENEFICIARIES {
            Ok(WillExecutor { will_entry: will_request })
        } else {
            Err(WillError::Malformed)
        }
    }

    /// Adds `beneficiary` with `split` at the end of the will, where the
    /// will can take one more; a full will stays as it is.
    pub fn add_will_beneficiary(&mut self, beneficiary: String, split: u128) -> (r: Result<
        (),
        WillError,
    >)
        requires
            old(self).wf(),
        ensures
            final(self).wf(),
            r is Ok <==> old(self)@.splits.len() < MAX_BENEFICIARIES,
            r is Ok ==> final(self)@ == (WillStoreEntryView {
                beneficiary: old(self)@.beneficiary.push(beneficiary@),
                splits: old(self)@.splits.push(split),
                ..old(self)@
            }),
            r matches Err(e) ==> e == WillError::Full && final(self)@ == old(self)@,
    {
        if self.will_entry.splits.len() < MAX_BENEFICIARIES {
            let ghost before = self.will_entry@;
            self.will_entry.beneficiary.push(beneficiary);
            self.will_entry.splits.push(split);
            assert(self.will_entry@.beneficiary =~= before.beneficiary.push(beneficiary@));
            Ok(())
        } else {
            Err(WillError::Full)
        }
    }

    /// The will as it is stored.
    pub fn get_will(&self) -> (r: WillStoreEntry)
        ensures
            r@ == self@,
    {
        WillStoreEntry {
            executor: self.will_entry.executor.clone(),
            beneficiary: clone_names(&self.will_entry.beneficiary),
            splits: self.will_entry.splits.clone(),
        }
    }

    /// The transfers that divide `balance` among the beneficiaries in the
    /// ratio of their splits, each share rounded down.
    pub fn payouts(&self, balance: u128) -> (r: Result<Vec<Transfer>, WillError>)
        requires
            self.wf(),
        ensures
            match r {
                Ok(transfers) => payouts(self@, balance) == Ok::<Seq<TransferView>, WillError>(
                    transfers@.map_values(|t: Transfer| t@),
                ),
                Err(e) => payouts(self@, balance) == Err::<Seq<TransferView>, WillError>(e),
            },
    {
        let will = &self.will_entry;
        let ghost splits = will.splits@;
        let n = will.splits.len();
        let mut sum: u128 = 0;
        let mut i: usize = 0;
        while i < n
            invariant
                will == &self.will_entry,
                n == splits.len(),
                splits == will.splits@,
                i <= n,
                sum == total(splits.take(i as int)),
            decreases n - i,
        {
            proof {
                lemma_total_of_prefix(splits, i + 1);
                assert(splits.take(i + 1).drop_last() =~= splits.take(i as int));
                assert(total(splits.take(i + 1)) == sum + splits[i as int]);
            }
            match sum.checked_add(will.splits[i]) {
                Some(s) => { sum = s; },
                None => { return Err(WillError::Overflow); },
            }
            i += 1;
        }
        assert(splits.take(n as int) =~= splits);
        let mut transfers: Vec<Transfer> = Vec::new();
        let mut k: usize = 0;
        while k < n
            invariant
                self.wf(),
                will == &self.will_entry,
                n == splits.len(),
                splits == will.splits@,
                k <= n,
                sum == total(splits),
                transfers@.len() == k,
                k > 0 ==> sum > 0,
                forall|j: int| 0 <= j < k ==> balance * (#[trigger] splits[j]) <= u128::MAX,
                forall|j: int|
                    0 <= j < k ==> (#[trigger] transfers@[j])@ == (TransferView {
                        receiver_id: self@.beneficiary[j],
                        amount: share(balance, splits[j], sum as nat) as u128,
                    }),
            decreases n - k,
        {
            if sum == 0 {
                proof {
                    assert forall|j: int| 0 <= j < splits.len() implies balance * (
                    #[trigger] splits[j]) <= u128::MAX by {
                        lemma_total_zero(splits, j);
                    }
                }
                return Err(WillError::NoShares);
            }
            let product = match balance.checked_mul(will.splits[k]) {
                Some(p) => p,
                None => {
                    assert(balance * splits[k as int] > u128::MAX);
                    return Err(WillError::Overflow);
                },
            };
            let amount = product / sum;
            transfers.push(Transfer { receiver_id: will.beneficiary[k].clone(), amount });
            k += 1;
        }
        assert(transfers@.map_values(|t: Transfer| t@) =~= payouts(self@, balance)->Ok_0);
        Ok(transfers)
    }

    /// Executes the will for `caller`: where the authorization gate of
    /// `contract` lets `caller` through, the transfers that divide `balance`
    /// among the beneficiaries.
    pub fn execute_will(&self, contract: &Contract, caller: &String, balance: u128) -> (r: Result<
        Vec<Transfer>,
        WillError,
    >)
        requires
            self.wf(),
            contract.wf(),
        ensures
            match r {
                Ok(transfers) => execution(contract@, self@, caller@, balance) == Ok::<
                    Seq<TransferView>,
                    WillError,
                >(transfers@.map_values(|t: Transfer| t@)),
                Err(e) => execution(contract@, self@, caller@, balance) == Err::<
                    Seq<TransferView>,
                    WillError,
                >(e),
            },
    {
        match contract.require_approved_codehash(caller) {
            Ok(_) => self.payouts(balance),
            Err(e) => Err(WillError::Unauthorized(e)),
        }
    }

    /// Executes the will for the owner of `contract`: the whole of
    /// `balance` goes to the owner, and to nobody where `caller` is not the
    /// owner.
    pub fn execute_will_by_owner(&self, contract: &Contract, caller: &String, balance: u128) -> (r:
        Result<Transfer, PermissionDenied>)
        ensures
            r is Ok <==> caller@ == contract@.owner_id,
            r matches Ok(transfer) ==> transfer@ == (TransferView {
                receiver_id: contract@.owner_id,
                amount: balance,
            }),
    {
        match contract.require_owner(caller) {
            Ok(()) => Ok(Transfer { receiver_id: contract.owner_id.clone(), amount: balance }),
            Err(e) => Err(e),
        }
    }
}

/// SHA-256 of `data`: 32 bytes.
pub uninterp spec fn sha256(data: Seq<u8>) -> Seq<u8>;

/// Calls `Sha256::new`, `update` and `finalize` of the `sha2` crate. The
/// result is the SHA-256 digest of `data`, which has 32 bytes.
#[verifier::external_body]
fn sha256_digest(data: &[u8]) -> (r: Vec<u8>)
    ensures
        r@ == sha256(data@),
        r@.len() == 32,
{
    let mut hasher = <sha2::Sha256 as sha2::Digest>::new();
    sha2::Digest::update(&mut hasher, data);
    sha2::Digest::finalize(hasher).to_vec()
}

/// The name under which a will is stored: the SHA-256 digest of its text,
/// as lower-case hex.
pub fn hash(manifesto: String) -> (r: String)
    ensures
        r@ == bytes_to_hex(sha256(encode_utf8(manifesto@))),
        r@.len() == 64,
{
    let digest = sha256_digest(manifesto.as_str().as_bytes());
    encode(digest.as_slice())
}

} // verus!
