//! The life of a user wallet in the donation pool: free, claimed by a worker,
//! then either ready to be swept or free again.
use vstd::prelude::*;
use crate::gas::TopUpDecision;

verus! {

/// The most wallets one worker claims in one cycle.
pub const CLAIM_BATCH_LIMIT: u64 = 100;

/// The status column of a user wallet.
#[derive(Clone, Copy, Debug, PartialEq, Eq, Structural)]
pub enum WalletStatus {
    /// In the pool, to be picked up by a worker.
    Free,
    /// Claimed by a worker; other workers skip it.
    InProgress,
    /// Funded where needed: its tokens can be swept.
    Sweepable,
}

impl WalletStatus {
    /// The text stored for the status.
    pub open spec fn spec_text(self) -> Seq<char> {
        match self {
            WalletStatus::Free => "FREE"@,
            WalletStatus::InProgress => "IN_PROGRESS"@,
            WalletStatus::Sweepable => "SWEEPABLE"@,
        }
    }

    /// The text stored for the status.
    pub fn as_str(&self) -> (r: &'static str)
        ensures
            r@ == self.spec_text(),
    {
        match self {
            WalletStatus::Free => "FREE",
            WalletStatus::InProgress => "IN_PROGRESS",
            WalletStatus::Sweepable => "SWEEPABLE",
        }
    }
}

/// The status a wallet must have to be claimed by a worker.
pub open spec fn claimable_status() -> WalletStatus {
    WalletStatus::Free
}

/// The status a worker gives the wallets it claims.
pub open spec fn claimed_status_spec() -> WalletStatus {
    WalletStatus::InProgress
}

/// The status a wallet is given back when every attempt at it failed.
pub open spec fn released_status_spec() -> WalletStatus {
    WalletStatus::Free
}

/// The moves a wallet's status may make in one worker cycle: a free wallet
/// is claimed, and a claimed wallet ends sweepable or free again.
pub open spec fn allowed_transition(from: WalletStatus, to: WalletStatus) -> bool {
    ||| from == WalletStatus::Free && to == WalletStatus::InProgress
    ||| from == WalletStatus::InProgress && (to == WalletStatus::Sweepable || to
        == WalletStatus::Free)
}

/// The status a worker gives the wallets it claims (only wallets with the
/// status `claimable_status()` are claimed).
pub fn claimed_status() -> (r: WalletStatus)
    ensures
        r == claimed_status_spec(),
{
    WalletStatus::InProgress
}

/// Whether some chain's decision leaves the wallet sweepable.
pub open spec fn any_sweepable(decisions: Seq<TopUpDecision>) -> bool {
    exists|i: int| 0 <= i < decisions.len() && (#[trigger] decisions[i])@.marks_sweepable()
}

/// The status of a processed wallet whose chains were decided as `decisions`.
pub open spec fn scan_status(decisions: Seq<TopUpDecision>) -> WalletStatus {
    if any_sweepable(decisions) {
        WalletStatus::Sweepable
    } else {
        WalletStatus::Free
    }
}

/// The status of a processed wallet, from the decisions carried out on each
/// chain: sweepable when some chain left it so, free otherwise. A processed
/// wallet is never left claimed.
pub fn status_after_scan(decisions: &Vec<TopUpDecision>) -> (r: WalletStatus)
    ensures
        r == scan_status(decisions@),
        // The same, over the decision variants: sweepable exactly when some
        // chain held a positive stablecoin balance (any decision but
        // `NoTokenBalance`, `AlreadyFunded` included).
        (r == WalletStatus::Sweepable) <==> exists|i: int|
            0 <= i < decisions@.len() && !(#[trigger] decisions@[i] is NoTokenBalance),
        (r == WalletStatus::Free) <==> forall|i: int|
            0 <= i < decisions@.len() ==> (#[trigger] decisions@[i] is NoTokenBalance),
        r != WalletStatus::InProgress,
{
    let mut sweepable = false;
    for i in 0..decisions.len()
        invariant
            sweepable == exists|j: int| 0 <= j < i && (#[trigger] decisions@[j])@.marks_sweepable(),
    {
        if decisions[i].marks_sweepable() {
            sweepable = true;
        }
    }
    if sweepable {
        WalletStatus::Sweepable
    } else {
        WalletStatus::Free
    }
}

/// A processed wallet is sweepable exactly when one of its chains was
/// decided otherwise than `NoTokenBalance` (that is, held a positive
/// stablecoin balance), and free exactly when every chain was
/// `NoTokenBalance`.
pub proof fn lemma_scan_status_by_variants(decisions: Seq<TopUpDecision>)
    ensures
        (scan_status(decisions) == WalletStatus::Sweepable) <==> exists|i: int|
            0 <= i < decisions.len() && !(#[trigger] decisions[i] is NoTokenBalance),
        (scan_status(decisions) == WalletStatus::Free) <==> forall|i: int|
            0 <= i < decisions.len() ==> (#[trigger] decisions[i] is NoTokenBalance),
{
    if exists|i: int| 0 <= i < decisions.len() && !(#[trigger] decisions[i] is NoTokenBalance) {
        let i = choose|i: int| 0 <= i < decisions.len() && !(#[trigger] decisions[i] is NoTokenBalance);
        assert(decisions[i]@.marks_sweepable());
    }
}

/// A wallet's status in one worker cycle only moves FREE -> IN_PROGRESS when
/// it is claimed, then IN_PROGRESS -> SWEEPABLE or FREE when it has been
/// processed (whatever its chains decided) or released after failed attempts;
/// a wallet that was not free is not claimed, and no cycle leaves a wallet
/// IN_PROGRESS.
pub proof fn lemma_status_transitions(decisions: Seq<TopUpDecision>)
    ensures
        allowed_transition(claimable_status(), claimed_status_spec()),
        allowed_transition(claimed_status_spec(), scan_status(decisions)),
        allowed_transition(claimed_status_spec(), released_status_spec()),
        forall|s: WalletStatus|
            s != claimable_status() ==> !allowed_transition(s, claimed_status_spec()),
        scan_status(decisions) != claimed_status_spec(),
        released_status_spec() != claimed_status_spec(),
{
}

} // verus!
