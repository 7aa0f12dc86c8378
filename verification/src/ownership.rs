//! Classification of a block device's ownership.
//!
//! The verdict combines two sources: the device-event database's claim
//! metadata for the device node, and the on-disk signature this manager
//! writes on devices it owns. The database may lag behind the device's true
//! content, so it is never trusted as proof of emptiness: whenever it is
//! inconclusive, the on-disk signature is the final authority. The querying
//! of the database and the opening of the device node are the caller's;
//! the decisions here are pure functions of what those queries returned.

use vstd::prelude::*;
use vstd::string::StringExecFns;

use crate::errors::{ErrorView, StratisError};

verus! {

/// The identifier of the pool a device belongs to.
#[derive(Debug, PartialEq, Eq, Structural, Clone, Copy, Hash)]
pub struct PoolUuid {
    /// The 128-bit identifier value.
    pub value: u128,
}

/// The identifier of a device within its pool.
#[derive(Debug, PartialEq, Eq, Structural, Clone, Copy, Hash)]
pub struct DevUuid {
    /// The 128-bit identifier value.
    pub value: u128,
}

/// What the device-event database reports of a device's claim state: either
/// nothing claims the device, or something does, with or without a
/// filesystem-type name for the claimant.
pub enum UdevClaim {
    /// The database reports the device unclaimed.
    NotClaimed,
    /// The database reports the device claimed but names no type.
    ClaimedUntyped,
    /// The database reports the device claimed with this filesystem type.
    ClaimedWithType(String),
}

/// Spec-level image of `UdevClaim`.
pub enum UdevClaimView {
    /// The database reports the device unclaimed.
    NotClaimed,
    /// The database reports the device claimed but names no type.
    ClaimedUntyped,
    /// The database reports the device claimed with this filesystem type.
    ClaimedWithType(Seq<char>),
}

impl View for UdevClaim {
    type V = UdevClaimView;

    open spec fn view(&self) -> UdevClaimView {
        match self {
            UdevClaim::NotClaimed => UdevClaimView::NotClaimed,
            UdevClaim::ClaimedUntyped => UdevClaimView::ClaimedUntyped,
            UdevClaim::ClaimedWithType(t) => UdevClaimView::ClaimedWithType(t@),
        }
    }
}

/// Something to identify a device that is not this manager's: what the
/// device-event database reported of the foreign claimant. Both fields may
/// be absent when the database confirms a claim but supplies no detail.
pub enum TheirsReason {
    /// The device-event database identifies the device as another's.
    Udev {
        /// A partition-table type reported for the device, if any. No path
        /// here populates it yet; it is kept for the database's sake.
        id_part_table_type: Option<String>,
        /// A filesystem type reported for the device, if any.
        id_fs_type: Option<String>,
    },
}

/// Spec-level image of `TheirsReason`: the two optional type names.
pub struct TheirsReasonView {
    /// A partition-table type reported for the device, if any.
    pub id_part_table_type: Option<Seq<char>>,
    /// A filesystem type reported for the device, if any.
    pub id_fs_type: Option<Seq<char>>,
}

impl View for TheirsReason {
    type V = TheirsReasonView;

    open spec fn view(&self) -> TheirsReasonView {
        match self {
            TheirsReason::Udev { id_part_table_type, id_fs_type } => TheirsReasonView {
                id_part_table_type: match id_part_table_type {
                    Some(t) => Some(t@),
                    None => None,
                },
                id_fs_type: match id_fs_type {
                    Some(t) => Some(t@),
                    None => None,
                },
            },
        }
    }
}

/// The text of a foreign-ownership reason: each field's value, or a fixed
/// placeholder where the database supplied none.
pub open spec fn theirs_reason_text(r: TheirsReasonView) -> Seq<char> {
    "ID_PART_TABLE_TYPE: "@ + (match r.id_part_table_type {
        Some(t) => t,
        None => "not available"@,
    }) + ", ID_FS_TYPE: "@ + (match r.id_fs_type {
        Some(t) => t,
        None => "not found"@,
    })
}

impl TheirsReason {
    /// Render the reason for diagnostics.
    pub fn describe(&self) -> (r: String)
        ensures
            r@ == theirs_reason_text(self@),
    {
        match self {
            TheirsReason::Udev { id_part_table_type, id_fs_type } => {
                let part: &str = match id_part_table_type {
                    Some(t) => t.as_str(),
                    None => "not available",
                };
                let fs: &str = match id_fs_type {
                    Some(t) => t.as_str(),
                    None => "not found",
                };
                String::from_str("ID_PART_TABLE_TYPE: ").concat(part).concat(
                    ", ID_FS_TYPE: ",
                ).concat(fs)
            },
        }
    }
}

/// A device's ownership, as this manager classifies it.
pub enum DevOwnership {
    /// The database says this manager owns the device but the on-disk
    /// signature disagrees: a stale cache or corruption, surfaced to the
    /// caller and never silently resolved.
    Contradiction,
    /// The device carries this manager's signature, with the pool and
    /// device identifiers read from it.
    Ours(PoolUuid, DevUuid),
    /// Nothing claims the device; it is free to claim.
    Unowned,
    /// Some other subsystem owns the device.
    Theirs(TheirsReason),
}

/// Spec-level image of `DevOwnership`.
pub enum OwnershipView {
    /// Claim metadata and on-disk content disagree.
    Contradiction,
    /// This manager's signature, with its pool and device identifiers.
    Ours(u128, u128),
    /// Nothing claims the device.
    Unowned,
    /// Another subsystem owns the device.
    Theirs(TheirsReasonView),
}

impl View for DevOwnership {
    type V = OwnershipView;

    open spec fn view(&self) -> OwnershipView {
        match self {
            DevOwnership::Contradiction => OwnershipView::Contradiction,
            DevOwnership::Ours(p, d) => OwnershipView::Ours(p.value, d.value),
            DevOwnership::Unowned => OwnershipView::Unowned,
            DevOwnership::Theirs(r) => OwnershipView::Theirs(r@),
        }
    }
}

/// What the database's claim state alone settles: either a final verdict,
/// or the need to read the on-disk signature before deciding.
pub enum IdentifyDecision {
    /// The verdict, settled without touching the device.
    Settled(DevOwnership),
    /// The on-disk signature must be read before deciding.
    NeedSignature {
        /// Whether the database claimed the device as this manager's. With
        /// the claim, a missing signature is a contradiction; without it,
        /// a missing signature means the device is unowned.
        claimed: bool,
    },
}

/// Spec-level image of `IdentifyDecision`.
pub enum IdentifyDecisionView {
    /// The verdict, settled without touching the device.
    Settled(OwnershipView),
    /// The on-disk signature must be read before deciding.
    NeedSignature {
        /// Whether the database claimed the device as this manager's.
        claimed: bool,
    },
}

impl View for IdentifyDecision {
    type V = IdentifyDecisionView;

    open spec fn view(&self) -> IdentifyDecisionView {
        match self {
            IdentifyDecision::Settled(v) => IdentifyDecisionView::Settled(v@),
            IdentifyDecision::NeedSignature { claimed } => IdentifyDecisionView::NeedSignature {
                claimed: *claimed,
            },
        }
    }
}

/// The decision table over the database's claim state. The database
/// reporting "unclaimed" is never trusted as proof of emptiness (it may
/// predate signature-aware detection), so that row, like the row claiming
/// this manager's own type, defers to the on-disk signature.
pub open spec fn udev_decision(claim: UdevClaimView) -> IdentifyDecisionView {
    match claim {
        UdevClaimView::NotClaimed => IdentifyDecisionView::NeedSignature { claimed: false },
        UdevClaimView::ClaimedUntyped => IdentifyDecisionView::Settled(
            OwnershipView::Theirs(TheirsReasonView { id_part_table_type: None, id_fs_type: None }),
        ),
        UdevClaimView::ClaimedWithType(t) => if t == "stratis"@ {
            IdentifyDecisionView::NeedSignature { claimed: true }
        } else {
            IdentifyDecisionView::Settled(
                OwnershipView::Theirs(
                    TheirsReasonView { id_part_table_type: None, id_fs_type: Some(t) },
                ),
            )
        },
    }
}

/// The verdict once the on-disk signature has been read: a signature means
/// the device is this manager's, with the identifiers the signature holds;
/// no signature means a contradiction when the database had claimed the
/// device as this manager's, and an unowned device otherwise.
pub open spec fn signature_verdict(claimed: bool, sig: Option<(u128, u128)>) -> OwnershipView {
    match sig {
        Some(ids) => OwnershipView::Ours(ids.0, ids.1),
        None => if claimed {
            OwnershipView::Contradiction
        } else {
            OwnershipView::Unowned
        },
    }
}

/// The whole classification as a function of the database's claim state and
/// of the on-disk signature (the latter consulted only where the table
/// defers to it).
pub open spec fn identify_spec(claim: UdevClaimView, sig: Option<(u128, u128)>) -> OwnershipView {
    match udev_decision(claim) {
        IdentifyDecisionView::Settled(v) => v,
        IdentifyDecisionView::NeedSignature { claimed } => signature_verdict(claimed, sig),
    }
}

/// The error message for a device node the database has no entry for.
pub open spec fn not_found_msg(devnode: Seq<char>) -> Seq<char> {
    "no device in udev database corresponding to device node "@ + devnode
}

/// Identify a device node from what the device-event database reports of
/// it: `claim` is the database's claim state, or `None` when the database
/// has no entry for the node (an error: every block device present should
/// have one). A database query that itself failed is the caller's to
/// propagate; it never reaches this table. The returned decision either
/// settles the verdict or directs the caller to read the on-disk signature
/// and finish with `interpret_signature`.
pub fn identify(devnode: &str, claim: Option<UdevClaim>) -> (r: Result<
    IdentifyDecision,
    StratisError,
>)
    ensures
        claim is None ==> (r matches Err(e) && e@ == ErrorView::NotFound(not_found_msg(devnode@))),
        claim matches Some(c) ==> (r matches Ok(d) && d@ == udev_decision(c@)),
{
    match claim {
        None => Err(
            StratisError::NotFound(
                String::from_str("no device in udev database corresponding to device node ").concat(
                    devnode,
                ),
            ),
        ),
        Some(UdevClaim::NotClaimed) => Ok(IdentifyDecision::NeedSignature { claimed: false }),
        Some(UdevClaim::ClaimedUntyped) => Ok(
            IdentifyDecision::Settled(
                DevOwnership::Theirs(
                    TheirsReason::Udev { id_part_table_type: None, id_fs_type: None },
                ),
            ),
        ),
        Some(UdevClaim::ClaimedWithType(t)) => {
            if t == String::from_str("stratis") {
                proof {
                    reveal_strlit("stratis");
                }
                Ok(IdentifyDecision::NeedSignature { claimed: true })
            } else {
                Ok(
                    IdentifyDecision::Settled(
                        DevOwnership::Theirs(
                            TheirsReason::Udev { id_part_table_type: None, id_fs_type: Some(t) },
                        ),
                    ),
                )
            }
        },
    }
}

/// Finish a classification that had to read the on-disk signature:
/// `claimed` is what `identify` directed, and `signature` is what the
/// signature reader found on the device, `None` when no signature is
/// present. Failures of the read itself are the caller's to propagate, not
/// to fold into a verdict.
pub fn interpret_signature(claimed: bool, signature: Option<(PoolUuid, DevUuid)>) -> (r:
    DevOwnership)
    ensures
        r@ == signature_verdict(claimed, signature_view(signature)),
{
    match signature {
        Some((pool, dev)) => DevOwnership::Ours(pool, dev),
        None => if claimed {
            DevOwnership::Contradiction
        } else {
            DevOwnership::Unowned
        },
    }
}

/// Spec-level image of a signature-read result.
pub open spec fn signature_view(signature: Option<(PoolUuid, DevUuid)>) -> Option<(u128, u128)> {
    match signature {
        Some(ids) => Some((ids.0.value, ids.1.value)),
        None => None,
    }
}

/// Classification is a pure function of the database's claim state and the
/// on-disk signature: two classifications of equal states yield the
/// identical verdict.
pub proof fn lemma_identify_is_pure(
    claim1: UdevClaimView,
    sig1: Option<(u128, u128)>,
    claim2: UdevClaimView,
    sig2: Option<(u128, u128)>,
)
    requires
        claim1 == claim2,
        sig1 == sig2,
    ensures
        identify_spec(claim1, sig1) == identify_spec(claim2, sig2),
{
}

/// Round trip: once this manager's signature with a given pool and device
/// identifier is on the device, classification returns exactly those
/// identifiers — whether the database still reports the device unclaimed
/// (a stale cache) or already reports this manager's own type. (With a
/// database state claiming a foreign type, the signature is never read, so
/// that state is excluded here.)
pub proof fn lemma_signature_round_trip(claim: UdevClaimView, pool: u128, dev: u128)
    requires
        claim is NotClaimed || (claim matches UdevClaimView::ClaimedWithType(t) && t
            == "stratis"@),
    ensures
        identify_spec(claim, Some((pool, dev))) == OwnershipView::Ours(pool, dev),
{
}

/// A database claim of this manager's own type with no signature on disk
/// is always surfaced as a contradiction — never as ownership, never as an
/// unowned device.
pub proof fn lemma_claim_without_signature_contradicts()
    ensures
        identify_spec(UdevClaimView::ClaimedWithType("stratis"@), None)
            == OwnershipView::Contradiction,
{
}

} // verus!

