use stratis_backstore::errors::StratisError;
use stratis_backstore::ownership::{
    identify, interpret_signature, DevOwnership, DevUuid, IdentifyDecision, PoolUuid, TheirsReason,
    UdevClaim,
};

/// A device with a foreign filesystem directly on it is identified as not
/// this manager's: the database reports it claimed with the foreign type.
fn check_other_ownership(devnode: &str, fs_type: &str) {
    let decision = identify(devnode, Some(UdevClaim::ClaimedWithType(fs_type.to_string())))
        .unwrap();
    match decision {
        IdentifyDecision::Settled(DevOwnership::Theirs(_)) => (),
        _ => panic!("a foreign filesystem must classify as another's"),
    }
}

/// An empty device is unowned: the database reports it unclaimed, and the
/// fallback read of the on-disk signature finds nothing.
fn check_device_empty(devnode: &str) {
    let decision = identify(devnode, Some(UdevClaim::NotClaimed)).unwrap();
    match decision {
        IdentifyDecision::NeedSignature { claimed } => {
            assert!(!claimed);
            let verdict = interpret_signature(claimed, None);
            assert!(matches!(verdict, DevOwnership::Unowned));
        }
        _ => panic!("an unclaimed device must defer to the on-disk signature"),
    }
}

#[test]
pub fn loop_test_other_ownership() {
    check_other_ownership("/dev/loop0", "ext3");
}

#[test]
pub fn travis_test_other_ownership() {
    check_other_ownership("/dev/loop1", "ext3");
}

#[test]
pub fn real_test_other_ownership() {
    check_other_ownership("/dev/vda", "ext3");
}

#[test]
pub fn loop_test_device_empty() {
    check_device_empty("/dev/loop0");
}

#[test]
pub fn travis_test_device_empty() {
    check_device_empty("/dev/loop1");
}

#[test]
pub fn real_test_device_empty() {
    check_device_empty("/dev/vda");
}

#[test]
fn missing_database_entry_is_not_found() {
    match identify("/dev/loop7", None) {
        Err(StratisError::NotFound(msg)) => {
            assert_eq!(
                msg,
                "no device in udev database corresponding to device node /dev/loop7"
            );
        }
        _ => panic!("a device node without a database entry must fail with NotFound"),
    }
}

#[test]
fn claimed_untyped_is_theirs_with_empty_reason() {
    let decision = identify("/dev/loop0", Some(UdevClaim::ClaimedUntyped)).unwrap();
    match decision {
        IdentifyDecision::Settled(DevOwnership::Theirs(reason)) => {
            let TheirsReason::Udev { id_part_table_type, id_fs_type } = &reason;
            assert!(id_part_table_type.is_none());
            assert!(id_fs_type.is_none());
            assert_eq!(
                reason.describe(),
                "ID_PART_TABLE_TYPE: not available, ID_FS_TYPE: not found"
            );
        }
        _ => panic!("a claim without a type must classify as another's, with an empty reason"),
    }
}

#[test]
fn foreign_type_is_recorded_in_the_reason() {
    let decision = identify("/dev/loop0", Some(UdevClaim::ClaimedWithType("ext4".to_string())))
        .unwrap();
    match decision {
        IdentifyDecision::Settled(DevOwnership::Theirs(reason)) => {
            let TheirsReason::Udev { id_part_table_type, id_fs_type } = &reason;
            assert!(id_part_table_type.is_none());
            assert_eq!(id_fs_type.as_deref(), Some("ext4"));
            assert_eq!(
                reason.describe(),
                "ID_PART_TABLE_TYPE: not available, ID_FS_TYPE: ext4"
            );
        }
        _ => panic!("a foreign type must be recorded in the reason"),
    }
}

#[test]
fn stratis_claim_with_signature_is_ours() {
    let decision = identify("/dev/loop0", Some(UdevClaim::ClaimedWithType("stratis".to_string())))
        .unwrap();
    match decision {
        IdentifyDecision::NeedSignature { claimed } => {
            assert!(claimed);
            let pool = PoolUuid { value: 0x1111_2222_3333_4444_5555_6666_7777_8888 };
            let dev = DevUuid { value: 0x9999_aaaa_bbbb_cccc_dddd_eeee_ffff_0000 };
            let verdict = interpret_signature(claimed, Some((pool, dev)));
            match verdict {
                DevOwnership::Ours(p, d) => {
                    assert_eq!(p, pool);
                    assert_eq!(d, dev);
                }
                _ => panic!("a signature must yield exactly the identifiers written"),
            }
        }
        _ => panic!("a claim of this manager's type must defer to the on-disk signature"),
    }
}

#[test]
fn signature_round_trip_with_stale_database() {
    // After this manager's signature is written, the database may still
    // report the device unclaimed; the on-disk header is the authority.
    let decision = identify("/dev/loop0", Some(UdevClaim::NotClaimed)).unwrap();
    match decision {
        IdentifyDecision::NeedSignature { claimed } => {
            let pool = PoolUuid { value: 42 };
            let dev = DevUuid { value: 43 };
            let verdict = interpret_signature(claimed, Some((pool, dev)));
            assert!(matches!(verdict, DevOwnership::Ours(p, d) if p == pool && d == dev));
        }
        _ => panic!("an unclaimed device must defer to the on-disk signature"),
    }
}

#[test]
fn stratis_claim_without_signature_is_a_contradiction() {
    let decision = identify("/dev/loop0", Some(UdevClaim::ClaimedWithType("stratis".to_string())))
        .unwrap();
    match decision {
        IdentifyDecision::NeedSignature { claimed } => {
            assert!(claimed);
            let verdict = interpret_signature(claimed, None);
            assert!(matches!(verdict, DevOwnership::Contradiction));
        }
        _ => panic!("a claim of this manager's type must defer to the on-disk signature"),
    }
}

#[test]
fn identical_states_yield_identical_verdicts() {
    let first = identify("/dev/loop0", Some(UdevClaim::ClaimedWithType("xfs".to_string())))
        .unwrap();
    let second = identify("/dev/loop0", Some(UdevClaim::ClaimedWithType("xfs".to_string())))
        .unwrap();
    match (first, second) {
        (
            IdentifyDecision::Settled(DevOwnership::Theirs(r1)),
            IdentifyDecision::Settled(DevOwnership::Theirs(r2)),
        ) => {
            assert_eq!(r1.describe(), r2.describe());
        }
        _ => panic!("equal states must settle equally"),
    }
}
