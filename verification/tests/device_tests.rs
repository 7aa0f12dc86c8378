use stratis_backstore::device::{resolve_devices, DeviceIdentity, ResolvedDeviceSet};
use stratis_backstore::errors::StratisError;

#[test]
fn from_devno_small() {
    // makedev(7, 0) == 0x700: the whole-disk loop device numbering.
    let id = DeviceIdentity::from_devno(0x700);
    assert_eq!(id, DeviceIdentity { major: 7, minor: 0 });
    let id = DeviceIdentity::from_devno(0x801);
    assert_eq!(id, DeviceIdentity { major: 8, minor: 1 });
}

#[test]
fn from_devno_large() {
    // A device number with high major and minor parts, assembled as the
    // platform's makedev does: major 0x12345, minor 0xabcde.
    let major: u64 = 0x12345;
    let minor: u64 = 0xabcde;
    let devno: u64 =
        ((major & 0xfff) << 8) | (minor & 0xff) | ((major & !0xfff) << 32) | ((minor & !0xff) << 12);
    let id = DeviceIdentity::from_devno(devno);
    assert_eq!(id, DeviceIdentity { major: 0x12345, minor: 0xabcde });
}

#[test]
fn resolved_set_deduplicates_and_later_path_wins() {
    let mut set = ResolvedDeviceSet::new();
    let a = DeviceIdentity { major: 7, minor: 0 };
    let b = DeviceIdentity { major: 7, minor: 1 };
    set.insert(a, String::from("/dev/alias-one"));
    set.insert(b, String::from("/dev/other"));
    set.insert(a, String::from("/dev/alias-two"));
    assert_eq!(set.len(), 2);
    assert_eq!(set.get(a).unwrap().as_str(), "/dev/alias-two");
    assert_eq!(set.get(b).unwrap().as_str(), "/dev/other");
    assert!(set.get(DeviceIdentity { major: 8, minor: 0 }).is_none());
}

#[test]
fn resolve_devices_empty_input() {
    let set = resolve_devices(&Vec::new()).unwrap();
    assert_eq!(set.len(), 0);
}

#[test]
fn resolve_devices_aliases_collapse() {
    let paths = vec![
        String::from("/dev/loop0"),
        String::from("/dev/loop1"),
        String::from("/dev/loop0"),
    ];
    let set = resolve_devices(&paths).unwrap();
    assert_eq!(set.len(), 2);
    let loop0 = DeviceIdentity { major: 7, minor: 0 };
    let loop1 = DeviceIdentity { major: 7, minor: 1 };
    assert_eq!(set.get(loop0).unwrap().as_str(), "/dev/loop0");
    assert_eq!(set.get(loop1).unwrap().as_str(), "/dev/loop1");
}

#[test]
fn resolve_devices_rejects_non_block_device() {
    let paths = vec![String::from("/dev/null")];
    match resolve_devices(&paths) {
        Err(StratisError::Invalid(msg)) => {
            assert_eq!(msg, "path /dev/null does not refer to a block device");
        }
        other => panic!("expected an invalid-path error, got {:?}", other.is_ok()),
    }
}

#[test]
fn resolve_devices_fails_fast_on_first_offender() {
    // The first path is no block device; the error names it, not the
    // paths that follow, which are never resolved.
    let paths = vec![
        String::from("/dev/loop0"),
        String::from("/dev/null"),
        String::from("/dev/zero"),
    ];
    match resolve_devices(&paths) {
        Err(StratisError::Invalid(msg)) => {
            assert!(msg.contains("/dev/null"));
            assert!(!msg.contains("/dev/zero"));
        }
        other => panic!("expected an invalid-path error, got {:?}", other.is_ok()),
    }
}

#[test]
fn resolve_devices_missing_path_is_invalid() {
    // A path that names nothing is reported like a non-block device.
    let paths = vec![String::from("/no/such/device/node")];
    match resolve_devices(&paths) {
        Err(StratisError::Invalid(msg)) => {
            assert!(msg.contains("/no/such/device/node"));
        }
        other => panic!("expected an invalid-path error, got {:?}", other.is_ok()),
    }
}
