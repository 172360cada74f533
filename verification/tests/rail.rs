use hom3init::rail::{data_mount_plan, early_mount_plan, rfkill_block_all, MS_NODEV, MS_NOEXEC, MS_NOSUID, MS_RDONLY};

#[test]
fn flag_values() {
    assert_eq!((MS_RDONLY, MS_NOSUID, MS_NODEV, MS_NOEXEC), (1, 2, 4, 8));
}

#[test]
fn early_mounts_are_hardened() {
    let plan = early_mount_plan();
    let got: Vec<(&str, &str, &str, u64)> =
        plan.iter().map(|m| (m.source.as_str(), m.target.as_str(), m.fstype.as_str(), m.flags)).collect();
    assert_eq!(
        got,
        vec![
            ("proc", "/proc", "proc", 14),
            ("sysfs", "/sys", "sysfs", 14),
            ("devtmpfs", "/dev", "devtmpfs", 2),
            ("tmpfs", "/run", "tmpfs", 6),
            ("tmpfs", "/tmp", "tmpfs", 6),
        ]
    );
    assert!(plan.iter().all(|m| m.flags & MS_NOSUID != 0));
}

#[test]
fn data_partition_plan() {
    let plan = data_mount_plan();
    assert_eq!(plan.mount.source, "/dev/disk/by-label/HOM3DATA");
    assert_eq!(plan.mount.target, "/var/lib/hom3");
    assert_eq!(plan.mount.fstype, "ext4");
    assert_eq!(plan.mount.flags, MS_NOSUID | MS_NODEV);
    assert_eq!(plan.subdirs, vec!["/var/lib/hom3/data".to_string(), "/var/lib/hom3/keystore".to_string()]);
}

#[test]
fn rfkill_event_blocks_all() {
    assert_eq!(rfkill_block_all(), [0, 0, 0, 0, 0, 3, 1, 0]);
}
