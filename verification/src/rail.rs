use vstd::prelude::*;
use vstd::string::StringExecFns;

verus! {

/// Mount flag: ignore set-user-ID and set-group-ID bits.
pub const MS_NOSUID: u64 = 2;

/// Mount flag: do not interpret device special files.
pub const MS_NODEV: u64 = 4;

/// Mount flag: do not execute programs from the mount.
pub const MS_NOEXEC: u64 = 8;

/// Mount flag: mount read-only.
pub const MS_RDONLY: u64 = 1;

/// The filesystem label of the portable data carrier.
pub const DATA_LABEL: &'static str = "HOM3DATA";

/// Where the data carrier is mounted.
pub const DATA_MOUNT: &'static str = "/var/lib/hom3";

/// One mount of the boot rail.
pub struct MountSpec {
    pub source: String,
    pub target: String,
    pub fstype: String,
    pub flags: u64,
}

/// A mount as plain values.
pub struct MountView {
    pub source: Seq<char>,
    pub target: Seq<char>,
    pub fstype: Seq<char>,
    pub flags: u64,
}

impl View for MountSpec {
    type V = MountView;

    open spec fn view(&self) -> MountView {
        MountView { source: self.source@, target: self.target@, fstype: self.fstype@, flags: self.flags }
    }
}

pub open spec fn mount_view(source: Seq<char>, target: Seq<char>, fstype: Seq<char>, flags: u64) -> MountView {
    MountView { source, target, fstype, flags }
}

/// The early mounts, in order: the virtual filesystems every later step reads.
pub open spec fn early_mounts_spec() -> Seq<MountView> {
    seq![
        mount_view("proc"@, "/proc"@, "proc"@, MS_NOSUID | MS_NODEV | MS_NOEXEC),
        mount_view("sysfs"@, "/sys"@, "sysfs"@, MS_NOSUID | MS_NODEV | MS_NOEXEC),
        mount_view("devtmpfs"@, "/dev"@, "devtmpfs"@, MS_NOSUID),
        mount_view("tmpfs"@, "/run"@, "tmpfs"@, MS_NOSUID | MS_NODEV),
        mount_view("tmpfs"@, "/tmp"@, "tmpfs"@, MS_NOSUID | MS_NODEV),
    ]
}

fn mount_spec(source: &str, target: &str, fstype: &str, flags: u64) -> (m: MountSpec)
    ensures
        m@ == mount_view(source@, target@, fstype@, flags),
{
    MountSpec { source: source.to_owned(), target: target.to_owned(), fstype: fstype.to_owned(), flags }
}

/// Step 1 of the boot rail: which virtual filesystems to mount, where, and
/// with which hardening flags.
pub fn early_mount_plan() -> (plan: Vec<MountSpec>)
    ensures
        plan@.map_values(|m: MountSpec| m@) == early_mounts_spec(),
{
    let mut plan: Vec<MountSpec> = Vec::new();
    plan.push(mount_spec("proc", "/proc", "proc", MS_NOSUID | MS_NODEV | MS_NOEXEC));
    plan.push(mount_spec("sysfs", "/sys", "sysfs", MS_NOSUID | MS_NODEV | MS_NOEXEC));
    plan.push(mount_spec("devtmpfs", "/dev", "devtmpfs", MS_NOSUID));
    plan.push(mount_spec("tmpfs", "/run", "tmpfs", MS_NOSUID | MS_NODEV));
    plan.push(mount_spec("tmpfs", "/tmp", "tmpfs", MS_NOSUID | MS_NODEV));
    assert(plan@.map_values(|m: MountSpec| m@) =~= early_mounts_spec());
    plan
}

pub open spec fn has_flag(flags: u64, flag: u64) -> bool {
    flags & flag == flag
}

/// Hardening: every early mount is nosuid; `/proc` and `/sys` are also nodev
/// and noexec; `/run` and `/tmp` are nodev; `/dev` stays exec-capable and
/// device-capable.
pub proof fn law_early_mounts_hardened()
    ensures
        forall|i: int| 0 <= i < early_mounts_spec().len() ==> has_flag(#[trigger] early_mounts_spec()[i].flags, MS_NOSUID),
        has_flag(early_mounts_spec()[0].flags, MS_NODEV) && has_flag(early_mounts_spec()[0].flags, MS_NOEXEC),
        has_flag(early_mounts_spec()[1].flags, MS_NODEV) && has_flag(early_mounts_spec()[1].flags, MS_NOEXEC),
        !has_flag(early_mounts_spec()[2].flags, MS_NODEV) && !has_flag(early_mounts_spec()[2].flags, MS_NOEXEC),
        has_flag(early_mounts_spec()[3].flags, MS_NODEV) && has_flag(early_mounts_spec()[4].flags, MS_NODEV),
{
    assert((2u64 | 4u64 | 8u64) & 2u64 == 2u64) by (bit_vector);
    assert((2u64 | 4u64 | 8u64) & 4u64 == 4u64) by (bit_vector);
    assert((2u64 | 4u64 | 8u64) & 8u64 == 8u64) by (bit_vector);
    assert((2u64 | 4u64) & 2u64 == 2u64) by (bit_vector);
    assert((2u64 | 4u64) & 4u64 == 4u64) by (bit_vector);
    assert(2u64 & 2u64 == 2u64) by (bit_vector);
    assert(2u64 & 4u64 != 4u64) by (bit_vector);
    assert(2u64 & 8u64 != 8u64) by (bit_vector);
}

/// Step 4 of the boot rail: the data carrier's device, its mount, and the
/// directories made on it once mounted.
pub struct DataMountPlan {
    pub mount: MountSpec,
    pub subdirs: Vec<String>,
}

/// The device of the data carrier, found by its label.
pub open spec fn data_device_spec() -> Seq<char> {
    "/dev/disk/by-label/"@ + DATA_LABEL@
}

pub open spec fn data_subdirs_spec() -> Seq<Seq<char>> {
    seq![DATA_MOUNT@ + "/data"@, DATA_MOUNT@ + "/keystore"@]
}

fn joined(a: &str, b: &str) -> (r: String)
    ensures
        r@ == a@ + b@,
{
    let mut s = a.to_owned();
    s.append(b);
    s
}

/// Step 4 of the boot rail: mount the carrier found by label at
/// `/var/lib/hom3` as ext4, nosuid and nodev, then make `data/` and
/// `keystore/` on it.
pub fn data_mount_plan() -> (plan: DataMountPlan)
    ensures
        plan.mount@ == mount_view(data_device_spec(), DATA_MOUNT@, "ext4"@, MS_NOSUID | MS_NODEV),
        plan.subdirs@.map_values(|d: String| d@) == data_subdirs_spec(),
{
    let device = joined("/dev/disk/by-label/", DATA_LABEL);
    let mount = MountSpec {
        source: device,
        target: DATA_MOUNT.to_owned(),
        fstype: "ext4".to_owned(),
        flags: MS_NOSUID | MS_NODEV,
    };
    let mut subdirs: Vec<String> = Vec::new();
    subdirs.push(joined(DATA_MOUNT, "/data"));
    subdirs.push(joined(DATA_MOUNT, "/keystore"));
    assert(subdirs@.map_values(|d: String| d@) =~= data_subdirs_spec());
    DataMountPlan { mount, subdirs }
}

/// rfkill event type: all radio types.
pub const RFKILL_TYPE_ALL: u8 = 0;

/// rfkill event operation: change the state of every radio.
pub const RFKILL_OP_CHANGE_ALL: u8 = 3;

/// The bytes of a `struct rfkill_event { u32 idx; u8 type; u8 op; u8 soft;
/// u8 hard; }`, with `idx` in little-endian order.
pub open spec fn rfkill_event_bytes(idx: u32, kind: u8, op: u8, soft: u8, hard: u8) -> Seq<u8> {
    seq![
        (idx % 256) as u8,
        ((idx / 256) % 256) as u8,
        ((idx / 65536) % 256) as u8,
        (idx / 16777216) as u8,
        kind,
        op,
        soft,
        hard,
    ]
}

/// Step 3 of the boot rail: the rfkill event that soft-blocks every radio.
pub fn rfkill_block_all() -> (ev: [u8; 8])
    ensures
        ev@ == rfkill_event_bytes(0, RFKILL_TYPE_ALL, RFKILL_OP_CHANGE_ALL, 1, 0),
{
    let ev: [u8; 8] = [0, 0, 0, 0, RFKILL_TYPE_ALL, RFKILL_OP_CHANGE_ALL, 1, 0];
    assert(ev@ =~= rfkill_event_bytes(0, RFKILL_TYPE_ALL, RFKILL_OP_CHANGE_ALL, 1, 0));
    ev
}

} // verus!
