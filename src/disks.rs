use vstd::prelude::*;
use crate::models::{Disks, IoStats};
use crate::text::{decimal_value, is_decimal, parse_u64, pieces, same_text, split_pieces, views_of};

verus! {

/// Bytes in one unit of the space that `Disks` reports.
pub const DISK_UNIT: u64 = 100000;

/// What `unescape::unescape` makes of a text: the text with its backslash
/// escapes replaced, or nothing when an escape is malformed.
pub uninterp spec fn unescaped(s: Seq<char>) -> Option<Seq<char>>;

/// Relies on `unescape::unescape`, which undoes the backslash escapes of a
/// text and fails on a malformed one; its result depends on the text alone.
#[verifier::external_body]
fn unescape_text(s: &str) -> (r: Option<String>)
    ensures
        r is None <==> unescaped(s@) is None,
        r matches Some(u) ==> unescaped(s@) == Some(u@),
{
    unescape::unescape(s)
}

/// The filesystems that live on a physical drive.
pub open spec fn is_physical(fs: Seq<char>) -> bool {
    ||| fs == "ext2"@
    ||| fs == "ext3"@
    ||| fs == "ext4"@
    ||| fs == "vfat"@
    ||| fs == "ntfs"@
    ||| fs == "zfs"@
    ||| fs == "hfs"@
    ||| fs == "reiserfs"@
    ||| fs == "reiser4"@
    ||| fs == "exfat"@
    ||| fs == "f2fs"@
    ||| fs == "hfsplus"@
    ||| fs == "jfs"@
    ||| fs == "btrfs"@
    ||| fs == "minix"@
    ||| fs == "nilfs"@
    ||| fs == "xfs"@
    ||| fs == "apfs"@
    ||| fs == "fuseblk"@
}

/// Whether `filesystem` names a filesystem of a physical drive.
pub fn is_physical_filesys(filesystem: &str) -> (r: bool)
    ensures
        r == is_physical(filesystem@),
{
    same_text(filesystem, "ext2") || same_text(filesystem, "ext3") || same_text(filesystem, "ext4")
        || same_text(filesystem, "vfat") || same_text(filesystem, "ntfs") || same_text(
        filesystem,
        "zfs",
    ) || same_text(filesystem, "hfs") || same_text(filesystem, "reiserfs") || same_text(
        filesystem,
        "reiser4",
    ) || same_text(filesystem, "exfat") || same_text(filesystem, "f2fs") || same_text(
        filesystem,
        "hfsplus",
    ) || same_text(filesystem, "jfs") || same_text(filesystem, "btrfs") || same_text(
        filesystem,
        "minix",
    ) || same_text(filesystem, "nilfs") || same_text(filesystem, "xfs") || same_text(
        filesystem,
        "apfs",
    ) || same_text(filesystem, "fuseblk")
}

/// A mount of a physical partition: its device and where it is mounted.
pub struct MountEntry {
    pub name: String,
    pub mount_point: String,
}

/// The mount point as written in the mount table, with its escapes undone;
/// left as written when an escape is malformed.
pub open spec fn mount_point_of(field: Seq<char>) -> Seq<char> {
    match unescaped(field) {
        Some(m) => m,
        None => field,
    }
}

/// The device and mount point of one line of the mount table
/// (`device mount-point type options ...`), when it mounts a physical filesystem.
pub open spec fn mount_of_line(line: Seq<char>) -> Option<(Seq<char>, Seq<char>)> {
    let f = pieces(line, false);
    if f.len() >= 3 && is_physical(f[2]) {
        Some((f[0], mount_point_of(f[1])))
    } else {
        None
    }
}

/// The physical mounts of a list of mount-table lines, in order.
pub open spec fn mounts_of(lines: Seq<Seq<char>>) -> Seq<(Seq<char>, Seq<char>)>
    decreases lines.len(),
{
    if lines.len() == 0 {
        Seq::empty()
    } else {
        let rest = mounts_of(lines.drop_last());
        match mount_of_line(lines.last()) {
            Some(m) => rest.push(m),
            None => rest,
        }
    }
}

pub open spec fn entry_views(v: Seq<MountEntry>) -> Seq<(Seq<char>, Seq<char>)> {
    v.map_values(|e: MountEntry| (e.name@, e.mount_point@))
}

/// The mounts of physical partitions that a mount table (the text of
/// `/proc/mounts`) lists, in order.
pub fn physical_mounts(table: &str) -> (r: Vec<MountEntry>)
    ensures
        entry_views(r@) == mounts_of(pieces(table@, true)),
{
    let lines = split_pieces(table, true);
    let mut out: Vec<MountEntry> = Vec::new();
    let mut i: usize = 0;
    assert(views_of(lines@).subrange(0, 0) =~= Seq::<Seq<char>>::empty());
    assert(entry_views(out@) =~= Seq::<(Seq<char>, Seq<char>)>::empty());
    while i < lines.len()
        invariant
            i <= lines.len(),
            views_of(lines@) == pieces(table@, true),
            entry_views(out@) == mounts_of(views_of(lines@).subrange(0, i as int)),
        decreases lines.len() - i,
    {
        let ghost seen = views_of(lines@).subrange(0, i + 1);
        assert(seen.drop_last() =~= views_of(lines@).subrange(0, i as int));
        assert(seen.last() == lines@[i as int]@);
        let fields = split_pieces(lines[i].as_str(), false);
        if fields.len() >= 3 && is_physical_filesys(fields[2].as_str()) {
            assert(views_of(fields@)[2] == fields@[2]@);
            let mount_point = match unescape_text(fields[1].as_str()) {
                Some(m) => m,
                None => fields[1].clone(),
            };
            let entry = MountEntry { name: fields[0].clone(), mount_point };
            let ghost before = out@;
            out.push(entry);
            assert(entry_views(out@) =~= entry_views(before).push(
                (entry.name@, entry.mount_point@),
            ));
        }
        i = i + 1;
    }
    assert(views_of(lines@).subrange(0, lines.len() as int) =~= views_of(lines@));
    out
}

/// The (total, available) bytes of the `i`-th mount; nothing known counts as zero.
pub open spec fn usage_at(usages: Seq<Option<(u64, u64)>>, i: int) -> (u64, u64) {
    if 0 <= i < usages.len() && usages[i] is Some {
        usages[i]->0
    } else {
        (0, 0)
    }
}

pub open spec fn disk_of(mount: MountEntry, usage: (u64, u64)) -> Disks {
    Disks {
        name: mount.name,
        mount_point: mount.mount_point,
        total_space: (usage.0 / DISK_UNIT) as i64,
        avail_space: (usage.1 / DISK_UNIT) as i64,
    }
}

/// The partitions of `mounts` with their space: `usages[i]` holds the
/// (total, available) bytes of `mounts[i]`, or nothing when they could not be
/// read, in which case both count as zero.
pub fn get_partitions_info(mounts: &Vec<MountEntry>, usages: &Vec<Option<(u64, u64)>>) -> (r: Vec<
    Disks,
>)
    ensures
        r.len() == mounts.len(),
        forall|i: int| 0 <= i < r.len() ==> r@[i] == disk_of(mounts@[i], usage_at(usages@, i)),
{
    let mut out: Vec<Disks> = Vec::new();
    let mut i: usize = 0;
    while i < mounts.len()
        invariant
            i <= mounts.len(),
            out.len() == i,
            forall|j: int| 0 <= j < i ==> out@[j] == disk_of(mounts@[j], usage_at(usages@, j)),
        decreases mounts.len() - i,
    {
        let usage: (u64, u64) = if i < usages.len() {
            match usages[i] {
                Some(u) => u,
                None => (0, 0),
            }
        } else {
            (0, 0)
        };
        let total = usage.0 / DISK_UNIT;
        let avail = usage.1 / DISK_UNIT;
        out.push(
            Disks {
                name: mounts[i].name.clone(),
                mount_point: mounts[i].mount_point.clone(),
                total_space: total as i64,
                avail_space: avail as i64,
            },
        );
        i = i + 1;
    }
    out
}

/// Whether a field of the disk statistics holds a counter that fits in an `i64`.
pub open spec fn is_counter(field: Seq<char>) -> bool {
    is_decimal(field) && decimal_value(field) <= i64::MAX
}

/// Whether a line of `/proc/diskstats`, cut into fields, can be read: lines of
/// fewer than fourteen fields are skipped, the others need counters in their
/// sectors-read and sectors-written fields.
pub open spec fn diskstats_line_ok(f: Seq<Seq<char>>) -> bool {
    f.len() < 14 || (is_counter(f[5]) && is_counter(f[9]))
}

/// The (device, sectors read, sectors written) of the readable lines with
/// enough fields, in order.
pub open spec fn iostats_of(lines: Seq<Seq<char>>) -> Seq<(Seq<char>, int, int)>
    decreases lines.len(),
{
    if lines.len() == 0 {
        Seq::empty()
    } else {
        let rest = iostats_of(lines.drop_last());
        let f = pieces(lines.last(), false);
        if f.len() < 14 {
            rest
        } else {
            rest.push((f[2], decimal_value(f[5]), decimal_value(f[9])))
        }
    }
}

pub open spec fn iostat_views(v: Seq<IoStats>) -> Seq<(Seq<char>, int, int)> {
    v.map_values(|s: IoStats| (s.device_name@, s.sectors_read as int, s.sectors_wrtn as int))
}

fn read_counter(field: &str) -> (r: Option<i64>)
    ensures
        r is Some <==> is_counter(field@),
        r matches Some(v) ==> v == decimal_value(field@),
{
    match parse_u64(field) {
        Some(v) => if v <= i64::MAX as u64 {
            Some(v as i64)
        } else {
            None
        },
        None => None,
    }
}

/// The sectors read and written by each block device, from the text of
/// `/proc/diskstats`; nothing when a line with enough fields holds something
/// other than a counter where one is expected.
pub fn get_iostats(table: &str) -> (r: Option<Vec<IoStats>>)
    ensures
        r is Some <==> forall|i: int|
            0 <= i < pieces(table@, true).len() ==> diskstats_line_ok(
                #[trigger] pieces(pieces(table@, true)[i], false),
            ),
        r matches Some(v) ==> iostat_views(v@) == iostats_of(pieces(table@, true)),
{
    let lines = split_pieces(table, true);
    let ghost all = views_of(lines@);
    let mut out: Vec<IoStats> = Vec::new();
    let mut i: usize = 0;
    assert(all.subrange(0, 0) =~= Seq::<Seq<char>>::empty());
    assert(iostat_views(out@) =~= Seq::<(Seq<char>, int, int)>::empty());
    while i < lines.len()
        invariant
            i <= lines.len(),
            all == views_of(lines@),
            all == pieces(table@, true),
            forall|j: int| 0 <= j < i ==> diskstats_line_ok(#[trigger] pieces(all[j], false)),
            iostat_views(out@) == iostats_of(all.subrange(0, i as int)),
        decreases lines.len() - i,
    {
        let ghost seen = all.subrange(0, i + 1);
        assert(seen.drop_last() =~= all.subrange(0, i as int));
        assert(seen.last() == lines@[i as int]@);
        let fields = split_pieces(lines[i].as_str(), false);
        if fields.len() >= 14 {
            assert(views_of(fields@)[5] == fields@[5]@);
            assert(views_of(fields@)[9] == fields@[9]@);
            assert(views_of(fields@)[2] == fields@[2]@);
            let read = match read_counter(fields[5].as_str()) {
                Some(v) => v,
                None => return None,
            };
            let wrtn = match read_counter(fields[9].as_str()) {
                Some(v) => v,
                None => return None,
            };
            let stat = IoStats { device_name: fields[2].clone(), sectors_read: read, sectors_wrtn: wrtn };
            let ghost before = out@;
            out.push(stat);
            assert(iostat_views(out@) =~= iostat_views(before).push(
                (stat.device_name@, stat.sectors_read as int, stat.sectors_wrtn as int),
            ));
        }
        i = i + 1;
    }
    assert(all.subrange(0, lines.len() as int) =~= all);
    Some(out)
}

} // verus!
