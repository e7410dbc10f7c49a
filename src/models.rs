use vstd::prelude::*;

verus! {

/// One mounted partition and its space, in units of `DISK_UNIT` bytes.
pub struct Disks {
    pub name: String,
    pub mount_point: String,
    pub total_space: i64,
    pub avail_space: i64,
}

/// Sectors read and written by one block device.
pub struct IoStats {
    pub device_name: String,
    pub sectors_read: i64,
    pub sectors_wrtn: i64,
}

/// A result handed back by an extension of the agent, under the name it goes by.
pub struct Plugin {
    pub key: String,
    pub val: String,
}

} // verus!
