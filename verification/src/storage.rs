//! The storage adapter of the structured query tier.

use vstd::prelude::*;
use vstd::string::*;
use crate::fixed::{milli, Milli, GIBIBYTE};
use crate::model::{StorageData, StorageView};
use crate::records::Win32DiskDrive;

verus! {

/// The reading of one disk: a disk without a model is left out; temperature
/// and used space are not available from this source.
pub open spec fn disk_entry(disk: Win32DiskDrive) -> Option<StorageView> {
    match disk.model {
        Some(model) => Some(
            StorageView {
                name: model@,
                temperature: milli(0),
                used_space: milli(0),
                total_space: match disk.size {
                    Some(bytes) => milli((bytes * 1000) / (GIBIBYTE as int)),
                    None => milli(0),
                },
            },
        ),
        None => None,
    }
}

/// The readings of the disks that have a model, in their order.
pub open spec fn storage_entries(disks: Seq<Win32DiskDrive>) -> Seq<StorageView> {
    disks.filter_map(|disk: Win32DiskDrive| disk_entry(disk))
}

/// The storage readings that the structured query resolves to, or the text
/// of what went wrong.
pub open spec fn storage_info(disks: Result<Vec<Win32DiskDrive>, String>) -> Result<
    Seq<StorageView>,
    Seq<char>,
> {
    match disks {
        Err(e) => Err("Storage query failed: "@ + e@),
        Ok(rows) => if storage_entries(rows@).len() == 0 {
            Err("No storage devices found"@)
        } else {
            Ok(storage_entries(rows@))
        },
    }
}

/// Resolves the storage readings from the disk-drive query.
pub fn get_storage_info(disks: &Result<Vec<Win32DiskDrive>, String>) -> (r: Result<
    Vec<StorageData>,
    String,
>)
    ensures
        match r {
            Ok(list) => storage_info(*disks) == Ok::<Seq<StorageView>, Seq<char>>(
                list.deep_view(),
            ),
            Err(e) => storage_info(*disks) == Err::<Seq<StorageView>, Seq<char>>(e@),
        },
{
    let rows = match disks {
        Err(e) => {
            return Err(String::from_str("Storage query failed: ").concat(e.as_str()));
        },
        Ok(rows) => rows,
    };
    let mut out: Vec<StorageData> = Vec::new();
    let n = rows.len();
    let mut i: usize = 0;
    assert(rows@.take(0) =~= Seq::empty());
    assert(out.deep_view() =~= Seq::<StorageView>::empty());
    while i < n
        invariant
            n == rows@.len(),
            i <= n,
            out.deep_view() == storage_entries(rows@.take(i as int)),
        decreases n - i,
    {
        let ghost before = out.deep_view();
        proof {
            assert(rows@.take(i + 1).drop_last() =~= rows@.take(i as int));
            assert(rows@.take(i + 1).last() == rows@[i as int]);
        }
        match &rows[i].model {
            Some(model) => {
                let total_space = match rows[i].size {
                    Some(bytes) => Milli::from_bytes(bytes),
                    None => Milli::zero(),
                };
                let entry = StorageData {
                    name: model.clone(),
                    temperature: Milli::zero(),
                    used_space: Milli::zero(),
                    total_space,
                };
                out.push(entry);
                assert(out.deep_view() =~= before + seq![disk_entry(rows@[i as int])->0]);
            },
            None => {},
        }
        i = i + 1;
    }
    assert(rows@.take(n as int) =~= rows@);
    if out.len() == 0 {
        assert(out.deep_view().len() == 0);
        Err(String::from_str("No storage devices found"))
    } else {
        assert(out.deep_view().len() == out@.len());
        Ok(out)
    }
}

} // verus!
