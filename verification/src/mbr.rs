//! The partition table of a master boot record.
//!
//! The record is the first 512 bytes of a disk: four slots of 16 bytes from byte 446 on, and a
//! signature in its last two bytes. A slot holds a partition type at 4, which is zero where the
//! slot is empty, and at 8 and 12 the first block of the partition and its length.
use crate::bytes::{get_u32, le32};
use crate::text::{append_numeral, numeral};
use vstd::prelude::*;
use vstd::string::*;

verus! {

/// The size of a master boot record.
pub const MBR_SIZE: usize = 512;

/// How many slots it has.
pub const MBR_PARTITION_COUNT: usize = 4;

/// Where the first slot begins.
pub const MBR_SLOTS_AT: usize = 446;

/// The size of a slot.
pub const MBR_SLOT_SIZE: usize = 16;

/// Why a block device failed.
#[derive(Debug, Clone, Copy, PartialEq, Eq, Structural)]
pub enum DevError {
    /// Reading failed.
    Io,
}

/// Where a partition comes from.
#[derive(Debug, Clone, Copy, PartialEq, Eq, Structural)]
pub enum PartitionTableKind {
    /// A master boot record.
    Mbr,
}

/// The blocks of a partition, from `start_lba` up to but without `end_lba`.
#[derive(Debug, Clone, Copy, PartialEq, Eq, Structural)]
pub struct PartitionRegion {
    pub start_lba: u64,
    pub end_lba: u64,
}

/// A partition.
#[derive(Debug, PartialEq, Eq)]
pub struct PartitionInfo {
    /// The number of its slot, counted from zero.
    pub index: usize,
    /// Where it comes from.
    pub table_kind: PartitionTableKind,
    /// Its blocks.
    pub region: PartitionRegion,
    /// Its name.
    pub name: Option<String>,
    /// Its unique identifier.
    pub part_uuid: Option<String>,
}

/// The partitions of a disk.
#[derive(Debug, PartialEq, Eq)]
pub struct PartitionTable {
    pub kind: PartitionTableKind,
    pub partitions: Vec<PartitionInfo>,
}

/// Where slot `i` begins.
pub open spec fn slot_at(i: int) -> int {
    MBR_SLOTS_AT + i * MBR_SLOT_SIZE
}

/// Whether the record in the block carries its signature.
pub open spec fn is_mbr(block: Seq<u8>) -> bool {
    block[510] == 0x55 && block[511] == 0xaa
}

/// Whether slot `i` holds a partition.
pub open spec fn is_used(block: Seq<u8>, i: int) -> bool {
    block[slot_at(i) + 4] != 0
}

/// The blocks of the partition in slot `i`.
pub open spec fn region_of(block: Seq<u8>, i: int) -> PartitionRegion {
    let start = le32(block, slot_at(i) + 8);
    PartitionRegion {
        start_lba: start as u64,
        end_lba: (start + le32(block, slot_at(i) + 12)) as u64,
    }
}

/// Whether `info` is the partition in slot `i`. The names count from one.
pub open spec fn is_partition(info: PartitionInfo, block: Seq<u8>, i: int) -> bool {
    &&& info.index == i
    &&& info.table_kind == PartitionTableKind::Mbr
    &&& info.region == region_of(block, i)
    &&& info.name matches Some(name) && name@ == "mbr"@ + numeral((i + 1) as nat, 10)
    &&& info.part_uuid is None
}

/// Those of the first `n` slots that hold a partition, in order.
pub open spec fn used_slots(block: Seq<u8>, n: nat) -> Seq<int>
    decreases n,
{
    if n == 0 {
        Seq::empty()
    } else if is_used(block, n - 1) {
        used_slots(block, (n - 1) as nat).push(n - 1)
    } else {
        used_slots(block, (n - 1) as nat)
    }
}

/// Whether `infos` are the partitions in `slots`, one for one.
pub open spec fn are_partitions(infos: Seq<PartitionInfo>, block: Seq<u8>, slots: Seq<int>) -> bool {
    &&& infos.len() == slots.len()
    &&& forall|k: int| 0 <= k < slots.len() ==> is_partition(#[trigger] infos[k], block, slots[k])
}

/// Whether a block has a partition table: it carries the signature, and a slot is in use.
pub open spec fn has_table(block: Seq<u8>) -> bool {
    is_mbr(block) && used_slots(block, MBR_PARTITION_COUNT as nat).len() > 0
}

/// Whether `table` is the partition table of a block.
pub open spec fn is_table(table: PartitionTable, block: Seq<u8>) -> bool {
    &&& table.kind == PartitionTableKind::Mbr
    &&& are_partitions(
        table.partitions@,
        block,
        used_slots(block, MBR_PARTITION_COUNT as nat),
    )
}

/// Whether a disk with blocks of that size is searched for a master boot record, so that its
/// first block is needed.
pub fn has_room_for_mbr(block_size: usize) -> (r: bool)
    ensures
        r == (block_size >= MBR_SIZE),
{
    block_size >= MBR_SIZE
}

/// Whether the record in the block carries its signature.
pub fn has_mbr_signature(block: &[u8]) -> (r: bool)
    requires
        block@.len() >= MBR_SIZE,
    ensures
        r == is_mbr(block@),
{
    block[510] == 0x55 && block[511] == 0xaa
}

fn partition_in(block: &[u8], i: usize) -> (info: PartitionInfo)
    requires
        block@.len() >= MBR_SIZE,
        i < MBR_PARTITION_COUNT,
    ensures
        is_partition(info, block@, i as int),
{
    let at: usize = MBR_SLOTS_AT + i * MBR_SLOT_SIZE;
    let start_lba: u64 = get_u32(block, at + 8) as u64;
    let end_lba: u64 = start_lba + get_u32(block, at + 12) as u64;
    let mut name = String::from_str("mbr");
    append_numeral(&mut name, i as u64 + 1, 10);
    PartitionInfo {
        index: i,
        table_kind: PartitionTableKind::Mbr,
        region: PartitionRegion { start_lba, end_lba },
        name: Some(name),
        part_uuid: None,
    }
}

/// Searches a disk with blocks of `block_size` bytes for partitions. `block` is its first block,
/// or `None` where reading it failed; it is not looked at where the blocks are too small for a
/// master boot record.
pub fn scan_mbr_partitions(block_size: usize, block: Option<&[u8]>) -> (r: Result<
    Option<PartitionTable>,
    DevError,
>)
    requires
        block matches Some(b) ==> b@.len() == block_size,
    ensures
        match r {
            Err(err) => block_size >= MBR_SIZE && block is None && err == DevError::Io,
            Ok(None) => block_size < MBR_SIZE || (block is Some && !has_table(block->Some_0@)),
            Ok(Some(table)) => {
                &&& block_size >= MBR_SIZE
                &&& block is Some
                &&& has_table(block->Some_0@)
                &&& is_table(table, block->Some_0@)
            },
        },
{
    if !has_room_for_mbr(block_size) {
        return Ok(None);
    }
    let block = match block {
        Some(block) => block,
        None => return Err(DevError::Io),
    };
    if !has_mbr_signature(block) {
        return Ok(None);
    }
    let mut partitions: Vec<PartitionInfo> = Vec::new();
    let mut i: usize = 0;
    while i < MBR_PARTITION_COUNT
        invariant
            i <= MBR_PARTITION_COUNT,
            block@.len() >= MBR_SIZE,
            are_partitions(partitions@, block@, used_slots(block@, i as nat)),
        decreases MBR_PARTITION_COUNT - i,
    {
        if block[MBR_SLOTS_AT + i * MBR_SLOT_SIZE + 4] != 0 {
            let info = partition_in(block, i);
            partitions.push(info);
        }
        i = i + 1;
    }
    if partitions.len() == 0 {
        return Ok(None);
    }
    Ok(Some(PartitionTable { kind: PartitionTableKind::Mbr, partitions }))
}

/// A partition covers as many blocks as its slot says, and its bounds are in order.
pub proof fn law_region_has_its_size(block: Seq<u8>, i: int)
    ensures
        region_of(block, i).start_lba <= region_of(block, i).end_lba,
        region_of(block, i).end_lba - region_of(block, i).start_lba == le32(block, slot_at(i) + 12),
{
}

/// A table lists each used slot once and no other, in the order of the slots.
pub proof fn law_slots_in_order(block: Seq<u8>, n: nat)
    ensures
        forall|k: int|
            0 <= k < used_slots(block, n).len() ==> 0 <= #[trigger] used_slots(block, n)[k] < n
                && is_used(block, used_slots(block, n)[k]),
        forall|j: int, k: int|
            0 <= j < k < used_slots(block, n).len() ==> #[trigger] used_slots(block, n)[j]
                < #[trigger] used_slots(block, n)[k],
        forall|i: int|
            0 <= i < n && #[trigger] is_used(block, i) ==> used_slots(block, n).contains(i),
    decreases n,
{
    if n > 0 {
        let before = used_slots(block, (n - 1) as nat);
        let slots = used_slots(block, n);
        law_slots_in_order(block, (n - 1) as nat);
        assert forall|i: int| 0 <= i < n && #[trigger] is_used(block, i) implies slots.contains(
            i,
        ) by {
            if i == n - 1 {
                assert(slots[slots.len() - 1] == i);
            } else {
                let k = choose|k: int| 0 <= k < before.len() && before[k] == i;
                assert(slots[k] == i);
            }
        }
    }
}

/// A disk has a partition table exactly if its first block carries the bytes 0x55 and 0xaa at 510
/// and 511, and at least one of the four type bytes is not zero.
pub proof fn law_when_there_is_a_table(block: Seq<u8>)
    ensures
        has_table(block) <==> block[510] == 0x55 && block[511] == 0xaa && (block[450] != 0
            || block[466] != 0 || block[482] != 0 || block[498] != 0),
{
    reveal_with_fuel(used_slots, 5);
}

/// A slot is listed exactly if its type byte, which is byte 4 of the 16 bytes that belong to the
/// slot from byte 446 on, is not zero. No other byte decides.
pub proof fn law_typed_slots_are_listed(table: PartitionTable, block: Seq<u8>, i: int)
    requires
        is_table(table, block),
        0 <= i < 4,
    ensures
        block[446 + 16 * i + 4] != 0 <==> exists|k: int|
            0 <= k < table.partitions@.len() && (#[trigger] table.partitions@[k]).index == i,
{
    let slots = used_slots(block, MBR_PARTITION_COUNT as nat);
    law_slots_in_order(block, MBR_PARTITION_COUNT as nat);
    assert(slot_at(i) == 446 + 16 * i);
    if block[446 + 16 * i + 4] != 0 {
        assert(is_used(block, i));
        assert(slots.contains(i));
        let k = choose|k: int| 0 <= k < slots.len() && slots[k] == i;
        assert(is_partition(table.partitions@[k], block, slots[k]));
    }
    if exists|k: int|
        0 <= k < table.partitions@.len() && (#[trigger] table.partitions@[k]).index == i {
        let k = choose|k: int|
            0 <= k < table.partitions@.len() && (#[trigger] table.partitions@[k]).index == i;
        assert(is_partition(table.partitions@[k], block, slots[k]));
        assert(is_used(block, slots[k]));
    }
}

/// A listed partition is what its slot says: its first block is the little-endian number at 8 of
/// the slot, and the number at 12 is how many blocks it has. It is named after its slot, counted
/// from one, and the partitions are listed in the order of their slots, each once.
pub proof fn law_partitions_are_what_slots_say(table: PartitionTable, block: Seq<u8>, k: int)
    requires
        is_table(table, block),
        0 <= k < table.partitions@.len(),
    ensures
        ({
            let info = table.partitions@[k];
            let at = 446 + 16 * info.index;
            &&& info.index < 4
            &&& block[at + 4] != 0
            &&& info.region.start_lba == block[at + 8] + 0x100 * block[at + 9] + 0x1_0000 * block[at
                + 10] + 0x100_0000 * block[at + 11]
            &&& info.region.end_lba - info.region.start_lba == block[at + 12] + 0x100 * block[at
                + 13] + 0x1_0000 * block[at + 14] + 0x100_0000 * block[at + 15]
            &&& info.table_kind == PartitionTableKind::Mbr
            &&& info.part_uuid is None
            &&& info.name is Some
            &&& info.index == 0 ==> info.name->Some_0@ == "mbr1"@
            &&& info.index == 1 ==> info.name->Some_0@ == "mbr2"@
            &&& info.index == 2 ==> info.name->Some_0@ == "mbr3"@
            &&& info.index == 3 ==> info.name->Some_0@ == "mbr4"@
            &&& forall|j: int|
                0 <= j < k ==> (#[trigger] table.partitions@[j]).index < info.index
        }),
        table.kind == PartitionTableKind::Mbr,
{
    let slots = used_slots(block, MBR_PARTITION_COUNT as nat);
    law_slots_in_order(block, MBR_PARTITION_COUNT as nat);
    let info = table.partitions@[k];
    assert(is_partition(info, block, slots[k]));
    assert(slot_at(slots[k]) == 446 + 16 * info.index);
    assert forall|j: int| 0 <= j < k implies (#[trigger] table.partitions@[j]).index
        < info.index by {
        assert(is_partition(table.partitions@[j], block, slots[j]));
    }
    reveal_strlit("mbr");
    reveal_strlit("mbr1");
    reveal_strlit("mbr2");
    reveal_strlit("mbr3");
    reveal_strlit("mbr4");
    let name = info.name->Some_0@;
    assert(info.index == 0 ==> name =~= "mbr1"@);
    assert(info.index == 1 ==> name =~= "mbr2"@);
    assert(info.index == 2 ==> name =~= "mbr3"@);
    assert(info.index == 3 ==> name =~= "mbr4"@);
}

} // verus!
