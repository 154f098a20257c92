//! Layout of the hardware-managed circular data-entry queue used by
//! receive operations: a ring of fixed-size entries carved out of one
//! buffer, each headed by a link to the next entry.
//!
//! Pointers are modelled as offsets into the ring buffer; the runtime
//! that owns the physical buffer adds its base address when it writes
//! the headers out.

use vstd::prelude::*;

verus! {

/// Configuration byte triple of a data entry.
#[derive(Copy, Clone, Debug, PartialEq, Eq, Structural)]
pub struct DataConfig {
    pub d_type: u8,
    pub len_sz: u8,
    pub irq_intv: u8,
}

/// Header of one queue entry, without its payload.
#[allow(non_camel_case_types)]
#[derive(Copy, Clone, Debug, PartialEq, Eq, Structural)]
pub struct dataEntry {
    pub p_next_entry: u32,
    pub status: u8,
    pub config: DataConfig,
    pub length: u16,
}

/// Header of one queue entry together with the first payload byte, as
/// the hardware lays it out.
#[allow(non_camel_case_types)]
#[derive(Copy, Clone, Debug, PartialEq, Eq, Structural)]
pub struct dataEntryGeneral {
    pub p_next_entry: u32,
    pub status: u8,
    pub config: DataConfig,
    pub length: u16,
    pub data: u8,
}

/// Flattened entry header used by loop-back tests.
#[derive(Copy, Clone, Debug, PartialEq, Eq, Structural)]
pub struct TestQueue {
    pub p_next_entry: u32,
    pub status: u8,
    pub d_type: u8,
    pub len_sz: u8,
    pub irq_intv: u8,
    pub length: u16,
    pub data: u8,
}

/// The queue registers handed to a receive command: the current and
/// last entry, as offsets into the ring buffer.
#[derive(Copy, Clone, Debug, PartialEq, Eq, Structural)]
pub struct DataQueue {
    pub p_curr_entry: u32,
    pub p_last_entry: u32,
}

/// Entry headers are eight bytes; each entry is padded to a word
/// boundary.
pub open spec fn entry_pad(length: u16) -> int {
    4 - (length + 8) % 4
}

/// The byte stride from one entry of payload size `length` to the next.
pub open spec fn entry_stride(length: u16) -> int {
    8 + length + entry_pad(length)
}

impl DataQueue {
    /// A queue whose registers point at the given entries.
    pub fn new(curr_entry: u32, next_entry: u32) -> (r: DataQueue)
        ensures
            r.p_curr_entry == curr_entry,
            r.p_last_entry == next_entry,
    {
        DataQueue { p_curr_entry: curr_entry, p_last_entry: next_entry }
    }

    /// Carve `num_entries` entries of payload size `length` out of a
    /// buffer of `buf_len` bytes and chain them into a ring: entry `i`
    /// starts at offset `i * stride`, links to the entry after it, and
    /// the last entry links back to the first. Returns the entry
    /// headers with their offsets, or nothing when the buffer is too
    /// short, in which case the queue is untouched.
    pub fn define_queue(&mut self, buf_len: u16, num_entries: u32, length: u16) -> (r: Option<
        Vec<(u32, dataEntry)>,
    >)
        requires
            num_entries >= 1,
        ensures
            (r is Some <==> buf_len >= num_entries * entry_stride(length)),
            r is None ==> *final(self) == *old(self),
            r matches Some(entries) ==> {
                &&& entries@.len() == num_entries
                &&& final(self).p_curr_entry == 0
                &&& final(self).p_last_entry == 0
                &&& forall|i: int| #![auto]
                    0 <= i < num_entries ==> entries@[i].0 == i * entry_stride(length)
                &&& forall|i: int| #![auto]
                    0 <= i < num_entries - 1 ==> entries@[i].1.p_next_entry == (i + 1) * entry_stride(length)
                &&& entries@[num_entries - 1 as int].1.p_next_entry == 0
                &&& forall|i: int| #![auto]
                    0 <= i < num_entries ==> entries@[i].1.status == 0
                        && entries@[i].1.config.d_type == 0 && entries@[i].1.config.len_sz == 1
                        && entries@[i].1.config.irq_intv == 4 && entries@[i].1.length == length
            },
    {
        let pad: u32 = 4 - ((length as u32 + 8) % 4);
        let stride: u32 = 8 + length as u32 + pad;
        proof {
            assert((num_entries as int) * (stride as int) < 0x10000000000000000) by (nonlinear_arith)
                requires
                    num_entries <= u32::MAX,
                    0 < stride <= 65547,
            ;
        }
        if (buf_len as u64) < (num_entries as u64) * (stride as u64) {
            return None;
        }
        let mut entries: Vec<(u32, dataEntry)> = Vec::new();
        let mut i: u32 = 0;
        while i < num_entries
            invariant
                i <= num_entries,
                pad == entry_pad(length),
                stride == entry_stride(length),
                num_entries * stride <= u16::MAX,
                entries@.len() == i,
                forall|k: int| #![auto] 0 <= k < i ==> entries@[k].0 == k * entry_stride(length),
                forall|k: int| #![auto]
                    0 <= k < i ==> entries@[k].1.p_next_entry == if k == num_entries - 1 {
                        0int
                    } else {
                        (k + 1) * entry_stride(length)
                    },
                forall|k: int| #![auto]
                    0 <= k < i ==> entries@[k].1.status == 0 && entries@[k].1.config.d_type == 0
                        && entries@[k].1.config.len_sz == 1 && entries@[k].1.config.irq_intv == 4
                        && entries@[k].1.length == length,
            decreases num_entries - i,
        {
            proof {
                assert(i * stride + stride == (i + 1) * stride) by (nonlinear_arith);
                assert((i + 1) * stride <= num_entries * stride) by (nonlinear_arith)
                    requires
                        i + 1 <= num_entries,
                        stride > 0,
                ;
            }
            let offset: u32 = i * stride;
            let next: u32 = if i == num_entries - 1 {
                0
            } else {
                offset + stride
            };
            entries.push(
                (
                    offset,
                    dataEntry {
                        p_next_entry: next,
                        status: 0,
                        config: DataConfig { d_type: 0, len_sz: 1, irq_intv: 4 },
                        length,
                    },
                ),
            );
            i = i + 1;
        }
        self.p_curr_entry = 0;
        self.p_last_entry = 0;
        Some(entries)
    }
}

} // verus!
