//! Per-priority event flags: a single word of bits, set from interrupt
//! context and drained from the cooperative main loop. Bit `i` stands
//! for the event of priority `i`, and the drain order is lowest bit
//! first.

use vstd::prelude::*;

verus! {

/// The event-flag word. The raw register is written with atomic
/// read-modify-write sequences by the runtime; the bit bookkeeping here
/// is exact.
pub struct Event {
    pub flags: u64,
}

impl Event {
    /// Whether any event is pending.
    pub fn has_event(&self) -> (r: bool)
        ensures
            r == (self.flags != 0),
    {
        self.flags != 0
    }

    /// The lowest pending priority: the least index whose bit is set,
    /// or nothing when no event is pending.
    pub fn next_pending(&self) -> (r: Option<usize>)
        ensures
            match r {
                Some(i) => i < 64 && self.flags & (1u64 << i as u64) != 0 && (forall|j: u64|
                    j < i ==> #[trigger] (self.flags & (1u64 << j)) == 0),
                None => self.flags == 0,
            },
    {
        let flags = self.flags;
        let mut count: usize = 0;
        proof {
            assert(flags & (((1u64 << 0u64) - 1) as u64) == 0) by (bit_vector);
        }
        while count < 64
            invariant
                count <= 64,
                flags == self.flags,
                count < 64 ==> flags & (((1u64 << (count as u64)) - 1) as u64) == 0,
                count == 64 ==> flags == 0,
            decreases 64 - count,
        {
            if flags & (1u64 << (count as u64)) != 0 {
                proof {
                    let c = count as u64;
                    assert forall|j: u64| j < count implies #[trigger] (self.flags & (1u64 << j))
                        == 0 by {
                        assert(flags & (1u64 << j) == 0) by (bit_vector)
                            requires
                                flags & (((1u64 << c) - 1) as u64) == 0,
                                j < c,
                                c < 64,
                        ;
                    }
                }
                return Some(count);
            }
            proof {
                let c = count as u64;
                let c1 = (c + 1) as u64;
                assert(c < 63 ==> flags & (((1u64 << c1) - 1) as u64) == 0) by (bit_vector)
                    requires
                        flags & (((1u64 << c) - 1) as u64) == 0,
                        flags & (1u64 << c) == 0,
                        c < 64,
                        c1 == (c + 1) as u64,
                ;
                assert(c == 63 ==> flags == 0) by (bit_vector)
                    requires
                        flags & (((1u64 << c) - 1) as u64) == 0,
                        flags & (1u64 << c) == 0,
                        c < 64,
                ;
            }
            count = count + 1;
        }
        None
    }

    /// Raise the flag of one priority.
    pub fn set_event_flag(&mut self, priority: usize)
        requires
            priority < 64,
        ensures
            final(self).flags == old(self).flags | (1u64 << priority as u64),
    {
        let bm: u64 = 1u64 << priority as u64;
        self.flags = self.flags | bm;
    }

    /// Clear the flag of one priority, leaving every other bit alone.
    pub fn clear_event_flag(&mut self, priority: usize)
        requires
            priority < 64,
        ensures
            final(self).flags == old(self).flags & !(1u64 << priority as u64),
    {
        let bm: u64 = !(1u64 << priority as u64);
        self.flags = self.flags & bm;
    }
}

} // verus!
