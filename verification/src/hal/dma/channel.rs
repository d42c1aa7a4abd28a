//! Linked-list planning of DMA channel transfers.
//!
//! A DMA channel follows a chain of linked list items (LLIs) that lie in a
//! pool in memory; each item describes one block of at most 4064 transfer
//! units. The functions here fill the pool for a list of transfers. The pool
//! starts at address `pool_addr`, and its items are 32 bytes apart.
use vstd::prelude::*;

use crate::bits;

use super::config::{DmaChannelConfig, Mem2MemChannelConfig, PeripheralId};
use super::register::{
    BurstSize, ChannelConfig, DmaMode, ErrorClear, LliControl, LliPool, LliTransfer, TransferCompleteClear,
    TransferWidth,
};

verus! {

/// Number of transfer units that one linked list item moves, but the last.
pub const LLI_BLOCK: u32 = 4064;

/// Distance in memory between two items of a pool.
pub const LLI_ITEM_SIZE: u32 = 32;

/// Memory address of the item at index `idx` of a pool at `base`.
pub open spec fn lli_addr(base: u32, idx: int) -> int {
    base + 32 * idx
}

/// Control word of the items of a chain but the last: transfer size 4064,
/// completion interrupt off, every other bit as in `ctrl`.
pub open spec fn mid_control(ctrl: LliControl) -> LliControl {
    LliControl(bits::with_field(bits::or_field(ctrl.0, 0, 12, 4064), 31, 1, 0))
}

/// Control word of the last item of a chain: its transfer size written at
/// bit 0 (truncated to 16 bits, unmasked), completion interrupt on.
pub open spec fn last_control(ctrl: LliControl, last_len: u32) -> LliControl {
    LliControl(
        bits::with_field(bits::or_field(mid_control(ctrl).0, 0, 12, (last_len as u16) as u32), 31, 1, 1),
    )
}

/// Whether the control word makes the source address advance.
pub open spec fn src_inc(ctrl: LliControl) -> bool {
    bits::field(ctrl.0, 26, 1) == 1
}

/// Whether the control word makes the destination address advance.
pub open spec fn dst_inc(ctrl: LliControl) -> bool {
    bits::field(ctrl.0, 27, 1) == 1
}

/// Item `k` of a chain of `count` items written from pool index `start`,
/// once the items before index `start + done` have been linked.
pub open spec fn lli_item(
    base: u32,
    start: int,
    count: int,
    done: int,
    k: int,
    src: u32,
    dst: u32,
    offset: u32,
    last_len: u32,
    ctrl: LliControl,
) -> LliPool {
    LliPool {
        src_addr: (src + if src_inc(ctrl) { k * offset } else { 0 }) as u32,
        dst_addr: (dst + if dst_inc(ctrl) { k * offset } else { 0 }) as u32,
        next_lli: if k + 1 < done { lli_addr(base, start + k + 1) as u32 } else { 0 },
        control: if k + 1 == count { last_control(ctrl, last_len) } else { mid_control(ctrl) },
    }
}

/// The pool after writing the first `done` items of a chain of `count`
/// items from index `start`; the other items are kept.
pub open spec fn lli_written(
    pool: Seq<LliPool>,
    base: u32,
    start: int,
    count: int,
    done: int,
    src: u32,
    dst: u32,
    offset: u32,
    last_len: u32,
    ctrl: LliControl,
) -> Seq<LliPool> {
    Seq::new(
        pool.len(),
        |j: int|
            if start <= j < start + done {
                lli_item(base, start, count, done, j - start, src, dst, offset, last_len, ctrl)
            } else {
                pool[j]
            },
    )
}

/// The pool after writing a whole chain of `count` items from `start`.
pub open spec fn lli_configured(
    pool: Seq<LliPool>,
    base: u32,
    start: int,
    count: int,
    src: u32,
    dst: u32,
    offset: u32,
    last_len: u32,
    ctrl: LliControl,
) -> Seq<LliPool> {
    lli_written(pool, base, start, count, count, src, dst, offset, last_len, ctrl)
}

/// Writes a chain of `lli_count` linked list items into the pool, from
/// index `start` on.
///
/// Item `k` moves from `src_addr` and to `dst_addr`, each advanced by
/// `k * transfer_offset` when `control` enables that address to advance.
/// Each item links to the next one by its memory address, and the last
/// one links to nothing (0). All items carry `control` with the transfer
/// size 4064 and no completion interrupt, but the last, which carries the
/// transfer size `last_transfer_len` and raises the completion interrupt.
pub fn lli_config(
    pool: &mut Vec<LliPool>,
    pool_addr: u32,
    start: usize,
    lli_count: u32,
    src_addr: u32,
    dst_addr: u32,
    transfer_offset: u32,
    last_transfer_len: u32,
    control: LliControl,
)
    requires
        start + lli_count <= old(pool)@.len(),
        pool_addr + 32 * old(pool)@.len() <= 0x1_0000_0000,
        src_inc(control) ==> src_addr + lli_count * transfer_offset <= u32::MAX,
        dst_inc(control) ==> dst_addr + lli_count * transfer_offset <= u32::MAX,
    ensures
        final(pool)@ == lli_configured(
            old(pool)@,
            pool_addr,
            start as int,
            lli_count as int,
            src_addr,
            dst_addr,
            transfer_offset,
            last_transfer_len,
            control,
        ),
        forall|k: int|
            0 <= k < lli_count ==> #[trigger] final(pool)@[start + k].src_addr == (if bits::field(control.0, 26, 1) == 1 {
                (src_addr + k * transfer_offset) as u32
            } else {
                src_addr
            }),
        forall|k: int|
            0 <= k < lli_count ==> #[trigger] final(pool)@[start + k].dst_addr == (if bits::field(control.0, 27, 1) == 1 {
                (dst_addr + k * transfer_offset) as u32
            } else {
                dst_addr
            }),
{
    let ghost old_pool = pool@;
    let mid = control.set_transfer_size(4064).disable_cplt_int();
    let mut src: u32 = src_addr;
    let mut dst: u32 = dst_addr;
    let src_step = control.is_src_addr_inc_enabled();
    let dst_step = control.is_dst_addr_inc_enabled();
    assert(mid == mid_control(control));
    let mut i: u32 = 0;
    while i < lli_count
        invariant
            i <= lli_count,
            start + lli_count <= old_pool.len(),
            pool_addr + 32 * old_pool.len() <= 0x1_0000_0000,
            src_inc(control) ==> src_addr + lli_count * transfer_offset <= u32::MAX,
            dst_inc(control) ==> dst_addr + lli_count * transfer_offset <= u32::MAX,
            src_step == src_inc(control),
            dst_step == dst_inc(control),
            mid == mid_control(control),
            src == src_addr + if src_inc(control) { i * transfer_offset } else { 0 },
            dst == dst_addr + if dst_inc(control) { i * transfer_offset } else { 0 },
            pool@ == lli_written(
                old_pool,
                pool_addr,
                start as int,
                lli_count as int,
                i as int,
                src_addr,
                dst_addr,
                transfer_offset,
                last_transfer_len,
                control,
            ),
        decreases lli_count - i,
    {
        let idx: usize = start + i as usize;
        let ctrl_cfg = if i == lli_count - 1 {
            mid.set_transfer_size(#[verifier::truncate] (last_transfer_len as u16)).enable_cplt_int()
        } else {
            mid
        };
        let item = LliPool { src_addr: src, dst_addr: dst, next_lli: 0, control: ctrl_cfg };
        assert(item == lli_item(
            pool_addr,
            start as int,
            lli_count as int,
            i + 1,
            i as int,
            src_addr,
            dst_addr,
            transfer_offset,
            last_transfer_len,
            control,
        ));
        proof {
            assert(i * transfer_offset + transfer_offset <= lli_count * transfer_offset) by (nonlinear_arith)
                requires
                    i < lli_count,
            ;
            assert((i + 1) * transfer_offset == i * transfer_offset + transfer_offset) by (nonlinear_arith);
        }
        if src_step {
            src = src + transfer_offset;
        }
        if dst_step {
            dst = dst + transfer_offset;
        }
        let ghost before = pool@;
        pool[idx] = item;
        if i > 0 {
            let next: u32 = pool_addr + 32 * (idx as u32);
            pool[idx - 1].next_lli = next;
        }
        i = i + 1;
        proof {
            let w = lli_written(
                old_pool,
                pool_addr,
                start as int,
                lli_count as int,
                i as int,
                src_addr,
                dst_addr,
                transfer_offset,
                last_transfer_len,
                control,
            );
            assert forall|j: int| 0 <= j < pool@.len() implies #[trigger] pool@[j] == w[j] by {
                if start + i - 1 == j {
                    assert(pool@[j] == item);
                } else if start <= j && j + 1 < start + i - 1 {
                    assert(pool@[j] == before[j]);
                } else if i > 1 && j + 2 == start + i {
                    assert(pool@[j].next_lli == lli_addr(pool_addr, start + i - 1));
                } else {
                    assert(pool@[j] == before[j]);
                }
            }
            assert(pool@ =~= w);
        }
    }
    proof {
        if lli_count >= 1 {
            lemma_chain_items(
                old_pool,
                pool_addr,
                start as int,
                lli_count as int,
                src_addr,
                dst_addr,
                transfer_offset,
                last_transfer_len,
                control,
            );
        }
    }
}

/// A configured chain is a linked list in memory: each of its items but
/// the last links to the address of the next one, the last links to
/// nothing (0), and the pool outside the chain is left as it was.
pub proof fn lemma_chain_links(
    pool: Seq<LliPool>,
    base: u32,
    start: int,
    count: int,
    src: u32,
    dst: u32,
    offset: u32,
    last_len: u32,
    ctrl: LliControl,
)
    requires
        0 <= start,
        1 <= count,
        start + count <= pool.len(),
    ensures
        ({
            let p = lli_configured(pool, base, start, count, src, dst, offset, last_len, ctrl);
            &&& p.len() == pool.len()
            &&& forall|k: int| 0 <= k < count - 1 ==> #[trigger] p[start + k].next_lli == lli_addr(base, start + k + 1) as u32
            &&& p[start + count - 1].next_lli == 0
            &&& p[start + count - 1].control == last_control(ctrl, last_len)
            &&& forall|j: int| 0 <= j < pool.len() && !(start <= j < start + count) ==> #[trigger] p[j] == pool[j]
        }),
{
}

/// The fields of the control words of a chain's items, built from `c`.
proof fn lemma_item_control_bits(c: u32, len: u32, m: u32, l: u32)
    by (bit_vector)
    requires
        m == bits::with_field(bits::or_field(c, 0, 12, 4064), 31, 1, 0),
        l == bits::with_field(bits::or_field(m, 0, 12, (len as u16) as u32), 31, 1, 1),
    ensures
        bits::field(m, 0, 12) == 4064,
        bits::field(m, 31, 1) == 0,
        bits::field(m, 12, 19) == bits::field(c, 12, 19),
        bits::field(l, 31, 1) == 1,
        len < 4096 ==> bits::field(l, 0, 12) == len,
        len < 4096 ==> bits::field(l, 12, 19) == bits::field(c, 12, 19),
{
}

/// What each item of a configured chain of `count` items from `start`
/// holds: item `k` moves from `src`, advanced by `k * offset` when bit 26
/// of the control word is set, and to `dst`, advanced by `k * offset` when
/// bit 27 is set, each on its own bit. Every item keeps bits 12 to 30 of
/// the control word; all but the last carry the transfer size 4064 and no
/// completion interrupt (bit 31), the last carries the transfer size
/// `last_len` (when it fits the 12-bit field) and the completion
/// interrupt.
pub proof fn lemma_chain_items(
    pool: Seq<LliPool>,
    base: u32,
    start: int,
    count: int,
    src: u32,
    dst: u32,
    offset: u32,
    last_len: u32,
    ctrl: LliControl,
)
    requires
        0 <= start,
        1 <= count,
        start + count <= pool.len(),
    ensures
        ({
            let p = lli_configured(pool, base, start, count, src, dst, offset, last_len, ctrl);
            &&& forall|k: int|
                0 <= k < count ==> #[trigger] p[start + k].src_addr == (if bits::field(ctrl.0, 26, 1) == 1 {
                    (src + k * offset) as u32
                } else {
                    src
                })
            &&& forall|k: int|
                0 <= k < count ==> #[trigger] p[start + k].dst_addr == (if bits::field(ctrl.0, 27, 1) == 1 {
                    (dst + k * offset) as u32
                } else {
                    dst
                })
            &&& forall|k: int|
                0 <= k < count ==> bits::field(#[trigger] p[start + k].control.0, 12, 19) == bits::field(ctrl.0, 12, 19)
                    || (k == count - 1 && last_len >= 4096)
            &&& forall|k: int|
                0 <= k < count - 1 ==> bits::field(#[trigger] p[start + k].control.0, 0, 12) == 4064
                    && bits::field(p[start + k].control.0, 31, 1) == 0
            &&& bits::field(p[start + count - 1].control.0, 31, 1) == 1
            &&& last_len < 4096 ==> bits::field(p[start + count - 1].control.0, 0, 12) == last_len
        }),
{
    let p = lli_configured(pool, base, start, count, src, dst, offset, last_len, ctrl);
    let m = mid_control(ctrl).0;
    let l = last_control(ctrl, last_len).0;
    lemma_item_control_bits(ctrl.0, last_len, m, l);
    assert forall|k: int| 0 <= k < count implies #[trigger] p[start + k].src_addr == (if bits::field(ctrl.0, 26, 1) == 1 {
        (src + k * offset) as u32
    } else {
        src
    }) by {
        assert(p[start + k] == lli_item(base, start, count, count, k, src, dst, offset, last_len, ctrl));
    }
    assert forall|k: int| 0 <= k < count implies #[trigger] p[start + k].dst_addr == (if bits::field(ctrl.0, 27, 1) == 1 {
        (dst + k * offset) as u32
    } else {
        dst
    }) by {
        assert(p[start + k] == lli_item(base, start, count, count, k, src, dst, offset, last_len, ctrl));
    }
    assert forall|k: int| 0 <= k < count implies bits::field(#[trigger] p[start + k].control.0, 12, 19) == bits::field(ctrl.0, 12, 19)
        || (k == count - 1 && last_len >= 4096) by {
        assert(p[start + k] == lli_item(base, start, count, count, k, src, dst, offset, last_len, ctrl));
    }
    assert forall|k: int| 0 <= k < count - 1 implies bits::field(#[trigger] p[start + k].control.0, 0, 12) == 4064
        && bits::field(p[start + k].control.0, 31, 1) == 0 by {
        assert(p[start + k] == lli_item(base, start, count, count, k, src, dst, offset, last_len, ctrl));
    }
    assert(p[start + count - 1] == lli_item(base, start, count, count, count - 1, src, dst, offset, last_len, ctrl));
}

/// Bytes in one transfer unit of the source transfer width of `ctrl`.
pub open spec fn unit_bytes(ctrl: LliControl) -> u32 {
    let w = bits::field(ctrl.0, 18, 2);
    if w == 0 {
        1
    } else if w == 1 {
        2
    } else if w == 2 {
        4
    } else {
        8
    }
}

/// Number of items and transfer size of the last item of the chain that
/// moves `units` transfer units: blocks of 4064 units and a remainder; a
/// remainder below 31 units is merged into the block before it.
pub open spec fn lli_split(units: u32) -> (u32, u32) {
    let count = units / 4064 + 1;
    let last = units % 4064;
    if count > 1 && last < 31 {
        ((count - 1) as u32, (last + 4064) as u32)
    } else {
        (count as u32, last as u32)
    }
}

/// A transfer of `units` units is split into chains that move exactly
/// `units` units: `count - 1` full blocks of 4064 units and a last item of
/// `last` units, which fits the 12-bit transfer size field and is not
/// below 31 units unless it is the only item.
pub proof fn lemma_lli_split_total(units: u32)
    ensures
        ({
            let (count, last) = lli_split(units);
            &&& count >= 1
            &&& (count - 1) * 4064 + last == units
            &&& last < 4095
            &&& count > 1 ==> last >= 31
        }),
{
}

/// State of a reload after handling its first `n` transfers: the pool, the
/// number of pool items in use, and the result if it has already ended
/// (-1: a transfer is not a whole number of units; -12: out of items).
pub open spec fn reload_state(
    pool: Seq<LliPool>,
    base: u32,
    transfers: Seq<LliTransfer>,
    ctrl: LliControl,
    max_lli_count: u32,
    n: nat,
) -> (Seq<LliPool>, int, Option<i32>)
    decreases n,
{
    if n == 0 {
        (pool, 0, None)
    } else {
        let prev = reload_state(pool, base, transfers, ctrl, max_lli_count, (n - 1) as nat);
        let p = prev.0;
        let used = prev.1;
        if prev.2 is Some {
            prev
        } else {
            let t = transfers[n - 1];
            if t.nbytes % unit_bytes(ctrl) != 0 {
                (p, used, Some(-1i32))
            } else {
                let (count, last) = lli_split(t.nbytes / unit_bytes(ctrl));
                let p1 = lli_configured(
                    p,
                    base,
                    used,
                    count as int,
                    t.src_addr,
                    t.dst_addr,
                    (4064 * unit_bytes(ctrl)) as u32,
                    last,
                    ctrl,
                );
                let p2 = if n - 1 > 0 && used > 0 {
                    p1.update(used - 1, LliPool { next_lli: lli_addr(base, used) as u32, ..p1[used - 1] })
                } else {
                    p1
                };
                let used2 = used + count;
                if used2 > max_lli_count {
                    (p2, used2, Some(-12i32))
                } else {
                    (p2, used2, None)
                }
            }
        }
    }
}

/// A reload of the first `count` transfers stays in bounds: every chain
/// that it writes fits in the pool, and no address of a chain overflows.
pub open spec fn reload_fits(
    pool: Seq<LliPool>,
    base: u32,
    transfers: Seq<LliTransfer>,
    ctrl: LliControl,
    max_lli_count: u32,
    count: nat,
) -> bool {
    forall|n: nat|
        n < count ==> {
            let st = #[trigger] reload_state(pool, base, transfers, ctrl, max_lli_count, n);
            let t = transfers[n as int];
            let (c, last) = lli_split(t.nbytes / unit_bytes(ctrl));
            (st.2 is None && t.nbytes % unit_bytes(ctrl) == 0) ==> {
                &&& st.1 + c <= pool.len()
                &&& src_inc(ctrl) ==> t.src_addr + c * (4064 * unit_bytes(ctrl)) <= u32::MAX
                &&& dst_inc(ctrl) ==> t.dst_addr + c * (4064 * unit_bytes(ctrl)) <= u32::MAX
            }
        }
}

/// The registers of a channel that a reload loads: source address,
/// destination address, linked list item and control.
#[derive(Clone, Copy, Debug, PartialEq, Eq, Structural)]
pub struct ChannelRegisters {
    /// Source address register.
    pub source_address: u32,
    /// Destination address register.
    pub destination_address: u32,
    /// Linked list item register.
    pub linked_list_item: u32,
    /// Control register.
    pub control: LliControl,
}

/// The channel registers after a reload that ended with `used` items in
/// the pool `pool`: loaded from the first item when there is one, else as
/// they were.
pub open spec fn reloaded_registers(regs: ChannelRegisters, pool: Seq<LliPool>, used: int) -> ChannelRegisters {
    if used > 0 {
        ChannelRegisters {
            source_address: pool[0].src_addr,
            destination_address: pool[0].dst_addr,
            linked_list_item: pool[0].next_lli,
            control: pool[0].control,
        }
    } else {
        regs
    }
}

/// Fills the pool with the chains of the first `count` transfers, one after
/// the other, each chain linked to the next, and loads the first item into
/// the channel registers.
///
/// The source transfer width of the channel's control register sets the
/// unit of every transfer. Returns the number of pool items in use, -1
/// when a transfer is not a whole number of units, or -12 as soon as more
/// than `max_lli_count` items would be needed (the chain that overflows is
/// then already written). Only a reload that returns the number of items
/// loads the registers, and only when that number is not zero.
pub fn lli_reload(
    pool: &mut Vec<LliPool>,
    pool_addr: u32,
    max_lli_count: u32,
    transfers: &[LliTransfer],
    count: u32,
    channel: &mut ChannelRegisters,
) -> (r: i32)
    requires
        count <= transfers@.len(),
        pool_addr + 32 * old(pool)@.len() <= 0x1_0000_0000,
        reload_fits(old(pool)@, pool_addr, transfers@, old(channel).control, max_lli_count, count as nat),
    ensures
        ({
            let st = reload_state(
                old(pool)@,
                pool_addr,
                transfers@,
                old(channel).control,
                max_lli_count,
                count as nat,
            );
            &&& final(pool)@ == st.0
            &&& r == match st.2 {
                Some(e) => e,
                None => st.1 as i32,
            }
            &&& *final(channel) == match st.2 {
                Some(_) => *old(channel),
                None => reloaded_registers(*old(channel), st.0, st.1),
            }
        }),
{
    let control: LliControl = channel.control;
    let ghost old_pool = pool@;
    let unit: u32 = match control.src_transfer_width() {
        TransferWidth::Byte => 1,
        TransferWidth::HalfWord => 2,
        TransferWidth::Word => 4,
        TransferWidth::DoubleWord => 8,
    };
    proof {
        bits::lemma_low_masks();
        bits::lemma_field_bound(control.0, 18, 2);
    }
    assert(unit == unit_bytes(control));
    let actual_transfer_offset: u32 = 4064 * unit;
    let mut used: usize = 0;
    let mut i: u32 = 0;
    while i < count
        invariant
            i <= count,
            old_pool == old(pool)@,
            count <= transfers@.len(),
            unit == unit_bytes(control),
            actual_transfer_offset == 4064 * unit,
            pool_addr + 32 * old_pool.len() <= 0x1_0000_0000,
            reload_fits(old_pool, pool_addr, transfers@, control, max_lli_count, count as nat),
            ({
                let st = reload_state(old_pool, pool_addr, transfers@, control, max_lli_count, i as nat);
                &&& pool@ == st.0
                &&& used == st.1
                &&& st.2 is None
            }),
            used <= max_lli_count,
            used <= old_pool.len(),
            pool@.len() == old_pool.len(),
            *channel == *old(channel),
            control == old(channel).control,
        decreases count - i,
    {
        let t = transfers[i as usize];
        let ghost st = reload_state(old_pool, pool_addr, transfers@, control, max_lli_count, i as nat);
        assert(t == transfers@[i as int]);
        if t.nbytes % unit != 0 {
            assert(reload_state(old_pool, pool_addr, transfers@, control, max_lli_count, (i + 1) as nat)
                == (st.0, st.1, Some(-1i32)));
            proof {
                lemma_reload_stops(old_pool, pool_addr, transfers@, control, max_lli_count, (i + 1) as nat, count as nat);
            }
            return -1;
        }
        let actual_transfer_len: u32 = t.nbytes / unit;
        let mut current_lli_count: u32 = actual_transfer_len / 4064 + 1;
        let mut last_transfer_len: u32 = actual_transfer_len % 4064;
        if current_lli_count > 1 && last_transfer_len < 31 {
            current_lli_count = current_lli_count - 1;
            last_transfer_len = last_transfer_len + 4064;
        }
        assert((current_lli_count, last_transfer_len) == lli_split(actual_transfer_len));
        assert(used + current_lli_count <= pool@.len());
        lli_config(
            pool,
            pool_addr,
            used,
            current_lli_count,
            t.src_addr,
            t.dst_addr,
            actual_transfer_offset,
            last_transfer_len,
            control,
        );
        if i > 0 && used > 0 {
            let next: u32 = pool_addr + 32 * (used as u32);
            pool[used - 1].next_lli = next;
        }
        used = used + current_lli_count as usize;
        i = i + 1;
        assert(pool@ =~= reload_state(old_pool, pool_addr, transfers@, control, max_lli_count, i as nat).0);
        if used > max_lli_count as usize {
            proof {
                lemma_reload_stops(old_pool, pool_addr, transfers@, control, max_lli_count, i as nat, count as nat);
            }
            return -12;
        }
    }
    if used > 0 {
        let first = pool[0];
        channel.source_address = first.src_addr;
        channel.destination_address = first.dst_addr;
        channel.linked_list_item = first.next_lli;
        channel.control = first.control;
    }
    used as i32
}

/// Once a reload has ended, handling more transfers changes nothing.
proof fn lemma_reload_stops(
    pool: Seq<LliPool>,
    base: u32,
    transfers: Seq<LliTransfer>,
    ctrl: LliControl,
    max_lli_count: u32,
    n: nat,
    m: nat,
)
    requires
        n <= m,
        reload_state(pool, base, transfers, ctrl, max_lli_count, n).2 is Some,
    ensures
        reload_state(pool, base, transfers, ctrl, max_lli_count, m) == reload_state(
            pool,
            base,
            transfers,
            ctrl,
            max_lli_count,
            n,
        ),
    decreases m - n,
{
    if n < m {
        lemma_reload_stops(pool, base, transfers, ctrl, max_lli_count, n, (m - 1) as nat);
    }
}

/// 1 for `true`, 0 for `false`.
pub open spec fn bit_of(b: bool) -> u32 {
    if b {
        1
    } else {
        0
    }
}

/// The control register after setting up a channel: address increments,
/// transfer widths and burst sizes written, completion interrupt off.
pub open spec fn setup_control(
    ctl: u32,
    src_inc: bool,
    dst_inc: bool,
    src_width: TransferWidth,
    dst_width: TransferWidth,
    src_burst: BurstSize,
    dst_burst: BurstSize,
) -> u32 {
    let c1 = bits::with_field(bits::with_field(ctl, 26, 1, bit_of(src_inc)), 27, 1, bit_of(dst_inc));
    let c2 = bits::with_field(bits::with_field(c1, 18, 2, src_width.value()), 21, 2, dst_width.value());
    let c3 = bits::with_field(bits::with_field(c2, 12, 2, src_burst.value()), 15, 2, dst_burst.value());
    bits::with_field(c3, 31, 1, 0)
}

/// The configuration register after setting up a channel: channel off,
/// mode written, item count 0, source and destination peripherals written
/// (or cleared), completion and error interrupts on.
pub open spec fn setup_config(cfg: u32, mode: DmaMode, src: Option<u8>, dst: Option<u8>) -> u32 {
    let c1 = bits::or_field(bits::with_field(bits::with_field(cfg, 0, 1, 0), 11, 3, mode.value()), 20, 10, 0);
    let c2 = match src {
        Some(id) => bits::or_field(c1, 1, 5, id as u32),
        None => bits::with_field(c1, 1, 5, 0),
    };
    let c3 = match dst {
        Some(id) => bits::or_field(c2, 6, 5, id as u32),
        None => bits::with_field(c2, 6, 5, 0),
    };
    bits::with_field(bits::with_field(c3, 15, 1, 1), 14, 1, 1)
}

/// The fields of a control word built by writing the address increment
/// bits, transfer widths and burst sizes and clearing the completion
/// interrupt.
proof fn lemma_control_setup_bits(ctl: u32, a: u32, b: u32, sw: u32, dw: u32, sb: u32, db: u32, c: u32)
    by (bit_vector)
    requires
        a <= 1,
        b <= 1,
        sw <= 3,
        dw <= 3,
        sb <= 3,
        db <= 3,
        c == bits::with_field(
            bits::with_field(
                bits::with_field(
                    bits::with_field(
                        bits::with_field(bits::with_field(bits::with_field(ctl, 26, 1, a), 27, 1, b), 18, 2, sw),
                        21,
                        2,
                        dw,
                    ),
                    12,
                    2,
                    sb,
                ),
                15,
                2,
                db,
            ),
            31,
            1,
            0,
        ),
    ensures
        bits::field(c, 26, 1) == a,
        bits::field(c, 27, 1) == b,
        bits::field(c, 18, 2) == sw,
        bits::field(c, 21, 2) == dw,
        bits::field(c, 12, 2) == sb,
        bits::field(c, 15, 2) == db,
        bits::field(c, 31, 1) == 0,
        bits::field(c, 0, 12) == bits::field(ctl, 0, 12),
{
}

/// Setting up a channel's control register makes each of its fields read
/// back what was asked for: the source address increment (bit 26), the
/// destination address increment (bit 27), the source and destination
/// transfer widths (bits 18 and 21, two bits each) and burst sizes (bits
/// 12 and 15, two bits each); the completion interrupt (bit 31) is off and
/// the transfer size (bits 0 to 11) is kept.
pub proof fn lemma_setup_control_fields(
    ctl: u32,
    src_inc: bool,
    dst_inc: bool,
    src_width: TransferWidth,
    dst_width: TransferWidth,
    src_burst: BurstSize,
    dst_burst: BurstSize,
)
    ensures
        ({
            let c = setup_control(ctl, src_inc, dst_inc, src_width, dst_width, src_burst, dst_burst);
            &&& bits::field(c, 26, 1) == (if src_inc { 1u32 } else { 0u32 })
            &&& bits::field(c, 27, 1) == (if dst_inc { 1u32 } else { 0u32 })
            &&& bits::field(c, 18, 2) == src_width.value()
            &&& bits::field(c, 21, 2) == dst_width.value()
            &&& bits::field(c, 12, 2) == src_burst.value()
            &&& bits::field(c, 15, 2) == dst_burst.value()
            &&& bits::field(c, 31, 1) == 0
            &&& bits::field(c, 0, 12) == bits::field(ctl, 0, 12)
        }),
{
    let c = setup_control(ctl, src_inc, dst_inc, src_width, dst_width, src_burst, dst_burst);
    lemma_control_setup_bits(
        ctl,
        bit_of(src_inc),
        bit_of(dst_inc),
        src_width.value(),
        dst_width.value(),
        src_burst.value(),
        dst_burst.value(),
        c,
    );
}

/// The fields of a configuration word built by turning the channel off,
/// writing the mode, clearing the item count, writing the peripherals and
/// turning both interrupts on.
proof fn lemma_config_setup_bits(
    cfg: u32,
    mode: u32,
    has_s: bool,
    s: u32,
    has_d: bool,
    d: u32,
    c1: u32,
    c2: u32,
    c3: u32,
    c: u32,
)
    by (bit_vector)
    requires
        mode <= 7,
        has_s ==> s < 32,
        has_d ==> d < 32,
        c1 == bits::or_field(bits::with_field(bits::with_field(cfg, 0, 1, 0), 11, 3, mode), 20, 10, 0),
        c2 == (if has_s { bits::or_field(c1, 1, 5, s) } else { bits::with_field(c1, 1, 5, 0) }),
        c3 == (if has_d { bits::or_field(c2, 6, 5, d) } else { bits::with_field(c2, 6, 5, 0) }),
        c == bits::with_field(bits::with_field(c3, 15, 1, 1), 14, 1, 1),
    ensures
        bits::field(c, 0, 1) == 0,
        bits::field(c, 11, 3) == mode,
        bits::field(c, 20, 10) == 0,
        bits::field(c, 1, 5) == (if has_s { s } else { 0 }),
        bits::field(c, 6, 5) == (if has_d { d } else { 0 }),
        bits::field(c, 14, 1) == 1,
        bits::field(c, 15, 1) == 1,
{
}

/// Setting up a channel's configuration register turns the channel off
/// (bit 0), writes the mode (bits 11 to 13), clears the item count (bits
/// 20 to 29), writes the source and destination peripherals (bits 1 and 6,
/// five bits each; 0 when there is none) and turns on the error and
/// completion interrupts (bits 14 and 15). Peripheral numbers are below
/// 32, the width of their fields.
pub proof fn lemma_setup_config_fields(cfg: u32, mode: DmaMode, src: Option<u8>, dst: Option<u8>)
    requires
        src matches Some(id) ==> id < 32,
        dst matches Some(id) ==> id < 32,
    ensures
        ({
            let c = setup_config(cfg, mode, src, dst);
            &&& bits::field(c, 0, 1) == 0
            &&& bits::field(c, 11, 3) == mode.value()
            &&& bits::field(c, 20, 10) == 0
            &&& match src {
                Some(id) => bits::field(c, 1, 5) == id,
                None => bits::field(c, 1, 5) == 0,
            }
            &&& match dst {
                Some(id) => bits::field(c, 6, 5) == id,
                None => bits::field(c, 6, 5) == 0,
            }
            &&& bits::field(c, 14, 1) == 1
            &&& bits::field(c, 15, 1) == 1
        }),
{
    let c1 = bits::or_field(bits::with_field(bits::with_field(cfg, 0, 1, 0), 11, 3, mode.value()), 20, 10, 0);
    let s: u32 = match src {
        Some(id) => id as u32,
        None => 0,
    };
    let d: u32 = match dst {
        Some(id) => id as u32,
        None => 0,
    };
    let c2 = match src {
        Some(id) => bits::or_field(c1, 1, 5, id as u32),
        None => bits::with_field(c1, 1, 5, 0),
    };
    let c3 = match dst {
        Some(id) => bits::or_field(c2, 6, 5, id as u32),
        None => bits::with_field(c2, 6, 5, 0),
    };
    let c = setup_config(cfg, mode, src, dst);
    assert(c == bits::with_field(bits::with_field(c3, 15, 1, 1), 14, 1, 1));
    lemma_config_setup_bits(cfg, mode.value(), src is Some, s, dst is Some, d, c1, c2, c3, c);
}

/// The identifier of an optional peripheral.
pub open spec fn periph_id<T: PeripheralId>(p: Option<T>) -> Option<u8> {
    match p {
        Some(x) => Some(x.spec_id()),
        None => None,
    }
}

/// Register values written when channel `channel_id` is set up: the new
/// configuration and control registers, and the writes that clear the
/// channel's completion and error interrupts.
pub struct ChannelSetup {
    /// Channel configuration register.
    pub config: ChannelConfig,
    /// Channel control register.
    pub control: LliControl,
    /// Write to the transfer complete clear register.
    pub complete_clear: TransferCompleteClear,
    /// Write to the error clear register.
    pub error_clear: ErrorClear,
}

/// Sets up a channel for transfers with peripherals: computes, from the
/// current configuration and control registers, the values that the set
/// up writes.
pub fn configure<T: PeripheralId + Copy>(
    config: ChannelConfig,
    control: LliControl,
    channel_id: usize,
    channel_config: DmaChannelConfig<T>,
) -> (r: ChannelSetup)
    requires
        channel_id < 8,
    ensures
        r.config.0 == setup_config(
            config.0,
            channel_config.direction,
            periph_id(channel_config.src_req),
            periph_id(channel_config.dst_req),
        ),
        r.control.0 == setup_control(
            control.0,
            channel_config.src_addr_inc,
            channel_config.dst_addr_inc,
            channel_config.src_transfer_width,
            channel_config.dst_transfer_width,
            channel_config.src_burst_size,
            channel_config.dst_burst_size,
        ),
        r.complete_clear.0 == 1u8 << channel_id,
        r.error_clear.0 == 1u8 << channel_id,
        bits::field(r.control.0, 26, 1) == (if channel_config.src_addr_inc { 1u32 } else { 0u32 }),
        bits::field(r.control.0, 27, 1) == (if channel_config.dst_addr_inc { 1u32 } else { 0u32 }),
        bits::field(r.control.0, 18, 2) == channel_config.src_transfer_width.value(),
        bits::field(r.control.0, 21, 2) == channel_config.dst_transfer_width.value(),
        bits::field(r.control.0, 12, 2) == channel_config.src_burst_size.value(),
        bits::field(r.control.0, 15, 2) == channel_config.dst_burst_size.value(),
        bits::field(r.control.0, 31, 1) == 0,
        bits::field(r.control.0, 0, 12) == bits::field(control.0, 0, 12),
        (periph_id(channel_config.src_req) matches Some(id) ==> id < 32) && (periph_id(
            channel_config.dst_req,
        ) matches Some(id) ==> id < 32) ==> {
            &&& bits::field(r.config.0, 0, 1) == 0
            &&& bits::field(r.config.0, 11, 3) == channel_config.direction.value()
            &&& bits::field(r.config.0, 20, 10) == 0
            &&& bits::field(r.config.0, 14, 1) == 1
            &&& bits::field(r.config.0, 15, 1) == 1
            &&& match periph_id(channel_config.src_req) {
                Some(id) => bits::field(r.config.0, 1, 5) == id,
                None => bits::field(r.config.0, 1, 5) == 0,
            }
            &&& match periph_id(channel_config.dst_req) {
                Some(id) => bits::field(r.config.0, 6, 5) == id,
                None => bits::field(r.config.0, 6, 5) == 0,
            }
        },
{
    proof {
        lemma_setup_control_fields(
            control.0,
            channel_config.src_addr_inc,
            channel_config.dst_addr_inc,
            channel_config.src_transfer_width,
            channel_config.dst_transfer_width,
            channel_config.src_burst_size,
            channel_config.dst_burst_size,
        );
        if (periph_id(channel_config.src_req) matches Some(id) ==> id < 32) && (periph_id(
            channel_config.dst_req,
        ) matches Some(id) ==> id < 32) {
            lemma_setup_config_fields(
                config.0,
                channel_config.direction,
                periph_id(channel_config.src_req),
                periph_id(channel_config.dst_req),
            );
        }
    }
    let cfg = config.disable_ch();
    let ctl = if channel_config.src_addr_inc {
        control.enable_src_addr_inc()
    } else {
        control.disable_src_addr_inc()
    };
    let ctl = if channel_config.dst_addr_inc {
        ctl.enable_dst_addr_inc()
    } else {
        ctl.disable_dst_addr_inc()
    };
    let ctl = ctl.set_src_transfer_width(channel_config.src_transfer_width).set_dst_transfer_width(
        channel_config.dst_transfer_width,
    ).set_src_bst_size(channel_config.src_burst_size).set_dst_bst_size(channel_config.dst_burst_size);
    let cfg = cfg.set_dma_mode(channel_config.direction).set_lli_cnt(0);
    let cfg = match channel_config.src_req {
        Some(periph) => cfg.set_src_periph(periph),
        None => cfg.clear_src_periph(),
    };
    let cfg = match channel_config.dst_req {
        Some(periph) => cfg.set_dst_periph(periph),
        None => cfg.clear_dst_periph(),
    };
    let cfg = cfg.enable_cplt_int().enable_err_int();
    let ctl = ctl.disable_cplt_int();
    let id: u8 = channel_id as u8;
    let complete_clear = TransferCompleteClear(0).clear_cplt_int(id);
    let error_clear = ErrorClear(0).clear_err_int(id);
    let c: u8 = complete_clear.0;
    let e: u8 = error_clear.0;
    proof {
        assert(c == 1u8 << id && e == 1u8 << id) by (bit_vector)
            requires
                c == 0u8 | (1u8 << id),
                e == 0u8 | (1u8 << id),
        ;
    }
    ChannelSetup { config: cfg, control: ctl, complete_clear, error_clear }
}

/// Sets up a channel for memory to memory transfers: as [`configure`],
/// with no source or destination peripheral.
pub fn memory_to_memory(
    config: ChannelConfig,
    control: LliControl,
    channel_id: usize,
    channel_config: Mem2MemChannelConfig,
) -> (r: ChannelSetup)
    requires
        channel_id < 8,
    ensures
        r.config.0 == setup_config(config.0, channel_config.direction, None, None),
        r.control.0 == setup_control(
            control.0,
            channel_config.src_addr_inc,
            channel_config.dst_addr_inc,
            channel_config.src_transfer_width,
            channel_config.dst_transfer_width,
            channel_config.src_burst_size,
            channel_config.dst_burst_size,
        ),
        r.complete_clear.0 == 1u8 << channel_id,
        r.error_clear.0 == 1u8 << channel_id,
        bits::field(r.control.0, 26, 1) == (if channel_config.src_addr_inc { 1u32 } else { 0u32 }),
        bits::field(r.control.0, 27, 1) == (if channel_config.dst_addr_inc { 1u32 } else { 0u32 }),
        bits::field(r.control.0, 18, 2) == channel_config.src_transfer_width.value(),
        bits::field(r.control.0, 21, 2) == channel_config.dst_transfer_width.value(),
        bits::field(r.control.0, 12, 2) == channel_config.src_burst_size.value(),
        bits::field(r.control.0, 15, 2) == channel_config.dst_burst_size.value(),
        bits::field(r.control.0, 31, 1) == 0,
        bits::field(r.control.0, 0, 12) == bits::field(control.0, 0, 12),
        bits::field(r.config.0, 0, 1) == 0,
        bits::field(r.config.0, 11, 3) == channel_config.direction.value(),
        bits::field(r.config.0, 20, 10) == 0,
        bits::field(r.config.0, 14, 1) == 1,
        bits::field(r.config.0, 15, 1) == 1,
        bits::field(r.config.0, 1, 5) == 0,
        bits::field(r.config.0, 6, 5) == 0,
{
    proof {
        lemma_setup_control_fields(
            control.0,
            channel_config.src_addr_inc,
            channel_config.dst_addr_inc,
            channel_config.src_transfer_width,
            channel_config.dst_transfer_width,
            channel_config.src_burst_size,
            channel_config.dst_burst_size,
        );
        lemma_setup_config_fields(config.0, channel_config.direction, None, None);
    }
    let cfg = config.disable_ch();
    let ctl = if channel_config.src_addr_inc {
        control.enable_src_addr_inc()
    } else {
        control.disable_src_addr_inc()
    };
    let ctl = if channel_config.dst_addr_inc {
        ctl.enable_dst_addr_inc()
    } else {
        ctl.disable_dst_addr_inc()
    };
    let ctl = ctl.set_src_transfer_width(channel_config.src_transfer_width).set_dst_transfer_width(
        channel_config.dst_transfer_width,
    ).set_src_bst_size(channel_config.src_burst_size).set_dst_bst_size(channel_config.dst_burst_size);
    let cfg = cfg.set_dma_mode(channel_config.direction).set_lli_cnt(0);
    let cfg = cfg.clear_src_periph().clear_dst_periph();
    let cfg = cfg.enable_cplt_int().enable_err_int();
    let ctl = ctl.disable_cplt_int();
    let id: u8 = channel_id as u8;
    let complete_clear = TransferCompleteClear(0).clear_cplt_int(id);
    let error_clear = ErrorClear(0).clear_err_int(id);
    let c: u8 = complete_clear.0;
    let e: u8 = error_clear.0;
    proof {
        assert(c == 1u8 << id && e == 1u8 << id) by (bit_vector)
            requires
                c == 0u8 | (1u8 << id),
                e == 0u8 | (1u8 << id),
        ;
    }
    ChannelSetup { config: cfg, control: ctl, complete_clear, error_clear }
}

/// Makes the chain continuous: the item at `used_count - 1` links back to
/// the first item of the pool. Returns the link of the first item, which
/// the channel's linked list item register is then set to.
pub fn lli_link_head(pool: &mut Vec<LliPool>, pool_addr: u32, used_count: usize) -> (r: u32)
    requires
        1 <= used_count <= old(pool)@.len(),
    ensures
        final(pool)@ == old(pool)@.update(
            used_count - 1,
            LliPool { next_lli: pool_addr, ..old(pool)@[used_count - 1] },
        ),
        r == final(pool)@[0].next_lli,
{
    pool[used_count - 1].next_lli = pool_addr;
    pool[0].next_lli
}

/// Whether `addr` lies in a cacheable region: the data tightly coupled
/// memory `0x2000_0000..=0x2003_FFFF` or the main memory
/// `0x6000_0000..=0x60FF_FFFF`.
pub fn check_cache_addr(addr: usize) -> (r: bool)
    ensures
        r == ((0x2000_0000 <= addr <= 0x2003_FFFF) || (0x6000_0000 <= addr <= 0x60FF_FFFF)),
{
    (addr >= 0x2000_0000 && addr <= 0x2003_FFFF) || (addr >= 0x6000_0000 && addr <= 0x60FF_FFFF)
}

/// Start of the 32-byte cache line that holds `addr`.
pub open spec fn line_floor(addr: int) -> int {
    addr - addr % 32
}

/// The cache lines that writing back `len` bytes from `addr` cleans: the
/// start address of every 32-byte line that meets the range, in order, or
/// none when `addr` is not cacheable.
pub fn dcache_clean_lines(addr: usize, len: usize) -> (r: Vec<usize>)
    requires
        ((0x2000_0000 <= addr <= 0x2003_FFFF) || (0x6000_0000 <= addr <= 0x60FF_FFFF)) ==> addr + len + 31
            <= usize::MAX,
    ensures
        !((0x2000_0000 <= addr <= 0x2003_FFFF) || (0x6000_0000 <= addr <= 0x60FF_FFFF)) ==> r@.len() == 0,
        ((0x2000_0000 <= addr <= 0x2003_FFFF) || (0x6000_0000 <= addr <= 0x60FF_FFFF)) ==> {
            &&& line_floor(addr as int) + 32 * r@.len() == line_floor(addr + len + 31)
            &&& forall|i: int| 0 <= i < r@.len() ==> #[trigger] r@[i] == line_floor(addr as int) + 32 * i
        },
{
    let mut lines: Vec<usize> = Vec::new();
    if !check_cache_addr(addr) {
        return lines;
    }
    let start: usize = addr & !31usize;
    let top: usize = addr + len + 31;
    let end: usize = top & !31usize;
    assert(start == addr - addr % 32 && end == top - top % 32 && start % 32 == 0 && end % 32 == 0)
        by (bit_vector)
        requires
            start == addr & !31usize,
            end == top & !31usize,
    ;
    assert(start <= end);
    let mut current: usize = start;
    while current < end
        invariant
            start <= current <= end,
            current % 32 == 0,
            end % 32 == 0,
            start + 32 * lines@.len() == current,
            forall|i: int| 0 <= i < lines@.len() ==> #[trigger] lines@[i] == start + 32 * i,
        decreases end - current,
    {
        lines.push(current);
        current = current + 32;
    }
    lines
}

} // verus!
