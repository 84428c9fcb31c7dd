//! The D1's DMA controller (DMAC): descriptor encoding, the channels'
//! interrupt-enable bits, descriptor address registers, and the pool of
//! channels that drivers claim.
use vstd::prelude::*;

pub mod config;
pub mod descriptor;

verus! {

/// DMA channel modes: what the DMAC does when a transfer's block completes.
#[derive(Copy, Clone, Debug, PartialEq, Eq, Structural)]
pub enum ChannelMode {
    /// Wait a configurable number of clock cycles, then start the next
    /// transfer.
    Wait,
    /// Send the peripheral a DMA Ack and wait for it to drop DMA Active
    /// before the next transfer.
    Handshake,
}

/// The value written to a channel's `DMAC_MODE` register: the source mode
/// at bit 2 and the destination mode at bit 3, each 1 for handshake mode.
pub open spec fn mode_word(src: ChannelMode, dst: ChannelMode) -> int {
    (if src == ChannelMode::Handshake { 4int } else { 0int }) + (if dst == ChannelMode::Handshake {
        8int
    } else {
        0int
    })
}

/// The `DMAC_MODE` register value for a channel's source and destination
/// modes.
pub fn channel_mode_word(src: ChannelMode, dst: ChannelMode) -> (r: u32)
    ensures
        r == mode_word(src, dst),
{
    let s: u32 = match src {
        ChannelMode::Wait => 0,
        ChannelMode::Handshake => 4,
    };
    let d: u32 = match dst {
        ChannelMode::Wait => 0,
        ChannelMode::Handshake => 8,
    };
    s + d
}

/// The offset of the `DMA_QUEUE_IRQ_EN` bit of channel `idx` within its
/// `DMAC_IRQ_EN` register: each channel has four bits, and the queue
/// interrupt enable is the third of them.
pub open spec fn queue_irq_offset(idx: int) -> int {
    idx * 4 + 2
}

/// Returns the offset of the `DMA_QUEUE_IRQ_EN` bit for a channel index.
pub fn queue_irq_en_offset(idx: u8) -> (r: u8)
    requires
        idx <= 63,
    ensures
        r == queue_irq_offset(idx as int),
{
    (idx * 4) + 2
}

/// Sets the `DMA_QUEUE_IRQ_EN` bit of channel `idx` (0 to 7 within its
/// register) in the register value `bits`.
pub fn set_queue_irq_en(idx: u8, bits: u32) -> (r: u32)
    requires
        idx < 8,
    ensures
        r == bits | (1u32 << (queue_irq_offset(idx as int) as u32)),
{
    let off = queue_irq_en_offset(idx);
    bits | (1u32 << off)
}

/// The queue-interrupt-enable bits of all eight channels of one register.
pub open spec fn all_queue_irqs() -> u32 {
    0x4444_4444
}

/// Enables the queue interrupt of all sixteen channels: channels 0 to 7 in
/// `DMAC_IRQ_EN0`, channels 8 to 15 in `DMAC_IRQ_EN1`. Other bits are kept.
pub fn enable_all_queue_irqs(en0: u32, en1: u32) -> (r: (u32, u32))
    ensures
        r.0 == en0 | all_queue_irqs(),
        r.1 == en1 | all_queue_irqs(),
{
    let mut e0 = en0;
    let mut e1 = en1;
    let mut idx: u8 = 0;
    assert(en0 | 0u32 == en0 && en1 | 0u32 == en1) by (bit_vector);
    while idx < 16
        invariant
            idx <= 16,
            e0 == en0 | (if idx >= 8 { 0x4444_4444u32 } else { low_mask(idx as u32) }),
            e1 == en1 | (if idx <= 8 { 0u32 } else { low_mask((idx - 8) as u32) }),
        decreases 16 - idx,
    {
        if idx < 8 {
            e0 = set_queue_irq_en(idx, e0);
            proof { lemma_low_mask_step(en0, idx as u32); }
        } else {
            e1 = set_queue_irq_en(idx - 8, e1);
            proof { lemma_low_mask_step(en1, (idx - 8) as u32); }
        }
        idx += 1;
    }
    (e0, e1)
}

/// The queue-interrupt-enable bits of the first `n` channels of a register.
pub open spec fn low_mask(n: u32) -> u32 {
    if n == 0 {
        0
    } else if n == 1 {
        0x4
    } else if n == 2 {
        0x44
    } else if n == 3 {
        0x444
    } else if n == 4 {
        0x4444
    } else if n == 5 {
        0x4_4444
    } else if n == 6 {
        0x44_4444
    } else if n == 7 {
        0x444_4444
    } else {
        0x4444_4444
    }
}

proof fn lemma_low_mask_step(x: u32, n: u32)
    requires
        n < 8,
    ensures
        (x | low_mask(n)) | (1u32 << ((n * 4 + 2) as u32)) == x | low_mask((n + 1) as u32),
{
    assert((x | low_mask(n)) | (1u32 << ((n * 4 + 2) as u32)) == x | low_mask((n + 1) as u32)) by (bit_vector)
        requires
            n < 8,
            low_mask(n) == (if n == 0 { 0u32 } else if n == 1 { 0x4u32 } else if n == 2 { 0x44u32 } else if n == 3 { 0x444u32 } else if n == 4 { 0x4444u32 } else if n == 5 { 0x4_4444u32 } else if n == 6 { 0x44_4444u32 } else { 0x444_4444u32 }),
            low_mask((n + 1) as u32) == (if n == 0 { 0x4u32 } else if n == 1 { 0x44u32 } else if n == 2 { 0x444u32 } else if n == 3 { 0x4444u32 } else if n == 4 { 0x4_4444u32 } else if n == 5 { 0x44_4444u32 } else if n == 6 { 0x444_4444u32 } else { 0x4444_4444u32 }),
    ;
}

/// Whether channel `i` (0 to 15) has its queue interrupt pending: channels 0
/// to 7 in `DMAC_IRQ_PEND0`, channels 8 to 15 in `DMAC_IRQ_PEND1`, each at
/// the same bit as its interrupt enable.
pub open spec fn channel_pending(pend0: u32, pend1: u32, i: int) -> bool {
    let reg = if i < 8 { pend0 } else { pend1 };
    (reg >> (queue_irq_offset(i % 8) as u32)) & 1 == 1
}

/// The channels whose queue interrupt is pending, in ascending order: the
/// channels the interrupt handler wakes.
pub fn pending_channels(pend0: u32, pend1: u32) -> (r: Vec<u8>)
    ensures
        forall|k: int| 0 <= k < r@.len() ==> #[trigger] r@[k] < 16 && channel_pending(pend0, pend1, r@[k] as int),
        forall|k: int, l: int| 0 <= k < l < r@.len() ==> r@[k] < r@[l],
        forall|i: int| 0 <= i < 16 && channel_pending(pend0, pend1, i) ==> r@.contains(i as u8),
{
    let mut r: Vec<u8> = Vec::new();
    let mut i: u8 = 0;
    while i < 16
        invariant
            i <= 16,
            forall|k: int| 0 <= k < r@.len() ==> #[trigger] r@[k] < i && channel_pending(pend0, pend1, r@[k] as int),
            forall|k: int, l: int| 0 <= k < l < r@.len() ==> r@[k] < r@[l],
            forall|j: int| 0 <= j < i && channel_pending(pend0, pend1, j) ==> r@.contains(j as u8),
        decreases 16 - i,
    {
        let reg = if i < 8 { pend0 } else { pend1 };
        let off = queue_irq_en_offset(i % 8);
        let pending = (reg >> (off as u32)) & 1 == 1;
        assert(pending == channel_pending(pend0, pend1, i as int));
        let ghost r0 = r@;
        if pending {
            r.push(i);
        }
        proof {
            assert(r@ == r0 || r@ == r0.push(i));
            assert(pending ==> r@ == r0.push(i));
            assert forall|j: int| 0 <= j < i + 1 && channel_pending(pend0, pend1, j) implies r@.contains(j as u8) by {
                if j < i {
                    let k = choose|k: int| 0 <= k < r0.len() && r0[k] == j as u8;
                    assert(r@[k] == r0[k]);
                } else {
                    assert(r@[r@.len() - 1] == i);
                }
            }
        }
        i += 1;
    }
    r
}

/// The two fields of a channel's `DMAC_DESC_ADDR` register for a descriptor
/// at `addr`: the word address (bits 2 to 31 of the address, as written to
/// the 30-bit `DMA_DESC_ADDR` field) and the two address bits above 32.
pub fn desc_addr_fields(addr: usize) -> (r: (u32, u8))
    ensures
        r.0 == ((addr as int / 4) % 0x1_0000_0000int) as u32,
        r.1 == ((addr as int / 0x1_0000_0000int) % 4) as u8,
{
    let a = addr as u64;
    let low = ((a >> 2u64) & 0xffff_ffff) as u32;
    let high = ((a >> 32u64) & 3) as u8;
    assert(low as u64 == (a / 4) % 0x1_0000_0000u64) by (bit_vector)
        requires low == ((a >> 2u64) & 0xffff_ffff) as u32;
    assert(high as u64 == (a / 0x1_0000_0000u64) % 4) by (bit_vector)
        requires high == ((a >> 32u64) & 3) as u8;
    (low, high)
}

/// A claimed DMA channel.
#[derive(Debug, PartialEq, Eq)]
pub struct Channel {
    pub idx: u8,
}

impl Channel {
    /// The channel's index, from 0 to 15.
    pub fn channel_index(&self) -> (r: u8)
        ensures
            r == self.idx,
    {
        self.idx
    }
}

/// The DMA controller's pool of sixteen channels: bit `i` of `claims` is
/// set while channel `i` is claimed.
#[derive(Debug)]
pub struct Dmac {
    pub claims: u16,
}

/// Whether channel `i` is claimed.
pub open spec fn is_claimed(claims: u16, i: int) -> bool {
    (claims >> (i as u16)) & 1 == 1
}

impl Dmac {
    /// The total number of DMA channels.
    pub const CHANNEL_COUNT: u8 = 16;

    /// A pool with every channel idle.
    pub fn new() -> (r: Dmac)
        ensures
            forall|i: int| 0 <= i < 16 ==> !is_claimed(r.claims, i),
    {
        let r = Dmac { claims: 0 };
        assert forall|i: int| 0 <= i < 16 implies !is_claimed(r.claims, i) by {
            let k = i as u16;
            assert((0u16 >> k) & 1 != 1) by (bit_vector);
        }
        r
    }

    /// Claims an idle channel, if one is available (the lowest-numbered).
    ///
    /// Returns `None` when all sixteen channels are claimed.
    pub fn try_claim_channel(&mut self) -> (r: Option<Channel>)
        ensures
            match r {
                None => forall|i: int| 0 <= i < 16 ==> is_claimed(old(self).claims, i),
                Some(ch) => {
                    &&& ch.idx < 16
                    &&& !is_claimed(old(self).claims, ch.idx as int)
                    &&& is_claimed(final(self).claims, ch.idx as int)
                    &&& forall|i: int| 0 <= i < 16 && i != ch.idx ==> is_claimed(final(self).claims, i)
                        == is_claimed(old(self).claims, i)
                },
            },
            r is None ==> final(self).claims == old(self).claims,
    {
        let mut i: u16 = 0;
        while i < 16
            invariant
                i <= 16,
                *self == *old(self),
                forall|j: int| 0 <= j < i ==> is_claimed(self.claims, j),
            decreases 16 - i,
        {
            let c = self.claims;
            if (c >> i) & 1 == 0 {
                let n = c | (1u16 << i);
                proof {
                    assert forall|j: int| 0 <= j < 16 && j != i implies is_claimed(n, j) == is_claimed(c, j) by {
                        let k = j as u16;
                        assert(((c | (1u16 << i)) >> k) & 1 == (c >> k) & 1) by (bit_vector)
                            requires k != i, i < 16, k < 16;
                    }
                    assert(is_claimed(n, i as int)) by {
                        assert(((c | (1u16 << i)) >> i) & 1 == 1) by (bit_vector)
                            requires i < 16;
                    }
                }
                self.claims = n;
                return Some(Channel { idx: i as u8 });
            }
            proof {
                assert((c >> i) & 1 == 1) by (bit_vector)
                    requires (c >> i) & 1 != 0;
            }
            i += 1;
        }
        None
    }

    /// Releases a claimed channel back to the pool.
    pub fn release(&mut self, channel: Channel)
        requires
            channel.idx < 16,
        ensures
            !is_claimed(final(self).claims, channel.idx as int),
            forall|i: int| 0 <= i < 16 && i != channel.idx ==> is_claimed(final(self).claims, i)
                == is_claimed(old(self).claims, i),
    {
        let c = self.claims;
        let k = channel.idx as u16;
        let n = c & !(1u16 << k);
        proof {
            assert forall|j: int| 0 <= j < 16 && j != k implies is_claimed(n, j) == is_claimed(c, j) by {
                let m = j as u16;
                assert(((c & !(1u16 << k)) >> m) & 1 == (c >> m) & 1) by (bit_vector)
                    requires m != k, k < 16, m < 16;
            }
            assert(((c & !(1u16 << k)) >> k) & 1 != 1) by (bit_vector)
                requires k < 16;
        }
        self.claims = n;
    }
}

/// Claiming a channel and releasing it again leaves every channel as it was.
pub proof fn lemma_claim_release_roundtrip(before: u16, claimed: u16, after: u16, idx: int)
    requires
        0 <= idx < 16,
        !is_claimed(before, idx),
        is_claimed(claimed, idx),
        forall|i: int| 0 <= i < 16 && i != idx ==> is_claimed(claimed, i) == is_claimed(before, i),
        !is_claimed(after, idx),
        forall|i: int| 0 <= i < 16 && i != idx ==> is_claimed(after, i) == is_claimed(claimed, i),
    ensures
        forall|i: int| 0 <= i < 16 ==> is_claimed(after, i) == is_claimed(before, i),
{
}

} // verus!
