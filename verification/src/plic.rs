//! The platform-level interrupt controller: interrupt priorities, the
//! enable-register bit of each interrupt, and the table of interrupt
//! vectors that the dispatcher and the registration consult.
use vstd::prelude::*;

verus! {

/// An interrupt priority, from 0 (never raised) to 31.
#[derive(Clone, Copy, Debug, PartialEq, Eq, Structural)]
pub enum Priority {
    P0,
    P1,
    P2,
    P3,
    P4,
    P5,
    P6,
    P7,
    P8,
    P9,
    P10,
    P11,
    P12,
    P13,
    P14,
    P15,
    P16,
    P17,
    P18,
    P19,
    P20,
    P21,
    P22,
    P23,
    P24,
    P25,
    P26,
    P27,
    P28,
    P29,
    P30,
    P31,
}

/// The register value of a priority.
pub open spec fn priority_bits(p: Priority) -> u32 {
    match p {
        Priority::P0 => 0,
        Priority::P1 => 1,
        Priority::P2 => 2,
        Priority::P3 => 3,
        Priority::P4 => 4,
        Priority::P5 => 5,
        Priority::P6 => 6,
        Priority::P7 => 7,
        Priority::P8 => 8,
        Priority::P9 => 9,
        Priority::P10 => 10,
        Priority::P11 => 11,
        Priority::P12 => 12,
        Priority::P13 => 13,
        Priority::P14 => 14,
        Priority::P15 => 15,
        Priority::P16 => 16,
        Priority::P17 => 17,
        Priority::P18 => 18,
        Priority::P19 => 19,
        Priority::P20 => 20,
        Priority::P21 => 21,
        Priority::P22 => 22,
        Priority::P23 => 23,
        Priority::P24 => 24,
        Priority::P25 => 25,
        Priority::P26 => 26,
        Priority::P27 => 27,
        Priority::P28 => 28,
        Priority::P29 => 29,
        Priority::P30 => 30,
        Priority::P31 => 31,
    }
}

/// The value is not a priority (above 31).
#[derive(Clone, Copy, Debug)]
pub struct TryFromPriorityError(());

impl Priority {
    /// The register value.
    pub fn into_bits(self) -> (r: u32)
        ensures
            r == priority_bits(self),
    {
        match self {
            Priority::P0 => 0,
            Priority::P1 => 1,
            Priority::P2 => 2,
            Priority::P3 => 3,
            Priority::P4 => 4,
            Priority::P5 => 5,
            Priority::P6 => 6,
            Priority::P7 => 7,
            Priority::P8 => 8,
            Priority::P9 => 9,
            Priority::P10 => 10,
            Priority::P11 => 11,
            Priority::P12 => 12,
            Priority::P13 => 13,
            Priority::P14 => 14,
            Priority::P15 => 15,
            Priority::P16 => 16,
            Priority::P17 => 17,
            Priority::P18 => 18,
            Priority::P19 => 19,
            Priority::P20 => 20,
            Priority::P21 => 21,
            Priority::P22 => 22,
            Priority::P23 => 23,
            Priority::P24 => 24,
            Priority::P25 => 25,
            Priority::P26 => 26,
            Priority::P27 => 27,
            Priority::P28 => 28,
            Priority::P29 => 29,
            Priority::P30 => 30,
            Priority::P31 => 31,
        }
    }

    /// The priority with a register value; values above 31 are refused.
    pub fn try_from_bits(bits: u32) -> (r: Result<Priority, TryFromPriorityError>)
        ensures
            bits < 32 ==> r is Ok && priority_bits(r->Ok_0) == bits,
            bits >= 32 ==> r is Err,
    {
        match bits {
            0 => Ok(Priority::P0),
            1 => Ok(Priority::P1),
            2 => Ok(Priority::P2),
            3 => Ok(Priority::P3),
            4 => Ok(Priority::P4),
            5 => Ok(Priority::P5),
            6 => Ok(Priority::P6),
            7 => Ok(Priority::P7),
            8 => Ok(Priority::P8),
            9 => Ok(Priority::P9),
            10 => Ok(Priority::P10),
            11 => Ok(Priority::P11),
            12 => Ok(Priority::P12),
            13 => Ok(Priority::P13),
            14 => Ok(Priority::P14),
            15 => Ok(Priority::P15),
            16 => Ok(Priority::P16),
            17 => Ok(Priority::P17),
            18 => Ok(Priority::P18),
            19 => Ok(Priority::P19),
            20 => Ok(Priority::P20),
            21 => Ok(Priority::P21),
            22 => Ok(Priority::P22),
            23 => Ok(Priority::P23),
            24 => Ok(Priority::P24),
            25 => Ok(Priority::P25),
            26 => Ok(Priority::P26),
            27 => Ok(Priority::P27),
            28 => Ok(Priority::P28),
            29 => Ok(Priority::P29),
            30 => Ok(Priority::P30),
            31 => Ok(Priority::P31),
            _ => Err(TryFromPriorityError(())),
        }
    }
}

/// A priority's register value is its level: `P0` is 0 (never
/// interrupts), `P1` is 1, up to `P31` at 31.
pub proof fn lemma_priority_values()
    ensures
        priority_bits(Priority::P0) == 0,
        priority_bits(Priority::P1) == 1,
        priority_bits(Priority::P2) == 2,
        priority_bits(Priority::P3) == 3,
        priority_bits(Priority::P4) == 4,
        priority_bits(Priority::P5) == 5,
        priority_bits(Priority::P6) == 6,
        priority_bits(Priority::P7) == 7,
        priority_bits(Priority::P8) == 8,
        priority_bits(Priority::P9) == 9,
        priority_bits(Priority::P10) == 10,
        priority_bits(Priority::P11) == 11,
        priority_bits(Priority::P12) == 12,
        priority_bits(Priority::P13) == 13,
        priority_bits(Priority::P14) == 14,
        priority_bits(Priority::P15) == 15,
        priority_bits(Priority::P16) == 16,
        priority_bits(Priority::P17) == 17,
        priority_bits(Priority::P18) == 18,
        priority_bits(Priority::P19) == 19,
        priority_bits(Priority::P20) == 20,
        priority_bits(Priority::P21) == 21,
        priority_bits(Priority::P22) == 22,
        priority_bits(Priority::P23) == 23,
        priority_bits(Priority::P24) == 24,
        priority_bits(Priority::P25) == 25,
        priority_bits(Priority::P26) == 26,
        priority_bits(Priority::P27) == 27,
        priority_bits(Priority::P28) == 28,
        priority_bits(Priority::P29) == 29,
        priority_bits(Priority::P30) == 30,
        priority_bits(Priority::P31) == 31,
{
}

/// Reading a priority back from its register value gives the priority.
pub proof fn lemma_priority_roundtrip(p: Priority)
    ensures
        priority_bits(p) < 32,
        forall|q: Priority| priority_bits(q) == priority_bits(p) ==> q == p,
{
}

/// The interrupt numbers that have a vector, in ascending order: UART0-5
/// (18-23), TWI0-3 (25-28), SPI0-1 (31, 32), PWM (34), IR TX (35), LEDC
/// (36), OWA (39), DMIC (40), audio codec (41), I2S/PCM0-2 (42-44), USB0
/// device, EHCI, OHCI (45-47), USB1 EHCI, OHCI (49, 50), SMHC0-2 (56-58),
/// EMAC (62), DMAC (66), CE (68), spinlock (70), HS timers 0-1 (71, 72),
/// GPADC (73), THS (74), timers 0-1 (75, 76), LRADC (77), TPADC (78),
/// watchdog (79), IOMMU (80), GPIO B-F (85, 87, 89, 91, 93), CSI DMA0-1
/// (111, 112), CSI top (122), TVD (123), the mailboxes (140, 144, 145) and
/// IR RX (167).
pub open spec fn interrupt_list() -> Seq<u16> {
    seq![18, 19, 20, 21, 22, 23, 25, 26, 27, 28, 31, 32, 34, 35, 36, 39, 40, 41, 42, 43, 44, 45, 46, 47, 49, 50, 56, 57, 58, 62, 66, 68, 70, 71, 72, 73, 74, 75, 76, 77, 78, 79, 80, 85, 87, 89, 91, 93, 111, 112, 122, 123, 140, 144, 145, 167]
}

/// The vectored interrupts are listed once each, in ascending order, and
/// include those the platform's drivers use: UART0 (18), TWI0 (25), SPI1
/// (32), SMHC0 (56), DMAC (66), timers 0 and 1 (75, 76) and GPIO B (85).
pub proof fn lemma_interrupt_list_shape()
    ensures
        interrupt_list().len() == 56,
        forall|i: int, j: int| 0 <= i < j < interrupt_list().len() ==> interrupt_list()[i] < interrupt_list()[j],
        interrupt_list()[0] == 18,
        interrupt_list()[6] == 25,
        interrupt_list()[11] == 32,
        interrupt_list()[26] == 56,
        interrupt_list()[30] == 66,
        interrupt_list()[37] == 75 && interrupt_list()[38] == 76,
        interrupt_list()[43] == 85,
{
    let l = interrupt_list();
    assert forall|k: int| 0 <= k < l.len() - 1 implies #[trigger] l[k] < l[k + 1] by {}
    assert forall|i: int, j: int| 0 <= i < j < l.len() implies l[i] < l[j] by {
        lemma_ascending_from_steps(l, i, j);
    }
}

/// A sequence that grows at every step grows between any two positions.
proof fn lemma_ascending_from_steps(l: Seq<u16>, i: int, j: int)
    requires
        0 <= i < j < l.len(),
        forall|k: int| 0 <= k < l.len() - 1 ==> #[trigger] l[k] < l[k + 1],
    ensures
        l[i] < l[j],
    decreases j - i,
{
    if j > i + 1 {
        lemma_ascending_from_steps(l, i, j - 1);
        assert(l[j - 1] < l[(j - 1) + 1]);
    }
}

/// The interrupt numbers that have a vector.
pub fn interrupt_list_vec() -> (v: Vec<u16>)
    ensures
        v@ == interrupt_list(),
{
    let v: Vec<u16> = vec![18, 19, 20, 21, 22, 23, 25, 26, 27, 28, 31, 32, 34, 35, 36, 39, 40, 41, 42, 43, 44, 45, 46, 47, 49, 50, 56, 57, 58, 62, 66, 68, 70, 71, 72, 73, 74, 75, 76, 77, 78, 79, 80, 85, 87, 89, 91, 93, 111, 112, 122, 123, 140, 144, 145, 167];
    v
}

/// The enable register and bit of interrupt `nr`: register `nr / 32`, bit
/// `nr % 32`.
pub fn index_mie(nr: u32) -> (r: (usize, u32))
    ensures
        r.0 == nr / 32,
        r.1 == 1u32 << (nr % 32),
{
    ((nr / 32) as usize, 1u32 << (nr % 32))
}

/// An enable register with the interrupt's bit set.
pub fn unmask_bits(reg: u32, irq_en: u32) -> (r: u32)
    ensures
        r == reg | irq_en,
{
    reg | irq_en
}

/// An enable register with the interrupt's bit cleared.
pub fn mask_bits(reg: u32, irq_en: u32) -> (r: u32)
    ensures
        r == reg & !irq_en,
{
    reg & !irq_en
}

/// Unmasking sets exactly the interrupt's bit, masking clears exactly it,
/// and masking after unmasking gives back the register with that bit clear.
pub proof fn lemma_mask_unmask(reg: u32, k: u32)
    requires
        k < 32,
    ensures
        (reg | (1u32 << k)) >> k & 1 == 1,
        (reg & !(1u32 << k)) >> k & 1 == 0,
        forall|j: u32| j < 32 && j != k ==> #[trigger] ((reg | (1u32 << k)) >> j & 1) == reg >> j & 1
            && (reg & !(1u32 << k)) >> j & 1 == reg >> j & 1,
        (reg | (1u32 << k)) & !(1u32 << k) == reg & !(1u32 << k),
{
    assert((reg | (1u32 << k)) >> k & 1 == 1 && (reg & !(1u32 << k)) >> k & 1 == 0
        && (reg | (1u32 << k)) & !(1u32 << k) == reg & !(1u32 << k)) by (bit_vector)
        requires k < 32;
    assert forall|j: u32| j < 32 && j != k implies #[trigger] ((reg | (1u32 << k)) >> j & 1) == reg
        >> j & 1 && (reg & !(1u32 << k)) >> j & 1 == reg >> j & 1 by {
        assert(((reg | (1u32 << k)) >> j & 1) == reg >> j & 1 && (reg & !(1u32 << k)) >> j & 1 == reg
            >> j & 1) by (bit_vector)
            requires k < 32, j < 32, j != k;
    }
}


/// The largest of the first `n` numbers of `s` (0 for none).
pub open spec fn list_max(s: Seq<u16>, n: int) -> int
    decreases n,
{
    if n <= 0 {
        0
    } else {
        let m = list_max(s, n - 1);
        if s[n - 1] > m { s[n - 1] as int } else { m }
    }
}

/// How many vectors the table has: one past the largest interrupt number.
pub open spec fn n_interrupts() -> int {
    list_max(interrupt_list(), interrupt_list().len() as int) + 1
}

/// One entry of the vector table.
#[derive(Clone, Copy, Debug, PartialEq, Eq, Structural)]
pub struct Vectored {
    /// The interrupt this entry is for; `None` where no interrupt has that
    /// number.
    pub id: Option<u16>,
    /// Whether a handler is installed. Entries without an interrupt hold a
    /// handler that traps.
    pub has_handler: bool,
}

/// Why an interrupt cannot be enabled or disabled.
#[derive(Clone, Copy, Debug, PartialEq, Eq, Structural)]
pub enum MaskError {
    /// No such interrupt is in the table.
    NotFound(u16),
    /// The interrupt has no handler.
    NoHandler(u16),
}

/// The vector table, indexed by interrupt number.
pub struct InterruptTable {
    pub vectors: Vec<Vectored>,
}

/// The entry that the table starts with at number `i`.
pub open spec fn initial_vector(i: int) -> Vectored {
    if interrupt_list().contains(i as u16) {
        Vectored { id: Some(i as u16), has_handler: false }
    } else {
        Vectored { id: None, has_handler: true }
    }
}

/// The outcome of checking whether interrupt `nr` can be enabled or
/// disabled.
pub open spec fn can_mask_result(vectors: Seq<Vectored>, nr: u16) -> Result<(), MaskError> {
    if nr >= vectors.len() || vectors[nr as int].id != Some(nr) {
        Err(MaskError::NotFound(nr))
    } else if !vectors[nr as int].has_handler {
        Err(MaskError::NoHandler(nr))
    } else {
        Ok(())
    }
}

proof fn lemma_list_max_bound(s: Seq<u16>, n: int)
    requires
        0 <= n <= s.len(),
    ensures
        forall|j: int| 0 <= j < n ==> s[j] <= list_max(s, n),
        0 <= list_max(s, n) <= u16::MAX,
    decreases n,
{
    if n > 0 {
        lemma_list_max_bound(s, n - 1);
    }
}

impl InterruptTable {
    /// The table with every listed interrupt at its own number, without a
    /// handler, and trapping entries elsewhere.
    pub fn new() -> (t: InterruptTable)
        ensures
            t.vectors@.len() == n_interrupts(),
            forall|i: int| 0 <= i < t.vectors@.len() ==> #[trigger] t.vectors@[i] == initial_vector(i),
    {
        let list = interrupt_list_vec();
        let ghost s = list@;
        proof {
            lemma_list_max_bound(s, s.len() as int);
        }
        let mut max: u16 = 0;
        let mut i: usize = 0;
        while i < list.len()
            invariant
                list@ == s,
                s == interrupt_list(),
                i <= s.len(),
                max == list_max(s, i as int),
            decreases s.len() - i,
        {
            if list[i] > max {
                max = list[i];
            }
            i += 1;
        }
        let n: usize = max as usize + 1;
        let mut vectors: Vec<Vectored> = Vec::new();
        let mut k: usize = 0;
        while k < n
            invariant
                k <= n,
                vectors@.len() == k,
                forall|j: int| 0 <= j < k ==> #[trigger] vectors@[j] == (Vectored { id: None, has_handler: true }),
            decreases n - k,
        {
            vectors.push(Vectored { id: None, has_handler: true });
            k += 1;
        }
        let mut i: usize = 0;
        while i < list.len()
            invariant
                list@ == s,
                s == interrupt_list(),
                i <= s.len(),
                n == list_max(s, s.len() as int) + 1,
                vectors@.len() == n,
                forall|j: int| 0 <= j < s.len() ==> s[j] <= list_max(s, s.len() as int),
                forall|j: int| 0 <= j < n ==> #[trigger] vectors@[j] == (if exists|m: int| 0 <= m < i && s[m] == j {
                    Vectored { id: Some(j as u16), has_handler: false }
                } else {
                    Vectored { id: None, has_handler: true }
                }),
            decreases s.len() - i,
        {
            let nr = list[i];
            vectors.set(nr as usize, Vectored { id: Some(nr), has_handler: false });
            proof {
                assert forall|j: int| 0 <= j < n implies #[trigger] vectors@[j] == (if exists|m: int| 0 <= m < i + 1 && s[m] == j {
                    Vectored { id: Some(j as u16), has_handler: false }
                } else {
                    Vectored { id: None, has_handler: true }
                }) by {
                    if j == nr {
                        assert(s[i as int] == j);
                    } else {
                        if exists|m: int| 0 <= m < i + 1 && s[m] == j {
                            let m = choose|m: int| 0 <= m < i + 1 && s[m] == j;
                            assert(m != i);
                        }
                    }
                }
            }
            i += 1;
        }
        proof {
            assert forall|j: int| 0 <= j < n implies #[trigger] vectors@[j] == initial_vector(j) by {
                if s.contains(j as u16) {
                    let m = choose|m: int| 0 <= m < s.len() && s[m] == j as u16;
                    assert(s[m] == j);
                } else {
                    if exists|m: int| 0 <= m < s.len() && s[m] == j {
                        let m = choose|m: int| 0 <= m < s.len() && s[m] == j;
                        assert(s[m] == j as u16);
                    }
                }
            }
        }
        InterruptTable { vectors }
    }

    /// Installs the handler of interrupt `nr`, which must be in the table.
    pub fn register(&mut self, nr: u16)
        requires
            nr < old(self).vectors@.len(),
            old(self).vectors@[nr as int].id == Some(nr),
        ensures
            final(self).vectors@ == old(self).vectors@.update(nr as int, Vectored { id: Some(nr), has_handler: true }),
    {
        self.vectors.set(nr as usize, Vectored { id: Some(nr), has_handler: true });
    }

    /// Whether interrupt `nr` can be enabled or disabled: it must be in the
    /// table and have a handler.
    pub fn can_mask(&self, nr: u16) -> (r: Result<(), MaskError>)
        ensures
            r == can_mask_result(self.vectors@, nr),
    {
        if nr as usize >= self.vectors.len() {
            return Err(MaskError::NotFound(nr));
        }
        let v = self.vectors[nr as usize];
        match v.id {
            Some(id) => {
                if id != nr {
                    return Err(MaskError::NotFound(nr));
                }
            },
            None => {
                return Err(MaskError::NotFound(nr));
            },
        }
        if !v.has_handler {
            return Err(MaskError::NoHandler(nr));
        }
        Ok(())
    }

    /// Whether a claimed interrupt has a handler to call; one without is
    /// left alone.
    pub fn handler_registered(&self, nr: u16) -> (r: bool)
        requires
            nr < self.vectors@.len(),
        ensures
            r == self.vectors@[nr as int].has_handler,
    {
        self.vectors[nr as usize].has_handler
    }
}

/// Once a listed interrupt's handler is installed, it can be enabled and
/// disabled; before that it cannot, and a number without an interrupt never
/// can.
pub proof fn lemma_register_then_can_mask(vectors: Seq<Vectored>, nr: u16)
    requires
        nr < vectors.len(),
        vectors[nr as int].id == Some(nr),
    ensures
        can_mask_result(vectors.update(nr as int, Vectored { id: Some(nr), has_handler: true }), nr) == Ok::<(), MaskError>(()),
        !vectors[nr as int].has_handler ==> can_mask_result(vectors, nr) == Err::<(), MaskError>(MaskError::NoHandler(nr)),
{
}
} // verus!
