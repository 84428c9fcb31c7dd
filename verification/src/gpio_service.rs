//! The GPIO service's pin ownership: which pins are claimed, for what, and
//! which requests to claim them succeed.
use vstd::prelude::*;

use crate::gpio::{
    pin_b_index, pin_c_index, pin_d_index, pin_e_index, pin_f_index, pin_g_index, Pin, PinC, PinD,
};

verus! {

/// The GPIO service.
pub struct GpioService;

/// Interrupt trigger modes a pin can be claimed for.
#[derive(Debug, Copy, Clone, PartialEq, Eq, Structural)]
pub enum InterruptMode {
    PositiveEdge,
    NegativeEdge,
    HighLevel,
    LowLevel,
    DoubleEdge,
}

/// The state of a pin as reported to clients.
#[derive(Debug, Copy, Clone, PartialEq, Eq)]
pub enum PinState {
    Unregistered,
    Interrupt(InterruptMode),
    Input,
    Output,
    Other(&'static str),
}

/// The state of a pin as the server tracks it. An input or output pin
/// counts the client handles still alive; the pin can be claimed anew once
/// none is.
#[derive(Debug, Copy, Clone, PartialEq, Eq)]
pub enum InternalPinState {
    Unregistered,
    Interrupt(InterruptMode),
    Input(u32),
    Output(u32),
    Other(&'static str),
}

/// A request to the GPIO service.
#[derive(Debug, Clone, PartialEq, Eq)]
pub enum Request {
    /// Claim a pin as an interrupt source.
    ClaimIrq { pin: Pin, mode: InterruptMode },
    /// Claim pins for a custom configuration, each with a description.
    ClaimCustom { pins: Vec<(Pin, &'static str)> },
    /// Claim a pin as an output.
    ClaimOutput(Pin),
    /// Ask for a pin's state.
    PinState(Pin),
}

/// A handle to a claimed output pin.
#[derive(Debug, PartialEq, Eq)]
pub struct OutputPin {
    pub pin: Pin,
}

/// The GPIO service's answers.
#[derive(Debug, PartialEq, Eq)]
pub enum Response {
    /// The pin is claimed for interrupts; its interrupt waiters are those of
    /// this pin.
    ClaimIrq(Pin),
    /// The custom pins are claimed; their configuration may be applied.
    ClaimCustom,
    PinState(Pin, PinState),
    ClaimOutput(OutputPin),
}

/// GPIO service errors.
#[derive(Debug, Copy, Clone, PartialEq, Eq)]
pub enum Error {
    PinInUse(Pin, PinState),
}

/// The number of pins of each group the service tracks.
pub const PB_COUNT: usize = 13;
pub const PC_COUNT: usize = 8;
pub const PD_COUNT: usize = 23;
pub const PE_COUNT: usize = 18;
pub const PF_COUNT: usize = 7;
pub const PG_COUNT: usize = 19;

/// The state the server keeps for every pin.
pub struct GpioServer {
    pub pb: Vec<InternalPinState>,
    pub pc: Vec<InternalPinState>,
    pub pd: Vec<InternalPinState>,
    pub pe: Vec<InternalPinState>,
    pub pf: Vec<InternalPinState>,
    pub pg: Vec<InternalPinState>,
}

/// What clients see of an internal pin state.
pub open spec fn external_of(s: InternalPinState) -> PinState {
    match s {
        InternalPinState::Input(_) => PinState::Input,
        InternalPinState::Output(_) => PinState::Output,
        InternalPinState::Interrupt(mode) => PinState::Interrupt(mode),
        InternalPinState::Other(name) => PinState::Other(name),
        InternalPinState::Unregistered => PinState::Unregistered,
    }
}

/// Whether a pin lies within the tables the server keeps (pins `E18`,
/// `E19`, `F7` and `G19` do not).
pub open spec fn pin_tracked(pin: Pin) -> bool {
    match pin {
        Pin::B(p) => pin_b_index(p) < PB_COUNT,
        Pin::C(p) => pin_c_index(p) < PC_COUNT,
        Pin::D(p) => pin_d_index(p) < PD_COUNT,
        Pin::E(p) => pin_e_index(p) < PE_COUNT,
        Pin::F(p) => pin_f_index(p) < PF_COUNT,
        Pin::G(p) => pin_g_index(p) < PG_COUNT,
    }
}

/// The pins whose output mode the service can configure.
pub open spec fn output_configurable(pin: Pin) -> bool {
    match pin {
        Pin::C(_) => true,
        Pin::D(p) => p == PinD::D18,
        _ => false,
    }
}

/// Whether a pin in state `s` may be taken over by a new claim (as an
/// output or an interrupt): it is free, or an input or output no client
/// holds any longer.
pub open spec fn reclaimable(s: InternalPinState) -> bool {
    match s {
        InternalPinState::Unregistered => true,
        InternalPinState::Input(n) | InternalPinState::Output(n) => n == 0,
        _ => false,
    }
}

/// Whether a pin can be claimed for interrupts in `mode`.
pub open spec fn irq_claimable(s: InternalPinState, mode: InterruptMode) -> bool {
    reclaimable(s) || s == InternalPinState::Interrupt(mode)
}

impl GpioServer {
    /// The state of a tracked pin.
    pub open spec fn state_of(&self, pin: Pin) -> InternalPinState {
        match pin {
            Pin::B(p) => self.pb@[pin_b_index(p) as int],
            Pin::C(p) => self.pc@[pin_c_index(p) as int],
            Pin::D(p) => self.pd@[pin_d_index(p) as int],
            Pin::E(p) => self.pe@[pin_e_index(p) as int],
            Pin::F(p) => self.pf@[pin_f_index(p) as int],
            Pin::G(p) => self.pg@[pin_g_index(p) as int],
        }
    }

    /// The tables have one entry per tracked pin.
    pub open spec fn wf(&self) -> bool {
        &&& self.pb@.len() == PB_COUNT
        &&& self.pc@.len() == PC_COUNT
        &&& self.pd@.len() == PD_COUNT
        &&& self.pe@.len() == PE_COUNT
        &&& self.pf@.len() == PF_COUNT
        &&& self.pg@.len() == PG_COUNT
    }

    /// The server's state equals `old`'s except for `pin`, which is `s`.
    pub open spec fn updated(&self, old: &GpioServer, pin: Pin, s: InternalPinState) -> bool {
        &&& self.wf()
        &&& self.state_of(pin) == s
        &&& forall|p: Pin| pin_tracked(p) && p != pin ==> #[trigger] self.state_of(p) == old.state_of(p)
    }

    /// A server with every pin unregistered.
    pub fn new() -> (r: GpioServer)
        ensures
            r.wf(),
            forall|p: Pin| pin_tracked(p) ==> #[trigger] r.state_of(p) == InternalPinState::Unregistered,
    {
        GpioServer {
            pb: unregistered_table(PB_COUNT),
            pc: unregistered_table(PC_COUNT),
            pd: unregistered_table(PD_COUNT),
            pe: unregistered_table(PE_COUNT),
            pf: unregistered_table(PF_COUNT),
            pg: unregistered_table(PG_COUNT),
        }
    }

    /// The state of a tracked pin.
    pub fn pin(&self, pin: Pin) -> (r: InternalPinState)
        requires
            self.wf(),
            pin_tracked(pin),
        ensures
            r == self.state_of(pin),
    {
        match pin {
            Pin::B(p) => self.pb[p.index() as usize],
            Pin::C(p) => self.pc[p.index() as usize],
            Pin::D(p) => self.pd[p.index() as usize],
            Pin::E(p) => self.pe[p.index() as usize],
            Pin::F(p) => self.pf[p.index() as usize],
            Pin::G(p) => self.pg[p.index() as usize],
        }
    }

    /// Sets the state of a tracked pin.
    fn set_pin(&mut self, pin: Pin, s: InternalPinState)
        requires
            old(self).wf(),
            pin_tracked(pin),
        ensures
            final(self).updated(old(self), pin, s),
    {
        match pin {
            Pin::B(p) => self.pb.set(p.index() as usize, s),
            Pin::C(p) => self.pc.set(p.index() as usize, s),
            Pin::D(p) => self.pd.set(p.index() as usize, s),
            Pin::E(p) => self.pe.set(p.index() as usize, s),
            Pin::F(p) => self.pf.set(p.index() as usize, s),
            Pin::G(p) => self.pg.set(p.index() as usize, s),
        }
    }

    /// Records that a client dropped its handle to an input or output pin.
    pub fn release(&mut self, pin: Pin)
        requires
            old(self).wf(),
            pin_tracked(pin),
        ensures
            final(self).updated(old(self), pin, match old(self).state_of(pin) {
                InternalPinState::Input(n) => InternalPinState::Input(if n > 0 { (n - 1) as u32 } else { 0 }),
                InternalPinState::Output(n) => InternalPinState::Output(if n > 0 { (n - 1) as u32 } else { 0 }),
                other => other,
            }),
    {
        let s = match self.pin(pin) {
            InternalPinState::Input(n) => InternalPinState::Input(if n > 0 { n - 1 } else { 0 }),
            InternalPinState::Output(n) => InternalPinState::Output(if n > 0 { n - 1 } else { 0 }),
            other => other,
        };
        self.set_pin(pin, s);
    }
}

/// A table of `n` unregistered pins.
fn unregistered_table(n: usize) -> (r: Vec<InternalPinState>)
    ensures
        r@.len() == n,
        forall|i: int| 0 <= i < n ==> #[trigger] r@[i] == InternalPinState::Unregistered,
{
    let mut v: Vec<InternalPinState> = Vec::new();
    let mut i: usize = 0;
    while i < n
        invariant
            i <= n,
            v@.len() == i,
            forall|j: int| 0 <= j < i ==> #[trigger] v@[j] == InternalPinState::Unregistered,
        decreases n - i,
    {
        v.push(InternalPinState::Unregistered);
        i += 1;
    }
    v
}

impl InternalPinState {
    /// Whether the pin is free.
    pub fn is_unregistered(&self) -> (r: bool)
        ensures
            r == (*self == InternalPinState::Unregistered),
    {
        match self {
            InternalPinState::Unregistered => true,
            _ => false,
        }
    }

    /// What clients see of this state.
    pub fn external(&self) -> (r: PinState)
        ensures
            r == external_of(*self),
    {
        match self {
            InternalPinState::Input(_) => PinState::Input,
            InternalPinState::Output(_) => PinState::Output,
            InternalPinState::Interrupt(mode) => PinState::Interrupt(*mode),
            InternalPinState::Other(name) => PinState::Other(name),
            InternalPinState::Unregistered => PinState::Unregistered,
        }
    }
}

/// Sets (`set`) or clears bit `bit` of `bits`.
pub fn toggle_bit(bits: u32, bit: u32, set: bool) -> (r: u32)
    requires
        bit < 32,
    ensures
        r == (if set { bits | (1u32 << bit) } else { bits & !(1u32 << bit) }),
{
    if set {
        bits | (1u32 << bit)
    } else {
        bits & !(1u32 << bit)
    }
}

impl OutputPin {
    /// The new value of the pin's group data register (`P*_DAT`) when the
    /// pin is driven high or low; other pins' bits are unchanged.
    pub fn set(&self, dat: u32, high: bool) -> (r: u32)
        ensures
            r == (if high { dat | (1u32 << pin_bit(self.pin)) } else { dat & !(1u32 << pin_bit(self.pin)) }),
    {
        let bit = match self.pin {
            Pin::B(p) => p.index(),
            Pin::C(p) => p.index(),
            Pin::D(p) => p.index(),
            Pin::E(p) => p.index(),
            Pin::F(p) => p.index(),
            Pin::G(p) => p.index(),
        } as u32;
        toggle_bit(dat, bit, high)
    }
}

/// The bit of a pin in its group's data register.
pub open spec fn pin_bit(pin: Pin) -> u32 {
    match pin {
        Pin::B(p) => pin_b_index(p) as u32,
        Pin::C(p) => pin_c_index(p) as u32,
        Pin::D(p) => pin_d_index(p) as u32,
        Pin::E(p) => pin_e_index(p) as u32,
        Pin::F(p) => pin_f_index(p) as u32,
        Pin::G(p) => pin_g_index(p) as u32,
    }
}


/// Whether every pin of a custom claim is tracked.
pub open spec fn all_tracked(pins: Seq<(Pin, &'static str)>) -> bool {
    forall|i: int| 0 <= i < pins.len() ==> pin_tracked(#[trigger] pins[i].0)
}

/// Whether every pin of a custom claim up to and including the first one
/// that is not free is tracked: the pins the service looks at before it
/// answers.
pub open spec fn tracked_until_busy(srv: GpioServer, pins: Seq<(Pin, &'static str)>) -> bool {
    forall|i: int| 0 <= i < pins.len() && (forall|j: int| 0 <= j < i ==> srv.state_of(#[trigger] pins[j].0)
        == InternalPinState::Unregistered) ==> pin_tracked(#[trigger] pins[i].0)
}

/// Whether every pin of a custom claim is free.
pub open spec fn all_free(srv: GpioServer, pins: Seq<(Pin, &'static str)>) -> bool {
    forall|i: int| 0 <= i < pins.len() ==> srv.state_of(#[trigger] pins[i].0)
        == InternalPinState::Unregistered
}

/// The first pin of a custom claim that is not free.
pub open spec fn first_busy(srv: GpioServer, pins: Seq<(Pin, &'static str)>) -> int {
    choose|i: int| 0 <= i < pins.len() && srv.state_of(pins[i].0) != InternalPinState::Unregistered
        && forall|j: int| 0 <= j < i ==> srv.state_of(#[trigger] pins[j].0) == InternalPinState::Unregistered
}

/// The name a custom claim gives a pin: that of its first occurrence.
pub open spec fn claimed_name(pins: Seq<(Pin, &'static str)>, pin: Pin) -> &'static str {
    pins[choose|i: int| 0 <= i < pins.len() && pins[i].0 == pin && forall|j: int| 0 <= j < i ==> #[trigger] pins[j].0 != pin].1
}

/// Whether a pin appears in a custom claim.
pub open spec fn claims_pin(pins: Seq<(Pin, &'static str)>, pin: Pin) -> bool {
    exists|i: int| 0 <= i < pins.len() && #[trigger] pins[i].0 == pin
}

impl GpioServer {
    /// The inputs on which the service answers a request: every pin it
    /// looks at is tracked (for a custom claim, the pins up to the first one
    /// in use), and an output claim that would succeed is for a pin whose
    /// output mode can be configured.
    pub open spec fn request_defined(&self, msg: Request) -> bool {
        match msg {
            Request::ClaimIrq { pin, .. } => pin_tracked(pin),
            Request::ClaimOutput(pin) => pin_tracked(pin) && (reclaimable(self.state_of(pin))
                ==> output_configurable(pin)),
            Request::ClaimCustom { pins } => tracked_until_busy(*self, pins@),
            Request::PinState(pin) => pin_tracked(pin),
        }
    }

    /// Answers a request, updating the pin states.
    ///
    /// An interrupt claim succeeds for a free pin (or an input or output no
    /// client holds), or a pin already claimed for the same mode; an output
    /// claim for a free pin (or such an input or output) and hands out a
    /// handle; a custom claim only if all its pins are free, and then names
    /// them all; otherwise the pin is reported in use with its state.
    pub fn handle_msg(&mut self, msg: &Request) -> (r: Result<Response, Error>)
        requires
            old(self).wf(),
            old(self).request_defined(*msg),
        ensures
            final(self).wf(),
            match *msg {
                Request::ClaimIrq { pin, mode } => {
                    let s = old(self).state_of(pin);
                    if irq_claimable(s, mode) {
                        r == Ok::<Response, Error>(Response::ClaimIrq(pin)) && final(self).updated(
                            old(self), pin, InternalPinState::Interrupt(mode))
                    } else {
                        r == Err::<Response, Error>(Error::PinInUse(pin, external_of(s)))
                            && final(self).updated(old(self), pin, s)
                    }
                },
                Request::ClaimOutput(pin) => {
                    let s = old(self).state_of(pin);
                    if reclaimable(s) {
                        r == Ok::<Response, Error>(Response::ClaimOutput(OutputPin { pin }))
                            && final(self).updated(old(self), pin, InternalPinState::Output(1))
                    } else {
                        r == Err::<Response, Error>(Error::PinInUse(pin, external_of(s)))
                            && final(self).updated(old(self), pin, s)
                    }
                },
                Request::ClaimCustom { pins } => {
                    if all_free(*old(self), pins@) {
                        &&& r == Ok::<Response, Error>(Response::ClaimCustom)
                        &&& forall|p: Pin| pin_tracked(p) ==> #[trigger] final(self).state_of(p) == (
                            if claims_pin(pins@, p) {
                                InternalPinState::Other(claimed_name(pins@, p))
                            } else {
                                old(self).state_of(p)
                            })
                    } else {
                        let i = first_busy(*old(self), pins@);
                        let pin = pins@[i].0;
                        &&& r == Err::<Response, Error>(Error::PinInUse(pin, external_of(old(self).state_of(pin))))
                        &&& forall|p: Pin| pin_tracked(p) ==> #[trigger] final(self).state_of(p) == old(self).state_of(p)
                    }
                },
                Request::PinState(pin) => r == Ok::<Response, Error>(Response::PinState(pin, external_of(old(self).state_of(pin))))
                    && forall|p: Pin| pin_tracked(p) ==> #[trigger] final(self).state_of(p) == old(self).state_of(p),
            },
    {
        match msg {
            Request::ClaimIrq { pin, mode } => {
                let pin = *pin;
                let mode = *mode;
                let state = self.pin(pin);
                let ok = match state {
                    InternalPinState::Unregistered => true,
                    InternalPinState::Interrupt(cur_mode) => cur_mode == mode,
                    InternalPinState::Output(n) | InternalPinState::Input(n) => n == 0,
                    _ => false,
                };
                if ok {
                    self.set_pin(pin, InternalPinState::Interrupt(mode));
                    Ok(Response::ClaimIrq(pin))
                } else {
                    self.set_pin(pin, state);
                    Err(Error::PinInUse(pin, state.external()))
                }
            },
            Request::ClaimOutput(pin) => {
                let pin = *pin;
                let state = self.pin(pin);
                let ok = match state {
                    InternalPinState::Unregistered => true,
                    InternalPinState::Output(n) | InternalPinState::Input(n) => n == 0,
                    _ => false,
                };
                if !ok {
                    self.set_pin(pin, state);
                    return Err(Error::PinInUse(pin, state.external()));
                }
                self.set_pin(pin, InternalPinState::Output(1));
                Ok(Response::ClaimOutput(OutputPin { pin }))
            },
            Request::ClaimCustom { pins } => {
                let mut i: usize = 0;
                while i < pins.len()
                    invariant
                        self.wf(),
                        *self == *old(self),
                        *msg == (Request::ClaimCustom { pins: *pins }),
                        tracked_until_busy(*self, pins@),
                        i <= pins@.len(),
                        forall|j: int| 0 <= j < i ==> self.state_of(#[trigger] pins@[j].0)
                            == InternalPinState::Unregistered,
                    decreases pins.len() - i,
                {
                    let (pin, _name) = pins[i];
                    assert(pin_tracked(pins@[i as int].0));
                    let state = self.pin(pin);
                    if !state.is_unregistered() {
                        proof {
                            let k = i as int;
                            assert(exists|c: int| 0 <= c < pins@.len() && self.state_of(pins@[c].0) != InternalPinState::Unregistered
                                && forall|j: int| 0 <= j < c ==> self.state_of(#[trigger] pins@[j].0) == InternalPinState::Unregistered);
                            let c = first_busy(*self, pins@);
                            if c < k {
                                assert(self.state_of(pins@[c].0) == InternalPinState::Unregistered);
                            }
                        }
                        let ext = state.external();
                        return Err(Error::PinInUse(pin, ext));
                    }
                    i += 1;
                }
                let ghost old_srv = *self;
                assert(all_tracked(pins@)) by {
                    assert forall|k: int| 0 <= k < pins@.len() implies pin_tracked(#[trigger] pins@[k].0) by {
                        assert(forall|j: int| 0 <= j < k ==> self.state_of(#[trigger] pins@[j].0)
                            == InternalPinState::Unregistered);
                    }
                }
                let mut i: usize = 0;
                while i < pins.len()
                    invariant
                        self.wf(),
                        all_tracked(pins@),
                        all_free(old_srv, pins@),
                        old_srv.wf(),
                        i <= pins@.len(),
                        forall|p: Pin| pin_tracked(p) ==> #[trigger] self.state_of(p) == (
                            if exists|j: int| 0 <= j < i && #[trigger] pins@[j].0 == p {
                                InternalPinState::Other(claimed_name(pins@, p))
                            } else {
                                old_srv.state_of(p)
                            }),
                    decreases pins.len() - i,
                {
                    let (pin, name) = pins[i];
                    let state = self.pin(pin);
                    let ghost pre = *self;
                    proof {
                        lemma_claimed_name(pins@, i as int);
                    }
                    if state.is_unregistered() {
                        self.set_pin(pin, InternalPinState::Other(name));
                    }
                    proof {
                        assert forall|p: Pin| pin_tracked(p) implies #[trigger] self.state_of(p) == (
                            if exists|j: int| 0 <= j < i + 1 && #[trigger] pins@[j].0 == p {
                                InternalPinState::Other(claimed_name(pins@, p))
                            } else {
                                old_srv.state_of(p)
                            }) by {
                            if p == pin {
                                assert(pins@[i as int].0 == p);
                            } else {
                                if exists|j: int| 0 <= j < i + 1 && #[trigger] pins@[j].0 == p {
                                    let j = choose|j: int| 0 <= j < i + 1 && #[trigger] pins@[j].0 == p;
                                    assert(j < i);
                                }
                            }
                        }
                    }
                    i += 1;
                }
                proof {
                    assert forall|p: Pin| pin_tracked(p) implies claims_pin(pins@, p) == exists|j: int|
                        0 <= j < pins@.len() && #[trigger] pins@[j].0 == p by {}
                }
                Ok(Response::ClaimCustom)
            },
            Request::PinState(pin) => {
                let pin = *pin;
                Ok(Response::PinState(pin, self.pin(pin).external()))
            },
        }
    }
}

/// While naming the pins of a custom claim in order, the name written at
/// the first occurrence of a pin is its claimed name; at a later occurrence
/// the pin is already named.
proof fn lemma_claimed_name(pins: Seq<(Pin, &'static str)>, i: int)
    requires
        0 <= i < pins.len(),
    ensures
        (forall|j: int| 0 <= j < i ==> #[trigger] pins[j].0 != pins[i].0) ==> claimed_name(pins, pins[i].0) == pins[i].1,
{
    let p = pins[i].0;
    if forall|j: int| 0 <= j < i ==> #[trigger] pins[j].0 != p {
        let c = choose|c: int| 0 <= c < pins.len() && pins[c].0 == p && forall|j: int| 0 <= j < c ==> #[trigger] pins[j].0 != p;
        assert(0 <= i < pins.len() && pins[i].0 == p && forall|j: int| 0 <= j < i ==> #[trigger] pins[j].0 != p);
        if c < i {
        } else if c > i {
            assert(pins[i].0 != p);
        }
    }
}

/// A pin claimed for interrupts in one mode can be claimed again in that
/// mode only, and never as an output; a pin claimed as an output is held
/// until its last handle is released.
pub proof fn lemma_claims_exclusive(mode: InterruptMode, other: InterruptMode, n: u32)
    ensures
        irq_claimable(InternalPinState::Interrupt(mode), other) <==> other == mode,
        !reclaimable(InternalPinState::Interrupt(mode)),
        reclaimable(InternalPinState::Output(n)) <==> n == 0,
        !reclaimable(InternalPinState::Other("")),
{
}

} // verus!
