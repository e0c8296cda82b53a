//! Generation-3 interrupt controller driver wrapper and handler table.
//!
//! The distributor and the per-CPU interface are memory-mapped hardware;
//! what this module holds is everything the driver decides: the
//! fixed-capacity handler table, the routing split between per-CPU and
//! global interrupt sources, the enable/disable bookkeeping on both
//! paths, and the acknowledge → dispatch-or-drop → end-of-interrupt →
//! optional-deactivate sequence.  The acknowledged interrupt number
//! arrives as an argument and the decided actions are handed back, so the
//! logic holds for every possible hardware answer.

use vstd::prelude::*;

verus! {

/// The maximum number of IRQs.
pub const MAX_IRQ_COUNT: usize = 1024;

/// Interrupt numbers below this threshold are per-CPU (software-generated
/// and private peripheral) sources, routed through the current CPU's
/// redistributor; numbers at or above it are shared peripheral sources,
/// routed through the distributor.
pub const LOCAL_IRQ_LIMIT: usize = 32;

/// Whether `irq` is a per-CPU interrupt source.
pub open spec fn spec_is_local_irq(irq: usize) -> bool {
    irq < LOCAL_IRQ_LIMIT
}

/// Routes an interrupt number: per-CPU below the threshold, global at or
/// above it.
pub fn is_local_irq(irq: usize) -> (r: bool)
    ensures
        r == spec_is_local_irq(irq),
{
    irq < LOCAL_IRQ_LIMIT
}

/// What a registration does to table contents `t`: a compare-and-insert
/// that succeeds only on an existing, empty slot, and otherwise reports
/// failure and changes nothing.
pub open spec fn spec_register_handler<H>(t: Seq<Option<H>>, irq: usize, handler: H) -> (
    Seq<Option<H>>,
    bool,
) {
    if irq < t.len() && t[irq as int] is None {
        (t.update(irq as int, Some(handler)), true)
    } else {
        (t, false)
    }
}

/// What an unregistration does to table contents `t`: the slot is
/// emptied unconditionally and whatever it held comes back.
pub open spec fn spec_unregister_handler<H>(t: Seq<Option<H>>, irq: usize) -> (
    Seq<Option<H>>,
    Option<H>,
) {
    if irq < t.len() {
        (t.update(irq as int, None), t[irq as int])
    } else {
        (t, None)
    }
}

/// Fixed-capacity mapping from interrupt number to at most one registered
/// handler.
pub struct HandlerTable<H> {
    slots: Vec<Option<H>>,
}

impl<H> View for HandlerTable<H> {
    type V = Seq<Option<H>>;

    closed spec fn view(&self) -> Seq<Option<H>> {
        self.slots@
    }
}

impl<H> HandlerTable<H> {
    /// Creates an empty table with one slot per supported interrupt
    /// number.
    pub fn new() -> (t: Self)
        ensures
            t@.len() == MAX_IRQ_COUNT,
            forall|i: int| 0 <= i < MAX_IRQ_COUNT ==> t@[i] is None,
    {
        let mut slots: Vec<Option<H>> = Vec::new();
        for i in 0..MAX_IRQ_COUNT
            invariant
                slots@.len() == i,
                forall|j: int| 0 <= j < i ==> slots@[j] is None,
        {
            slots.push(None);
        }
        HandlerTable { slots }
    }

    /// Compare-and-insert: registers `handler` for `irq` only if the slot
    /// exists and was empty; an occupied slot is left exactly as it was
    /// and the registration reports failure.
    pub fn register_handler(&mut self, irq: usize, handler: H) -> (r: bool)
        ensures
            (final(self)@, r) == spec_register_handler(old(self)@, irq, handler),
            r == (irq < old(self)@.len() && old(self)@[irq as int] is None),
            r ==> final(self)@ == old(self)@.update(irq as int, Some(handler)),
            !r ==> final(self)@ == old(self)@,
    {
        if irq < self.slots.len() && self.slots[irq].is_none() {
            self.slots.set(irq, Some(handler));
            true
        } else {
            false
        }
    }

    /// Removes and returns the handler registered for `irq`, or `None` if
    /// the slot was empty or out of range.
    pub fn unregister_handler(&mut self, irq: usize) -> (r: Option<H>)
        ensures
            (final(self)@, r) == spec_unregister_handler(old(self)@, irq),
            irq < old(self)@.len() ==> r == old(self)@[irq as int] && final(self)@ == old(self)@.update(irq as int, None),
            irq >= old(self)@.len() ==> r is None && final(self)@ == old(self)@,
    {
        if irq < self.slots.len() {
            let mut taken: Option<H> = None;
            let slot = &mut self.slots[irq];
            core::mem::swap(&mut taken, slot);
            proof {
                assert(self.slots@ =~= old(self)@.update(irq as int, None));
            }
            taken
        } else {
            None
        }
    }
}

impl<H: Copy> HandlerTable<H> {
    /// Looks the handler for `irq` up without removing it.
    pub fn lookup(&self, irq: usize) -> (r: Option<H>)
        ensures
            irq < self@.len() ==> r == self@[irq as int],
            irq >= self@.len() ==> r is None,
    {
        if irq < self.slots.len() {
            self.slots[irq]
        } else {
            None
        }
    }
}

/// What one `handle` call decided, given the acknowledged interrupt:
/// which handler to invoke, whether an unhandled interrupt is to be
/// logged, and which end-of-interrupt and deactivate signals to issue.
/// The caller performs the signals on the current CPU's interface in this
/// order: invoke (or log), end-of-interrupt, deactivate.
pub struct HandleOutcome<H> {
    /// The handler to invoke, when one is registered.
    pub invoked: Option<H>,
    /// The interrupt to log as unhandled, when none is registered.
    pub unhandled: Option<usize>,
    /// The interrupt to signal end-of-interrupt for.
    pub eoi: Option<usize>,
    /// The interrupt to deactivate, in split end-of-interrupt mode.
    pub deactivate: Option<usize>,
}

/// The interrupt-controller driver wrapper: the handler table plus the
/// software-visible state of the distributor (global enables) and of the
/// current CPU's redistributor (per-CPU enables and the opened interface).
/// Construction models a successful platform initialisation; a failed
/// hardware open aborts startup before any value of this type exists.
pub struct IrqIfImpl<H> {
    table: HandlerTable<H>,
    local_enabled: Vec<bool>,
    global_enabled: Vec<bool>,
    eoi_mode: bool,
    cpu_if_open: bool,
}

impl<H: Copy> IrqIfImpl<H> {
    /// Registered handlers, by interrupt number.
    pub closed spec fn table_view(&self) -> Seq<Option<H>> {
        self.table@
    }

    /// Per-CPU enable bits, one per local interrupt source.
    pub closed spec fn local_enabled_view(&self) -> Seq<bool> {
        self.local_enabled@
    }

    /// Distributor enable bits, one per interrupt number.
    pub closed spec fn global_enabled_view(&self) -> Seq<bool> {
        self.global_enabled@
    }

    /// Whether the controller needs an explicit deactivate separate from
    /// end-of-interrupt.
    pub closed spec fn eoi_mode(&self) -> bool {
        self.eoi_mode
    }

    /// Whether the current CPU's interface was opened.
    pub closed spec fn cpu_if_open(&self) -> bool {
        self.cpu_if_open
    }

    /// Shape of the driver state: one handler slot per interrupt number,
    /// one per-CPU enable bit per local source, one distributor enable
    /// bit per interrupt number.
    pub open spec fn wf(&self) -> bool {
        &&& self.table_view().len() == MAX_IRQ_COUNT
        &&& self.local_enabled_view().len() == LOCAL_IRQ_LIMIT
        &&& self.global_enabled_view().len() == MAX_IRQ_COUNT
    }

    /// Platform initialisation: the distributor was constructed and
    /// opened and the primary CPU's interface was derived and opened.
    /// All sources start disabled with no handler registered;
    /// `eoi_mode` records whether the hardware runs in split
    /// end-of-interrupt mode.
    pub fn init(eoi_mode: bool) -> (s: Self)
        ensures
            s.wf(),
            s.cpu_if_open(),
            s.eoi_mode() == eoi_mode,
            forall|i: int| 0 <= i < MAX_IRQ_COUNT ==> s.table_view()[i] is None,
            forall|i: int| 0 <= i < LOCAL_IRQ_LIMIT ==> !s.local_enabled_view()[i],
            forall|i: int| 0 <= i < MAX_IRQ_COUNT ==> !s.global_enabled_view()[i],
    {
        let table = HandlerTable::new();
        let mut local_enabled: Vec<bool> = Vec::new();
        for i in 0..LOCAL_IRQ_LIMIT
            invariant
                local_enabled@.len() == i,
                forall|j: int| 0 <= j < i ==> !local_enabled@[j],
        {
            local_enabled.push(false);
        }
        let mut global_enabled: Vec<bool> = Vec::new();
        for i in 0..MAX_IRQ_COUNT
            invariant
                global_enabled@.len() == i,
                forall|j: int| 0 <= j < i ==> !global_enabled@[j],
        {
            global_enabled.push(false);
        }
        IrqIfImpl { table, local_enabled, global_enabled, eoi_mode, cpu_if_open: true }
    }

    /// Per-CPU late initialisation: derives and opens the calling CPU's
    /// own interface, replacing any prior value for its slot.  Must run
    /// on each additional CPU before that CPU can receive interrupts.
    pub fn init_current_cpu(&mut self)
        requires
            old(self).wf(),
        ensures
            final(self).wf(),
            final(self).cpu_if_open(),
            final(self).table_view() == old(self).table_view(),
            final(self).local_enabled_view() == old(self).local_enabled_view(),
            final(self).global_enabled_view() == old(self).global_enabled_view(),
            final(self).eoi_mode() == old(self).eoi_mode(),
    {
        self.cpu_if_open = true;
    }

    /// Enables or disables `irq`, routed by the threshold: local sources
    /// go through the current CPU's redistributor-scoped path, global
    /// sources through the distributor.
    pub fn set_enable(&mut self, irq: usize, enabled: bool)
        requires
            old(self).wf(),
            irq < MAX_IRQ_COUNT,
        ensures
            final(self).wf(),
            spec_is_local_irq(irq) ==> final(self).local_enabled_view() == old(self).local_enabled_view().update(irq as int, enabled) && final(self).global_enabled_view()
                == old(self).global_enabled_view(),
            !spec_is_local_irq(irq) ==> final(self).global_enabled_view() == old(self).global_enabled_view().update(irq as int, enabled) && final(self).local_enabled_view()
                == old(self).local_enabled_view(),
            final(self).table_view() == old(self).table_view(),
            final(self).eoi_mode() == old(self).eoi_mode(),
            final(self).cpu_if_open() == old(self).cpu_if_open(),
    {
        if irq < LOCAL_IRQ_LIMIT {
            self.local_enabled.set(irq, enabled);
        } else {
            self.global_enabled.set(irq, enabled);
        }
    }

    /// Registers a handler for `irq` and, only on success, enables the
    /// interrupt on its routed path.  Fails, with no state changed and
    /// the interrupt left disabled, if the slot was already occupied or
    /// the number is out of range.
    pub fn register(&mut self, irq: usize, handler: H) -> (r: bool)
        requires
            old(self).wf(),
        ensures
            final(self).wf(),
            r == (irq < MAX_IRQ_COUNT && old(self).table_view()[irq as int] is None),
            r ==> final(self).table_view() == old(self).table_view().update(
                irq as int,
                Some(handler),
            ),
            !r ==> final(self).table_view() == old(self).table_view(),
            r && spec_is_local_irq(irq) ==> final(self).local_enabled_view() == old(self).local_enabled_view().update(irq as int, true) && final(self).global_enabled_view()
                == old(self).global_enabled_view(),
            r && !spec_is_local_irq(irq) ==> final(self).global_enabled_view() == old(self).global_enabled_view().update(irq as int, true) && final(self).local_enabled_view()
                == old(self).local_enabled_view(),
            !r ==> final(self).local_enabled_view() == old(self).local_enabled_view() && final(self).global_enabled_view() == old(self).global_enabled_view(),
            final(self).eoi_mode() == old(self).eoi_mode(),
            final(self).cpu_if_open() == old(self).cpu_if_open(),
    {
        if self.table.register_handler(irq, handler) {
            self.set_enable(irq, true);
            true
        } else {
            false
        }
    }

    /// Disables `irq` on its routed path, then removes and returns any
    /// previously registered handler.
    pub fn unregister(&mut self, irq: usize) -> (r: Option<H>)
        requires
            old(self).wf(),
            irq < MAX_IRQ_COUNT,
        ensures
            final(self).wf(),
            r == old(self).table_view()[irq as int],
            final(self).table_view() == old(self).table_view().update(irq as int, None),
            spec_is_local_irq(irq) ==> final(self).local_enabled_view() == old(self).local_enabled_view().update(irq as int, false) && final(self).global_enabled_view()
                == old(self).global_enabled_view(),
            !spec_is_local_irq(irq) ==> final(self).global_enabled_view() == old(self).global_enabled_view().update(irq as int, false) && final(self).local_enabled_view()
                == old(self).local_enabled_view(),
            final(self).eoi_mode() == old(self).eoi_mode(),
            final(self).cpu_if_open() == old(self).cpu_if_open(),
    {
        self.set_enable(irq, false);
        self.table.unregister_handler(irq)
    }

    /// Decides one interrupt-handling pass.  `pending` is what the
    /// acknowledge read from the current CPU's interface returned: with
    /// no pending interrupt nothing at all happens; otherwise the
    /// registered handler (if any) is returned for invocation — an
    /// unregistered number is reported for logging instead — and
    /// end-of-interrupt, plus deactivation in split mode, is owed for the
    /// acknowledged number in every case.  The table is not consumed:
    /// handling leaves every registration in place.
    pub fn handle(&self, pending: Option<usize>) -> (r: HandleOutcome<H>)
        requires
            self.wf(),
            self.cpu_if_open(),
        ensures
            pending is None ==> r.invoked is None && r.unhandled is None && r.eoi is None
                && r.deactivate is None,
            pending matches Some(irq) ==> r.eoi == Some(irq),
            pending matches Some(irq) ==> r.deactivate == (if self.eoi_mode() {
                Some(irq)
            } else {
                None::<usize>
            }),
            pending matches Some(irq) ==> (if irq < MAX_IRQ_COUNT && self.table_view()[irq as int]
                is Some {
                r.invoked == self.table_view()[irq as int] && r.unhandled is None
            } else {
                r.invoked is None && r.unhandled == Some(irq)
            }),
    {
        let irq = match pending {
            Some(irq) => irq,
            None => {
                return HandleOutcome { invoked: None, unhandled: None, eoi: None, deactivate: None };
            },
        };
        let looked_up = self.table.lookup(irq);
        let (invoked, unhandled) = match looked_up {
            Some(h) => (Some(h), None),
            None => (None, Some(irq)),
        };
        HandleOutcome {
            invoked,
            unhandled,
            eoi: Some(irq),
            deactivate: if self.eoi_mode {
                Some(irq)
            } else {
                None
            },
        }
    }

    /// Whether a per-CPU interrupt source is enabled on the current
    /// CPU's path.
    pub fn local_irq_enabled(&self, irq: usize) -> (r: bool)
        requires
            self.wf(),
            irq < LOCAL_IRQ_LIMIT,
        ensures
            r == self.local_enabled_view()[irq as int],
    {
        self.local_enabled[irq]
    }

    /// Whether an interrupt is enabled on the distributor's path.
    pub fn global_irq_enabled(&self, irq: usize) -> (r: bool)
        requires
            self.wf(),
            irq < MAX_IRQ_COUNT,
        ensures
            r == self.global_enabled_view()[irq as int],
    {
        self.global_enabled[irq]
    }

    /// Inter-processor interrupt delivery to one CPU or broadcast.  The
    /// delivery mechanism is deferred: every call reports failure and
    /// changes nothing, and a real implementation must replace it before
    /// SMP coordination relies on it.
    pub fn send_ipi(&mut self, irq_num: usize, target: IpiTarget) -> (r: bool)
        requires
            old(self).wf(),
        ensures
            *final(self) == *old(self),
            !r,
    {
        let _ = irq_num;
        let _ = target;
        false
    }
}

/// Target specification for inter-processor interrupts.
#[derive(Clone, Copy, Debug, PartialEq, Eq, Structural)]
pub enum IpiTarget {
    /// Send to the current CPU.
    Current {
        /// The CPU ID of the current CPU.
        cpu_id: usize,
    },
    /// Send to a specific CPU.
    Other {
        /// The CPU ID of the target CPU.
        cpu_id: usize,
    },
    /// Send to all other CPUs.
    AllExceptCurrent {
        /// The CPU ID of the current CPU.
        cpu_id: usize,
        /// The total number of CPUs.
        cpu_num: usize,
    },
}

/// Law of double registration: once `register` succeeded for an
/// interrupt, registering any other handler for the same, still
/// registered, number fails and leaves the first handler active; after
/// an unregistration the new registration succeeds and installs the new
/// handler.
pub proof fn lemma_register_twice<H>(t: Seq<Option<H>>, irq: usize, h: H, h2: H)
    requires
        irq < t.len(),
        t[irq as int] is None,
    ensures
        ({
            let (t1, ok1) = spec_register_handler(t, irq, h);
            let (t2, ok2) = spec_register_handler(t1, irq, h2);
            let (t3, removed) = spec_unregister_handler(t2, irq);
            let (t4, ok4) = spec_register_handler(t3, irq, h2);
            &&& ok1
            &&& !ok2
            &&& t2 == t1
            &&& t2[irq as int] == Some(h)
            &&& removed == Some(h)
            &&& ok4
            &&& t4[irq as int] == Some(h2)
        }),
{
}

} // verus!
