//! The entry dispatcher and the fault sink: the state of one boot, from
//! reset to halt, and the only transitions that it can make.

use vstd::prelude::*;
use crate::context::{establish_context, ExecutionContext, StackRegion};
use crate::fault::{FaultRecord, OutputSink};
use crate::halt::{action_for, HaltAction, HaltController, HaltPolicy, HaltState};
use crate::region::{apply_table, table_fits, table_independent, MemoryRegion};
use crate::section_init::{init_sections, lemma_apply_table_untouched};

verus! {

/// What is fixed before the processor leaves reset.
#[derive(Clone, Copy, Debug, PartialEq, Eq, Structural)]
pub struct BootConfig {
    /// What to do once halted.
    pub policy: HaltPolicy,
    /// The memory reserved for the boot stack.
    pub stack: StackRegion,
    /// The address of the main routine.
    pub entry: usize,
    /// The status register as the processor leaves reset.
    pub reset_status: u32,
    /// The processor mode bits that the main routine needs set.
    pub mode_bits: u32,
    /// Whether fault records can be kept anywhere.
    pub sink_present: bool,
}

impl BootConfig {
    /// The context with which this configuration enters the main routine.
    pub open spec fn context(self) -> ExecutionContext {
        ExecutionContext::established(self.stack, self.entry, self.reset_status, self.mode_bits)
    }
}

/// How far the boot has come.
#[derive(Clone, Copy, Debug, PartialEq, Eq, Structural)]
pub enum BootPhase {
    /// Control has arrived from the reset vector; nothing is set up.
    Reset,
    /// Sections and context are set up and the main routine has control.
    Running,
    /// Execution has ended. Only a physical reset leads on from here.
    Halted,
}

/// What can end a boot.
#[derive(Clone, Debug, PartialEq, Eq)]
pub enum BootEvent {
    /// The main routine came back to the dispatcher.
    MainReturned,
    /// An unrecoverable condition was raised, with or without a record.
    Fault(Option<FaultRecord>),
}

/// The state of one boot, as contracts see it.
pub struct CoreState {
    pub config: BootConfig,
    pub phase: BootPhase,
    /// The context that was established, once it was.
    pub context: Option<ExecutionContext>,
    /// The fault record that the sink holds.
    pub captured: Option<FaultRecord>,
}

impl CoreState {
    /// The state in which the reset vector hands over.
    pub open spec fn at_reset(config: BootConfig) -> CoreState {
        CoreState { config, phase: BootPhase::Reset, context: None, captured: None }
    }

    /// The states that a boot can be in: the main routine runs only on the
    /// established context, and a record is held only after a halt and only
    /// where there is a sink.
    pub open spec fn wf(self) -> bool {
        &&& self.config.stack.wf()
        &&& self.phase is Reset ==> self.context is None
        &&& self.phase is Running ==> self.context == Some(self.config.context())
        &&& self.context is Some ==> self.context == Some(self.config.context())
        &&& self.phase !is Halted ==> self.captured is None
        &&& !self.config.sink_present ==> self.captured is None
    }

    /// The state after the dispatcher has set everything up and handed over
    /// to the main routine.
    pub open spec fn started(self) -> CoreState {
        CoreState { phase: BootPhase::Running, context: Some(self.config.context()), ..self }
    }

    /// The state after an unrecoverable condition was raised with `record`.
    /// The first condition halts the boot and its record goes to the sink,
    /// if there is one. Once halted, a further condition changes nothing:
    /// the record of the first is kept.
    pub open spec fn halted_with(self, record: Option<FaultRecord>) -> CoreState {
        if self.phase is Halted {
            self
        } else {
            CoreState {
                phase: BootPhase::Halted,
                captured: if self.config.sink_present {
                    record
                } else {
                    None
                },
                ..self
            }
        }
    }

    /// The state after `event`.
    pub open spec fn after(self, event: BootEvent) -> CoreState {
        match event {
            BootEvent::MainReturned => self.halted_with(Some(FaultRecord::main_returned())),
            BootEvent::Fault(record) => self.halted_with(record),
        }
    }

    /// The state after the events of `events`, first one first.
    pub open spec fn run(self, events: Seq<BootEvent>) -> CoreState
        decreases events.len(),
    {
        if events.len() == 0 {
            self
        } else {
            self.run(events.drop_last()).after(events.last())
        }
    }
}

/// The main routine runs only after stack and context setup: whatever
/// happens after the dispatcher has started the boot, the state is never
/// back at reset, the context is the established one with the stack pointer
/// at the high end of the stack region, and nothing was captured unless the
/// boot has halted. Without the dispatcher, no event makes the boot run.
pub proof fn lemma_runs_only_on_established_context(config: BootConfig, events: Seq<BootEvent>)
    requires
        config.stack.wf(),
    ensures
        CoreState::at_reset(config).started().run(events).wf(),
        CoreState::at_reset(config).started().run(events).phase !is Reset,
        CoreState::at_reset(config).started().run(events).context == Some(config.context()),
        config.context().sp == config.stack.top(),
        CoreState::at_reset(config).run(events).wf(),
        CoreState::at_reset(config).run(events).phase !is Running,
    decreases events.len(),
{
    if events.len() > 0 {
        lemma_runs_only_on_established_context(config, events.drop_last());
    }
}

/// When the main routine returns, the boot halts: from every state, the
/// return leads to `Halted`, never anywhere else.
pub proof fn lemma_return_of_main_halts(state: CoreState)
    ensures
        state.after(BootEvent::MainReturned).phase is Halted,
        state.phase !is Halted && state.config.sink_present ==> state.after(
            BootEvent::MainReturned,
        ).captured == Some(FaultRecord::main_returned()),
{
}

/// Every fault halts the boot, with any record or none, with a sink or
/// without. With a sink, the record of the first fault is the one kept.
pub proof fn lemma_fault_halts(state: CoreState, record: Option<FaultRecord>)
    ensures
        state.after(BootEvent::Fault(record)).phase is Halted,
        state.phase !is Halted && state.config.sink_present ==> state.after(
            BootEvent::Fault(record),
        ).captured == record,
        state.wf() && !state.config.sink_present ==> state.after(BootEvent::Fault(record)).captured
            is None,
{
}

/// Nothing leads out of `Halted`: whatever events follow a halt, faults
/// raised while halting included, the state stays exactly as it was.
pub proof fn lemma_halted_is_final(state: CoreState, events: Seq<BootEvent>)
    requires
        state.phase is Halted,
    ensures
        state.run(events) == state,
    decreases events.len(),
{
    if events.len() > 0 {
        lemma_halted_is_final(state, events.drop_last());
    }
}

/// After the first event the boot is halted for good.
pub proof fn lemma_any_event_halts(state: CoreState, events: Seq<BootEvent>)
    requires
        events.len() > 0,
    ensures
        state.run(events).phase is Halted,
        state.run(events) == state.after(events[0]),
    decreases events.len(),
{
    let earlier = events.drop_last();
    if events.len() > 1 {
        lemma_any_event_halts(state, earlier);
        assert(earlier[0] == events[0]);
        assert(state.run(earlier).after(events.last()) == state.run(earlier));
    } else {
        assert(state.run(earlier) == state);
        assert(events.last() == events[0]);
    }
}

/// One boot: the dispatcher's state, the halt controller and the fault sink.
pub struct BootCore {
    config: BootConfig,
    halt: HaltController,
    context: Option<ExecutionContext>,
    sink: OutputSink,
}

impl View for BootCore {
    type V = CoreState;

    closed spec fn view(&self) -> CoreState {
        CoreState {
            config: self.config,
            phase: if self.halt.state() is Halted {
                BootPhase::Halted
            } else if self.context is Some {
                BootPhase::Running
            } else {
                BootPhase::Reset
            },
            context: self.context,
            captured: self.sink.captured(),
        }
    }
}

impl BootCore {
    #[verifier::type_invariant]
    spec fn inv(self) -> bool {
        &&& self@.wf()
        &&& self.halt.policy() == self.config.policy
        &&& self.sink.present() == self.config.sink_present
    }

    /// The core as the reset vector finds it.
    pub fn at_reset(config: BootConfig) -> (core: BootCore)
        requires
            config.stack.wf(),
        ensures
            core@ == CoreState::at_reset(config),
            core@.wf(),
    {
        BootCore {
            config,
            halt: HaltController::new(config.policy),
            context: None,
            sink: OutputSink::new(config.sink_present),
        }
    }

    /// The entry dispatcher. In strict order: initializes the sections that
    /// `table` describes on the memory image `mem`, establishes the stack
    /// and the execution context, and hands out the context with which the
    /// caller enters the main routine.
    ///
    /// The stack region, where the table leaves it alone, is not touched.
    pub fn start(&mut self, mem: &mut [u8], table: &[MemoryRegion]) -> (ctx: ExecutionContext)
        requires
            old(self)@.phase is Reset,
            table_fits(table@, old(mem)@.len()),
        ensures
            final(self)@ == old(self)@.started(),
            final(self)@.wf(),
            ctx == old(self)@.config.context(),
            ctx.sp == old(self)@.config.stack.top(),
            final(mem)@ == apply_table(table@, old(mem)@),
            final(mem)@.len() == old(mem)@.len(),
            table_independent(table@) ==> forall|k: int, addr: int|
                0 <= k < table@.len() && #[trigger] table@[k].dest.contains(addr)
                    ==> final(mem)@[addr] == table@[k].expected_byte(old(mem)@, addr),
            old(self)@.config.stack.exclusive_of(table@) ==> forall|addr: int|
                0 <= addr < old(mem)@.len() && #[trigger] old(self)@.config.stack.owns(addr)
                    ==> final(mem)@[addr] == old(mem)@[addr],
    {
        proof {
            use_type_invariant(&*self);
        }
        init_sections(mem, table);
        let ctx = establish_context(
            self.config.stack,
            self.config.entry,
            self.config.reset_status,
            self.config.mode_bits,
        );
        self.context = Some(ctx);
        proof {
            let stack = self.config.stack;
            if stack.exclusive_of(table@) {
                assert forall|addr: int|
                    0 <= addr < old(mem)@.len() && #[trigger] stack.owns(addr) implies mem@[addr]
                    == old(mem)@[addr] by {
                    assert forall|k: int| 0 <= k < table@.len() implies !(#[trigger] table@[k]).dest.contains(
                        addr,
                    ) by {
                        assert(!table@[k].dest.overlaps(stack.range()));
                    }
                    lemma_apply_table_untouched(table@, old(mem)@, addr);
                }
            }
        }
        ctx
    }

    /// The fault sink: the one handler of every unrecoverable condition.
    /// Enters the halt controller and hands the record to the sink, if
    /// there is one. The state is terminal before the record is handled, so
    /// that a fault raised on the way finds the boot halted and leaves the
    /// first record alone. The answer is what the caller must do from now
    /// on; there is nothing to return to.
    pub fn fault(&mut self, record: Option<FaultRecord>) -> (action: HaltAction)
        ensures
            final(self)@ == old(self)@.halted_with(record),
            final(self)@.phase is Halted,
            final(self)@.wf(),
            action == action_for(old(self)@.config.policy),
    {
        proof {
            use_type_invariant(&*self);
        }
        let first: bool = !self.halt.is_halted();
        let action = self.halt.enter();
        if first {
            self.sink.report(record);
        }
        action
    }

    /// The dispatcher's guard behind the main routine: a return is treated
    /// as an unrecoverable condition of its own kind.
    pub fn main_returned(&mut self) -> (action: HaltAction)
        ensures
            final(self)@ == old(self)@.after(BootEvent::MainReturned),
            final(self)@.phase is Halted,
            final(self)@.wf(),
            action == action_for(old(self)@.config.policy),
    {
        self.fault(Some(FaultRecord::for_main_returned()))
    }

    /// Takes one event and halts.
    pub fn deliver(&mut self, event: BootEvent) -> (action: HaltAction)
        ensures
            final(self)@ == old(self)@.after(event),
            final(self)@.phase is Halted,
            final(self)@.wf(),
            action == action_for(old(self)@.config.policy),
    {
        match event {
            BootEvent::MainReturned => self.main_returned(),
            BootEvent::Fault(record) => self.fault(record),
        }
    }

    pub fn phase(&self) -> (p: BootPhase)
        ensures
            p == self@.phase,
    {
        if self.halt.is_halted() {
            BootPhase::Halted
        } else if self.context.is_some() {
            BootPhase::Running
        } else {
            BootPhase::Reset
        }
    }

    pub fn config(&self) -> (c: BootConfig)
        ensures
            c == self@.config,
            self@.wf(),
    {
        proof {
            use_type_invariant(self);
        }
        self.config
    }

    /// The established context, once the dispatcher has started the boot.
    pub fn context(&self) -> (c: Option<ExecutionContext>)
        ensures
            c == self@.context,
    {
        self.context
    }

    /// The fault record that the sink holds.
    pub fn captured(&self) -> (r: Option<&FaultRecord>)
        ensures
            match r {
                Some(record) => self@.captured == Some(*record),
                None => self@.captured is None,
            },
    {
        self.sink.record()
    }
}

} // verus!
