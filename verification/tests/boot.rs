use kernel::context::{establish_context, ExecutionContext, StackRegion};
use kernel::dispatch::{BootConfig, BootCore, BootEvent, BootPhase};
use kernel::fault::{FaultCause, FaultRecord, OutputSink, SourceLocation};
use kernel::halt::{HaltAction, HaltController, HaltPolicy, HaltState};
use kernel::region::MemoryRegion;

fn config(policy: HaltPolicy, sink_present: bool) -> BootConfig {
    BootConfig {
        policy,
        stack: StackRegion { base: 32, size: 32 },
        entry: 0x1000,
        reset_status: 0x0000_0001,
        mode_bits: 0x0000_0300,
        sink_present,
    }
}

fn panic_record(message: &str) -> FaultRecord {
    FaultRecord::software(
        Some(String::from(message)),
        Some(SourceLocation { file: String::from("src/main.rs"), line: 12, column: 5 }),
    )
}

#[test]
fn context_points_at_the_high_end_of_the_stack() {
    let stack = StackRegion { base: 0x2000_0000, size: 0x4000 };
    assert!(stack.is_well_formed());
    let ctx = establish_context(stack, 0x0800_0100, 0x0100_0000, 0x0000_0003);
    assert_eq!(ctx, ExecutionContext { pc: 0x0800_0100, sp: 0x2000_4000, status: 0x0100_0003 });
}

#[test]
fn stack_region_validity() {
    assert!(StackRegion { base: 0, size: 1 }.is_well_formed());
    assert!(!StackRegion { base: 0, size: 0 }.is_well_formed());
    assert!(StackRegion { base: usize::MAX - 8, size: 8 }.is_well_formed());
    assert!(!StackRegion { base: usize::MAX - 8, size: 9 }.is_well_formed());
    assert!(!StackRegion { base: 1, size: usize::MAX }.is_well_formed());
}

#[test]
fn stack_exclusivity() {
    let stack = StackRegion { base: 32, size: 32 };
    assert!(stack.is_exclusive_of(&[]));
    assert!(stack.is_exclusive_of(&[MemoryRegion::copy(0, 8, 8), MemoryRegion::zero(16, 16)]));
    assert!(!stack.is_exclusive_of(&[MemoryRegion::zero(16, 17)]));
    assert!(!stack.is_exclusive_of(&[MemoryRegion::copy(60, 0, 4)]));
    assert!(!stack.is_exclusive_of(&[MemoryRegion::copy(0, 63, 1)]));
}

#[test]
fn dispatcher_sets_up_before_main_is_entered() {
    let cfg = config(HaltPolicy::SpinHalt, true);
    let mut mem: Vec<u8> = (0..64).map(|i| i as u8 | 0x80).collect();
    let before = mem.clone();
    let table = [MemoryRegion::copy(0, 8, 8), MemoryRegion::zero(16, 16)];
    let mut core = BootCore::at_reset(cfg);
    assert_eq!(core.phase(), BootPhase::Reset);
    assert_eq!(core.context(), None);
    assert_eq!(core.config(), cfg);

    let ctx = core.start(&mut mem, &table);

    assert_eq!(core.phase(), BootPhase::Running);
    assert_eq!(ctx, ExecutionContext { pc: 0x1000, sp: 64, status: 0x0000_0301 });
    assert_eq!(core.context(), Some(ctx));
    assert_eq!(core.captured(), None);
    assert_eq!(&mem[8..16], &before[0..8]);
    assert_eq!(&mem[16..32], &[0u8; 16]);
    assert_eq!(&mem[0..8], &before[0..8]);
    // the stack is left as it was
    assert_eq!(&mem[32..64], &before[32..64]);
}

/// Pushes a word as a call would: below the stack pointer.
fn push_word(mem: &mut [u8], sp: usize, word: [u8; 4]) -> usize {
    let sp = sp - 4;
    mem[sp..sp + 4].copy_from_slice(&word);
    sp
}

#[test]
fn calls_on_the_established_context_stay_in_the_stack() {
    let cfg = config(HaltPolicy::SpinHalt, false);
    let mut mem = vec![0xEEu8; 64];
    let table = [MemoryRegion::zero(0, 32)];
    assert!(cfg.stack.is_exclusive_of(&table));
    let mut core = BootCore::at_reset(cfg);
    let ctx = core.start(&mut mem, &table);

    let mut sp = ctx.sp;
    for _ in 0..8 {
        sp = push_word(&mut mem, sp, [0xAA; 4]);
    }
    assert_eq!(sp, cfg.stack.base);
    assert_eq!(&mem[0..32], &[0u8; 32]);
    assert_eq!(&mem[32..64], &[0xAAu8; 32]);

    // without the setup the stack pointer is whatever it was at reset, and
    // the first call overwrites initialized data
    let mut mem = vec![0xEEu8; 64];
    let mut core = BootCore::at_reset(cfg);
    core.start(&mut mem, &table);
    let stale_sp: usize = 8;
    push_word(&mut mem, stale_sp, [0xAA; 4]);
    assert_ne!(&mem[0..32], &[0u8; 32]);
}

#[test]
fn returning_main_enters_the_halt_controller() {
    for (policy, expected) in
        [(HaltPolicy::SpinHalt, HaltAction::Spin), (HaltPolicy::ControlledReset, HaltAction::Reset)]
    {
        let mut mem = vec![0u8; 64];
        let mut core = BootCore::at_reset(config(policy, true));
        core.start(&mut mem, &[]);
        // the simulated main routine returns at once
        let action = core.main_returned();
        assert_eq!(action, expected);
        assert_eq!(core.phase(), BootPhase::Halted);
        assert_eq!(
            core.captured(),
            Some(&FaultRecord { cause: FaultCause::MainReturned, location: None, message: None })
        );
    }
}

#[test]
fn fault_with_a_sink_keeps_the_record() {
    let mut mem = vec![0u8; 64];
    let mut core = BootCore::at_reset(config(HaltPolicy::SpinHalt, true));
    core.start(&mut mem, &[]);
    let action = core.fault(Some(panic_record("test")));
    assert_eq!(action, HaltAction::Spin);
    assert_eq!(core.phase(), BootPhase::Halted);
    let kept = core.captured().expect("the sink holds the record");
    assert_eq!(kept.message.as_deref(), Some("test"));
    assert_eq!(kept.cause, FaultCause::Software);
    assert_eq!(*kept, panic_record("test"));
}

#[test]
fn fault_without_a_sink_still_halts() {
    let mut mem = vec![0u8; 64];
    let mut core = BootCore::at_reset(config(HaltPolicy::ControlledReset, false));
    core.start(&mut mem, &[]);
    let action = core.fault(Some(panic_record("test")));
    assert_eq!(action, HaltAction::Reset);
    assert_eq!(core.phase(), BootPhase::Halted);
    assert_eq!(core.captured(), None);
}

#[test]
fn fault_without_a_record_halts() {
    for sink_present in [false, true] {
        let mut mem = vec![0u8; 64];
        let mut core = BootCore::at_reset(config(HaltPolicy::SpinHalt, sink_present));
        core.start(&mut mem, &[]);
        assert_eq!(core.fault(None), HaltAction::Spin);
        assert_eq!(core.phase(), BootPhase::Halted);
        assert_eq!(core.captured(), None);
    }
}

#[test]
fn fault_before_the_boot_has_started_halts() {
    let mut core = BootCore::at_reset(config(HaltPolicy::SpinHalt, true));
    assert_eq!(core.fault(Some(FaultRecord::hardware(0x0B))), HaltAction::Spin);
    assert_eq!(core.phase(), BootPhase::Halted);
    assert_eq!(core.context(), None);
    assert_eq!(
        core.captured(),
        Some(&FaultRecord {
            cause: FaultCause::Hardware { code: 0x0B },
            location: None,
            message: None,
        })
    );
}

#[test]
fn nested_faults_do_not_leave_halted() {
    let mut mem = vec![0u8; 64];
    let mut core = BootCore::at_reset(config(HaltPolicy::SpinHalt, true));
    let ctx = core.start(&mut mem, &[]);
    core.fault(Some(panic_record("first")));
    for i in 0..100u32 {
        let action = match i % 3 {
            0 => core.fault(Some(panic_record("later"))),
            1 => core.fault(None),
            _ => core.main_returned(),
        };
        assert_eq!(action, HaltAction::Spin);
        assert_eq!(core.phase(), BootPhase::Halted);
        assert_eq!(core.captured(), Some(&panic_record("first")));
        assert_eq!(core.context(), Some(ctx));
    }
}

#[test]
fn deliver_takes_either_event() {
    let mut core = BootCore::at_reset(config(HaltPolicy::ControlledReset, true));
    assert_eq!(core.deliver(BootEvent::Fault(Some(panic_record("boom")))), HaltAction::Reset);
    assert_eq!(core.captured(), Some(&panic_record("boom")));
    assert_eq!(core.deliver(BootEvent::MainReturned), HaltAction::Reset);
    assert_eq!(core.captured(), Some(&panic_record("boom")));

    let mut core = BootCore::at_reset(config(HaltPolicy::SpinHalt, true));
    assert_eq!(core.deliver(BootEvent::MainReturned), HaltAction::Spin);
    assert_eq!(core.captured(), Some(&FaultRecord::for_main_returned()));
    assert_eq!(core.phase(), BootPhase::Halted);
}

#[test]
fn end_to_end_zeroed_section_then_panic_in_main() {
    let n = 48;
    let mut mem = vec![0xFFu8; n];
    let cfg = BootConfig {
        policy: HaltPolicy::SpinHalt,
        stack: StackRegion { base: 0x8000, size: 0x400 },
        entry: 0x100,
        reset_status: 0,
        mode_bits: 0,
        sink_present: true,
    };
    let mut core = BootCore::at_reset(cfg);
    let ctx = core.start(&mut mem, &[MemoryRegion::zero(0, n)]);
    assert_eq!(mem, vec![0x00u8; n]);
    assert_eq!(ctx.sp, 0x8400);
    // the main routine signals an unrecoverable condition at once
    let action = core.fault(Some(FaultRecord::software(Some(String::from("test")), None)));
    assert_eq!(action, HaltAction::Spin);
    assert_eq!(core.phase(), BootPhase::Halted);
    assert_eq!(core.captured().and_then(|r| r.message.clone()), Some(String::from("test")));
}

#[test]
fn halt_controller_is_one_way() {
    let mut spin = HaltController::new(HaltPolicy::SpinHalt);
    assert!(!spin.is_halted());
    assert_eq!(spin.state(), HaltState::Live);
    for _ in 0..5 {
        assert_eq!(spin.enter(), HaltAction::Spin);
        assert!(spin.is_halted());
        assert_eq!(spin.state(), HaltState::Halted);
        assert_eq!(spin.policy(), HaltPolicy::SpinHalt);
    }
    let mut reset = HaltController::new(HaltPolicy::ControlledReset);
    assert_eq!(reset.enter(), HaltAction::Reset);
    assert_eq!(reset.enter(), HaltAction::Reset);
    assert!(reset.is_halted());
}

#[test]
fn sink_keeps_what_is_reported_only_when_present() {
    let mut absent = OutputSink::new(false);
    assert!(!absent.is_present());
    absent.report(Some(FaultRecord::hardware(3)));
    assert_eq!(absent.record(), None);
    assert_eq!(absent, OutputSink::Absent);

    let mut slot = OutputSink::new(true);
    assert!(slot.is_present());
    assert_eq!(slot.record(), None);
    slot.report(Some(FaultRecord::hardware(3)));
    assert_eq!(slot.record(), Some(&FaultRecord::hardware(3)));
    slot.report(None);
    assert_eq!(slot.record(), None);
}

#[test]
fn record_builders() {
    let loc = SourceLocation { file: String::from("boot.rs"), line: 1, column: 2 };
    let r = FaultRecord::software(Some(String::from("oops")), Some(loc.clone()));
    assert_eq!(r.cause, FaultCause::Software);
    assert_eq!(r.location, Some(loc));
    assert_eq!(r.message, Some(String::from("oops")));
    let h = FaultRecord::hardware(0xDEAD_BEEF);
    assert_eq!(h.cause, FaultCause::Hardware { code: 0xDEAD_BEEF });
    assert_eq!(h.location, None);
    assert_eq!(h.message, None);
    assert_eq!(FaultRecord::for_main_returned().cause, FaultCause::MainReturned);
}
