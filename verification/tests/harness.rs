use guest_harness::guest::StopReason;
use guest_harness::harness::{
    Checkpoint, DriverAction, Harness, HarnessError, IterationOutcome, Located, Placement,
    RunReport, Symbol, END_OFFSET, MAX_INPUT_SIZE, START_OFFSET,
};
use guest_harness::modules::input_injector::InputInjectorModule;
use guest_harness::modules::register::{RegisterResetModule, RegisterWrite};
use guest_harness::modules::ExecMeta;

const MAIN: u64 = 0x40_1000;
const CLEANUP: u64 = 0x40_8000;
const REGION: u64 = 0x7f00_0000_0000;

fn located() -> Located {
    Harness::locate(Some(MAIN), Some(CLEANUP), Placement::default()).expect("both symbols exist")
}

fn ready() -> (Harness, RegisterResetModule) {
    let anchored = located()
        .arrive(StopReason::Breakpoint(MAIN + START_OFFSET), Some(MAIN + START_OFFSET), &[
            Some(1),
            None,
            Some(3),
        ])
        .expect("the start was reached");
    Harness::init(anchored, Some(REGION)).expect("the region was mapped")
}

#[test]
fn checkpoint_addresses_follow_the_entry_symbol() {
    assert_eq!(START_OFFSET, 0x178);
    assert_eq!(END_OFFSET, 0x144);
    assert_eq!(MAX_INPUT_SIZE, 1_048_576);
    assert_eq!(
        Placement::default(),
        Placement { start_offset: 0x178, end_offset: 0x144 }
    );
    assert_eq!(
        located(),
        Located { start_pc: 0x40_1178, end_pc: 0x40_1144, abort_addr: 0x40_8000 }
    );
}

#[test]
fn cold_run_stops_at_the_iteration_start() {
    let actions = located().cold_run();
    assert_eq!(actions.len(), 2);
    assert!(matches!(actions[0], DriverAction::SetBreakpoint(0x40_1178)));
    assert!(matches!(actions[1], DriverAction::Run));
}

#[test]
fn settling_moves_the_breakpoint_and_reserves_the_region() {
    let anchored = located()
        .arrive(StopReason::Breakpoint(0x40_1178), Some(0x40_1178), &[Some(1)])
        .expect("the start was reached");
    let actions = anchored.settle();
    assert_eq!(actions.len(), 3);
    assert!(matches!(actions[0], DriverAction::RemoveBreakpoint(0x40_1178)));
    assert!(matches!(actions[1], DriverAction::SetBreakpoint(0x40_1144)));
    assert!(matches!(actions[2], DriverAction::MapInputRegion(1_048_576)));
}

#[test]
fn placement_is_a_configuration_value() {
    let placement = Placement { start_offset: 0x10, end_offset: 0x90 };
    assert_eq!(
        Harness::locate(Some(0x1000), Some(0x2000), placement),
        Ok(Located { start_pc: 0x1010, end_pc: 0x1090, abort_addr: 0x2000 })
    );
}

#[test]
fn missing_entry_symbol_is_reported_first() {
    assert_eq!(
        Harness::locate(None, Some(CLEANUP), Placement::default()),
        Err(HarnessError::SymbolNotFound(Symbol::Entry))
    );
    assert_eq!(
        Harness::locate(None, None, Placement::default()),
        Err(HarnessError::SymbolNotFound(Symbol::Entry))
    );
}

#[test]
fn missing_cleanup_symbol_is_reported() {
    assert_eq!(
        Harness::locate(Some(MAIN), None, Placement::default()),
        Err(HarnessError::SymbolNotFound(Symbol::Cleanup))
    );
}

#[test]
fn checkpoint_past_the_address_space_is_refused() {
    assert_eq!(
        Harness::locate(Some(u64::MAX - 0x177), Some(CLEANUP), Placement::default()),
        Err(HarnessError::AddressOutOfRange)
    );
    assert_eq!(
        Harness::locate(Some(u64::MAX - 0x178), Some(CLEANUP), Placement::default()),
        Ok(Located { start_pc: u64::MAX, end_pc: u64::MAX - 0x34, abort_addr: CLEANUP })
    );
    let placement = Placement { start_offset: 0, end_offset: 2 };
    assert_eq!(
        Harness::locate(Some(u64::MAX - 1), Some(CLEANUP), placement),
        Err(HarnessError::AddressOutOfRange)
    );
}

#[test]
fn cold_run_must_end_at_a_breakpoint() {
    for stop in [StopReason::Fault, StopReason::SyscallExit, StopReason::Timeout] {
        let next = located().arrive(stop, Some(0), &[Some(1)]);
        assert_eq!(next.err(), Some(HarnessError::UnexpectedStop));
    }
    let next = located().arrive(StopReason::Timeout, None, &[]);
    assert_eq!(next.err(), Some(HarnessError::UnexpectedStop));
}

#[test]
fn unreadable_program_counter_stops_the_setup() {
    let next = located().arrive(StopReason::Breakpoint(0x40_1178), None, &[Some(1)]);
    assert_eq!(next.err(), Some(HarnessError::ReadPcFailed));
}

#[test]
fn arrival_captures_the_registers() {
    let anchored = located()
        .arrive(StopReason::Breakpoint(0x40_1178), Some(0x40_1178), &[Some(8), None])
        .expect("the start was reached");
    assert_eq!(anchored.located(), located());
    let (_, snapshot) = Harness::init(anchored, Some(REGION)).expect("the region was mapped");
    assert_eq!(snapshot.regs().as_slice(), &[8, 0]);
    assert_eq!(snapshot.reg_num(), 2);
}

#[test]
fn unmapped_region_stops_the_setup() {
    let anchored = located()
        .arrive(StopReason::Breakpoint(0x40_1178), Some(0x40_1178), &[])
        .expect("the start was reached");
    assert_eq!(Harness::init(anchored, None).err(), Some(HarnessError::MapFailed));
}

#[test]
fn ready_harness_knows_its_checkpoint() {
    let (harness, _) = ready();
    assert_eq!(harness.input_addr(), REGION);
    assert_eq!(harness.abort_addr(), CLEANUP);
    assert_eq!(
        harness.checkpoint(),
        Checkpoint {
            start_address: 0x40_1178,
            end_address: 0x40_1144,
            input_region_base: REGION,
            input_region_capacity: 1_048_576,
        }
    );
    harness.post_fork();
}

#[test]
fn editing_leaves_arguments_and_environment() {
    let mut args = vec!["target".to_string(), "-x".to_string()];
    Harness::edit_args(&mut args);
    assert_eq!(args, vec!["target".to_string(), "-x".to_string()]);
    let mut env = vec![("A".to_string(), "1".to_string())];
    Harness::edit_env(&mut env);
    assert_eq!(env, vec![("A".to_string(), "1".to_string())]);
}

#[test]
fn iteration_restores_registers_before_it_stores_input() {
    let (harness, registers) = ready();
    let mut injector = InputInjectorModule::new();
    let mut meta = ExecMeta::new();
    let plan = harness
        .begin_iteration(&registers, &mut injector, &mut meta, 3, &[0xde, 0xad])
        .expect("the counts agree");
    assert_eq!(plan.len(), 6);
    for (i, value) in [1u64, 0, 3].iter().enumerate() {
        match &plan[i] {
            DriverAction::WriteRegister(w) => {
                assert_eq!(*w, RegisterWrite { index: i, value: *value })
            }
            other => panic!("unexpected action {:?}", other),
        }
    }
    match &plan[3] {
        DriverAction::WriteMemory(w) => {
            assert_eq!(w.addr, REGION);
            assert_eq!(w.bytes, vec![0xde, 0xad]);
        }
        other => panic!("unexpected action {:?}", other),
    }
    assert!(matches!(plan[4], DriverAction::SetBreakpoint(CLEANUP)));
    assert!(matches!(plan[5], DriverAction::Run));
    assert_eq!(injector.input_addr(), REGION);
    assert_eq!(injector.input().as_slice(), &[0xde, 0xad]);
    assert!(!meta.ignore);
}

#[test]
fn iteration_cuts_an_oversized_input() {
    let (harness, registers) = ready();
    let mut injector = InputInjectorModule::new();
    let mut meta = ExecMeta::new();
    let input = vec![0x5au8; 2_000_000];
    let plan = harness
        .begin_iteration(&registers, &mut injector, &mut meta, 3, &input)
        .expect("the counts agree");
    match &plan[3] {
        DriverAction::WriteMemory(w) => {
            assert_eq!(w.addr, harness.checkpoint().input_region_base);
            assert_eq!(w.bytes.len(), 1_048_576);
            assert!(w.bytes.len() <= harness.checkpoint().input_region_capacity);
        }
        other => panic!("unexpected action {:?}", other),
    }
    assert_eq!(injector.input().len(), 1_048_576);
}

#[test]
fn iteration_with_a_foreign_snapshot_changes_nothing() {
    let (harness, registers) = ready();
    let mut injector = InputInjectorModule::new();
    injector.set_input_addr(0x99);
    let mut meta = ExecMeta::new();
    injector.pre_exec(&[1, 2, 3], &mut meta);
    let plan = harness.begin_iteration(&registers, &mut injector, &mut meta, 5, &[4, 5]);
    assert_eq!(plan.err(), Some(HarnessError::RegisterCountMismatch));
    assert_eq!(injector.input().as_slice(), &[1, 2, 3]);
    assert_eq!(injector.input_addr(), 0x99);
    assert!(!meta.ignore);
}

#[test]
fn stops_are_classified_by_their_reason() {
    let (harness, _) = ready();
    assert_eq!(harness.run(StopReason::Breakpoint(0x40_1144)).outcome, IterationOutcome::Normal);
    assert_eq!(harness.run(StopReason::Breakpoint(CLEANUP)).outcome, IterationOutcome::Normal);
    assert_eq!(harness.run(StopReason::SyscallExit).outcome, IterationOutcome::Terminated);
    assert_eq!(harness.run(StopReason::Fault).outcome, IterationOutcome::Crash);
    assert_eq!(harness.run(StopReason::Timeout).outcome, IterationOutcome::Timeout);
}

#[test]
fn only_a_breakpoint_is_a_normal_end() {
    let (harness, _) = ready();
    for stop in [StopReason::Fault, StopReason::SyscallExit, StopReason::Timeout] {
        assert_ne!(harness.run(stop).outcome, IterationOutcome::Normal, "{stop:?}");
    }
    for addr in [0u64, 0x40_1144, 0x40_1178, CLEANUP, u64::MAX] {
        assert_eq!(harness.run(StopReason::Breakpoint(addr)).outcome, IterationOutcome::Normal);
    }
}

#[test]
fn guest_exit_is_reported_as_terminated() {
    let (harness, _) = ready();
    assert_eq!(
        harness.run(StopReason::SyscallExit),
        RunReport { outcome: IterationOutcome::Terminated, remove_breakpoint: Some(CLEANUP) }
    );
    assert_eq!(
        harness.run(StopReason::Timeout),
        RunReport { outcome: IterationOutcome::Timeout, remove_breakpoint: Some(CLEANUP) }
    );
    assert_eq!(harness.run(StopReason::Breakpoint(CLEANUP)).outcome, IterationOutcome::Normal);
}

#[test]
fn abort_breakpoint_stays_when_it_was_hit() {
    let (harness, _) = ready();
    assert_eq!(
        harness.run(StopReason::Breakpoint(CLEANUP)),
        RunReport { outcome: IterationOutcome::Normal, remove_breakpoint: None }
    );
    assert_eq!(
        harness.run(StopReason::Breakpoint(0x40_1144)),
        RunReport { outcome: IterationOutcome::Normal, remove_breakpoint: Some(CLEANUP) }
    );
    assert_eq!(
        harness.run(StopReason::Fault),
        RunReport { outcome: IterationOutcome::Crash, remove_breakpoint: Some(CLEANUP) }
    );
}

#[test]
fn reset_passes_address_and_length() {
    let (harness, _) = ready();
    let plan = harness.reset(&[1, 2, 3, 4, 5]);
    assert_eq!(plan.write.addr, REGION);
    assert_eq!(plan.write.bytes, vec![1, 2, 3, 4, 5]);
    assert_eq!(plan.arg0, REGION);
    assert_eq!(plan.arg1, 5);
}

#[test]
fn reset_cuts_an_oversized_input() {
    let (harness, _) = ready();
    let input: Vec<u8> = (0..1_048_577u32).map(|i| (i % 253) as u8).collect();
    let plan = harness.reset(&input);
    assert_eq!(plan.write.bytes.as_slice(), &input[..1_048_576]);
    assert_eq!(plan.arg1, 1_048_576);
    let empty = harness.reset(&[]);
    assert!(empty.write.bytes.is_empty());
    assert_eq!(empty.arg1, 0);
}
