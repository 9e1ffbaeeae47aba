//! Execution driver.
//!
//! The driver owns the iteration checkpoint and walks through these states:
//! uninitialized, until the setup has succeeded; ready, as soon as a
//! [`Harness`] exists; running, once [`Harness::begin_iteration`] has handed
//! out the plan of an iteration; and completed, crashed, timed out or
//! terminated, which [`Harness::run`] tells apart by the emulator's stop and
//! after which the harness is ready again. Only a failed setup is terminal:
//! it ends in a [`HarnessError`], and no harness comes to exist.
//!
//! The setup has three stages, each of which judges one report of the
//! emulator and says what the host does next: the entry symbols are resolved
//! and the checkpoint addresses derived ([`Harness::locate`]), the guest is
//! run from cold start to the iteration start and its registers are captured
//! ([`Located::arrive`]), and the input region is reserved
//! ([`Harness::init`]).

use vstd::prelude::*;
use vstd::slice::{slice_subrange, slice_to_vec};

use crate::guest::{GuestAddr, GuestReg, GuestWrite, GuestWriteView, StopReason};
use crate::modules::input_injector::{delivered, InputInjectorModule, InjectorView};
use crate::modules::register::{captured, restore_plan, RegisterResetModule, RegisterWrite};
use crate::modules::ExecMeta;

verus! {

/// Capacity of the guest memory region that holds the candidate input.
pub const MAX_INPUT_SIZE: usize = 1_048_576;

/// Distance from the entry symbol to the iteration start in the stock
/// target.
pub const START_OFFSET: GuestAddr = 0x178;

/// Distance from the entry symbol to the iteration end in the stock target.
pub const END_OFFSET: GuestAddr = 0x144;

/// A symbol of the target binary that the harness needs.
#[derive(Clone, Copy, Debug, PartialEq, Eq, Structural)]
pub enum Symbol {
    /// The function that holds both checkpoint addresses.
    Entry,
    /// The function whose first instruction ends an iteration early.
    Cleanup,
}

/// Why the harness cannot run.
#[derive(Clone, Copy, Debug, PartialEq, Eq, Structural)]
pub enum HarnessError {
    /// The target binary does not define the symbol.
    SymbolNotFound(Symbol),
    /// A checkpoint address would lie past the end of the address space.
    AddressOutOfRange,
    /// The cold run ended otherwise than at a breakpoint.
    UnexpectedStop,
    /// The program counter could not be read at the iteration start.
    ReadPcFailed,
    /// The emulator could not reserve the input region.
    MapFailed,
    /// The stored register snapshot covers another number of registers than
    /// the emulator reports.
    RegisterCountMismatch,
}

/// How one iteration ended.
#[derive(Clone, Copy, Debug, PartialEq, Eq, Structural)]
pub enum IterationOutcome {
    /// The guest ran into a breakpoint.
    Normal,
    /// The guest faulted.
    Crash,
    /// The emulator gave up waiting for the guest.
    Timeout,
    /// The guest ended itself. The worker cannot go on with this guest; whoever
    /// supervises it starts a fresh one.
    Terminated,
}

/// Where the checkpoint addresses lie relative to the entry symbol. The
/// distances follow from the compiled shape of the target and have to be
/// derived anew for every target binary.
#[derive(Clone, Copy, Debug, PartialEq, Eq, Structural)]
pub struct Placement {
    /// Distance from the entry symbol to the iteration start.
    pub start_offset: GuestAddr,
    /// Distance from the entry symbol to the iteration end.
    pub end_offset: GuestAddr,
}

impl Default for Placement {
    /// The placement that fits the stock target.
    fn default() -> (placement: Self)
        ensures
            placement == (Placement { start_offset: START_OFFSET, end_offset: END_OFFSET }),
    {
        Placement { start_offset: START_OFFSET, end_offset: END_OFFSET }
    }
}

/// The addresses that bound one iteration and the memory region that holds
/// its input.
#[derive(Clone, Copy, Debug, PartialEq, Eq, Structural)]
pub struct Checkpoint {
    pub start_address: GuestAddr,
    pub end_address: GuestAddr,
    pub input_region_base: GuestAddr,
    pub input_region_capacity: usize,
}

/// One step that the driver asks of the host.
#[derive(Debug)]
pub enum DriverAction {
    /// Store a value in a register; a refusal of the emulator is tolerated.
    WriteRegister(RegisterWrite),
    /// Store bytes in guest memory.
    WriteMemory(GuestWrite),
    /// Install a breakpoint.
    SetBreakpoint(GuestAddr),
    /// Remove a breakpoint.
    RemoveBreakpoint(GuestAddr),
    /// Reserve a private, readable and writable guest memory region of this
    /// many bytes, at an address of the emulator's choice.
    MapInputRegion(usize),
    /// Resume the guest until it stops.
    Run,
}

/// What a [`DriverAction`] means.
pub enum DriverActionView {
    WriteRegister(RegisterWrite),
    WriteMemory(GuestWriteView),
    SetBreakpoint(GuestAddr),
    RemoveBreakpoint(GuestAddr),
    MapInputRegion(usize),
    Run,
}

impl View for DriverAction {
    type V = DriverActionView;

    open spec fn view(&self) -> DriverActionView {
        match self {
            DriverAction::WriteRegister(w) => DriverActionView::WriteRegister(*w),
            DriverAction::WriteMemory(w) => DriverActionView::WriteMemory(w@),
            DriverAction::SetBreakpoint(addr) => DriverActionView::SetBreakpoint(*addr),
            DriverAction::RemoveBreakpoint(addr) => DriverActionView::RemoveBreakpoint(*addr),
            DriverAction::MapInputRegion(size) => DriverActionView::MapInputRegion(*size),
            DriverAction::Run => DriverActionView::Run,
        }
    }
}

/// First stage of the setup: the checkpoint addresses are known. Next comes
/// the cold run ([`Located::cold_run`]).
#[derive(Clone, Copy, Debug, PartialEq, Eq, Structural)]
pub struct Located {
    /// Where an iteration starts.
    pub start_pc: GuestAddr,
    /// Where an iteration ends.
    pub end_pc: GuestAddr,
    /// Where an iteration is cut short.
    pub abort_addr: GuestAddr,
}

/// The checkpoint addresses for an entry symbol at `main_addr`, where both lie
/// inside the address space.
pub open spec fn placed(
    main_addr: GuestAddr,
    abort_addr: GuestAddr,
    placement: Placement,
) -> Option<Located> {
    if main_addr + placement.start_offset <= GuestAddr::MAX && main_addr + placement.end_offset
        <= GuestAddr::MAX {
        Some(
            Located {
                start_pc: (main_addr + placement.start_offset) as GuestAddr,
                end_pc: (main_addr + placement.end_offset) as GuestAddr,
                abort_addr,
            },
        )
    } else {
        None
    }
}

impl Located {
    /// The cold run: the guest is started with one breakpoint, at the
    /// iteration start.
    pub fn cold_run(&self) -> (actions: Vec<DriverAction>)
        ensures
            actions@.map_values(|a: DriverAction| a@) == seq![
                DriverActionView::SetBreakpoint(self.start_pc),
                DriverActionView::Run,
            ],
    {
        let mut actions: Vec<DriverAction> = Vec::new();
        actions.push(DriverAction::SetBreakpoint(self.start_pc));
        actions.push(DriverAction::Run);
        assert(actions@.map_values(|a: DriverAction| a@) =~= seq![
            DriverActionView::SetBreakpoint(self.start_pc),
            DriverActionView::Run,
        ]);
        actions
    }

    /// Judges the stop that ended the cold run.
    ///
    /// Only a breakpoint is expected, since the breakpoint at the iteration
    /// start is the only one installed. `pc` is what reading the program
    /// counter gave afterwards, and `registers` what reading each register
    /// gave, in index order; neither is looked at after any other stop.
    pub fn arrive(
        self,
        stop: StopReason,
        pc: Option<GuestReg>,
        registers: &[Option<GuestReg>],
    ) -> (next: Result<Anchored, HarnessError>)
        ensures
            stop is Breakpoint && pc is Some ==> (next matches Ok(anchored) && anchored@ == (
                AnchoredView { located: self, snapshot: captured(registers@) }
            )),
            stop is Breakpoint && pc is None ==> (next matches Err(e) && e
                == HarnessError::ReadPcFailed),
            !(stop is Breakpoint) ==> (next matches Err(e) && e == HarnessError::UnexpectedStop),
    {
        match stop {
            StopReason::Breakpoint(_) => {
                if pc.is_none() {
                    return Err(HarnessError::ReadPcFailed);
                }
                let mut snapshot = RegisterResetModule::new();
                snapshot.save(registers);
                Ok(Anchored { located: self, snapshot })
            },
            _ => Err(HarnessError::UnexpectedStop),
        }
    }
}

/// Second stage of the setup: the guest stands at the iteration start and its
/// registers are captured. Next the breakpoints are moved and the input
/// region is reserved ([`Anchored::settle`]).
#[derive(Debug)]
pub struct Anchored {
    located: Located,
    snapshot: RegisterResetModule,
}

/// An [`Anchored`] stage as contracts see it.
pub struct AnchoredView {
    pub located: Located,
    pub snapshot: Seq<GuestReg>,
}

impl View for Anchored {
    type V = AnchoredView;

    closed spec fn view(&self) -> AnchoredView {
        AnchoredView { located: self.located, snapshot: self.snapshot@ }
    }
}

impl Anchored {
    /// The checkpoint addresses.
    pub fn located(&self) -> (located: Located)
        ensures
            located == self@.located,
    {
        self.located
    }

    /// What remains of the setup: the breakpoint at the iteration start
    /// goes, the one at the iteration end is installed for good, and the
    /// input region of [`MAX_INPUT_SIZE`] bytes is reserved.
    pub fn settle(&self) -> (actions: Vec<DriverAction>)
        ensures
            actions@.map_values(|a: DriverAction| a@) == seq![
                DriverActionView::RemoveBreakpoint(self@.located.start_pc),
                DriverActionView::SetBreakpoint(self@.located.end_pc),
                DriverActionView::MapInputRegion(MAX_INPUT_SIZE),
            ],
    {
        let mut actions: Vec<DriverAction> = Vec::new();
        actions.push(DriverAction::RemoveBreakpoint(self.located.start_pc));
        actions.push(DriverAction::SetBreakpoint(self.located.end_pc));
        actions.push(DriverAction::MapInputRegion(MAX_INPUT_SIZE));
        assert(actions@.map_values(|a: DriverAction| a@) =~= seq![
            DriverActionView::RemoveBreakpoint(self@.located.start_pc),
            DriverActionView::SetBreakpoint(self@.located.end_pc),
            DriverActionView::MapInputRegion(MAX_INPUT_SIZE),
        ]);
        actions
    }
}

/// The outcome that an emulator stop stands for. Only a breakpoint ends a
/// run that went through; every other stop is reported as what it is.
pub open spec fn classify(stop: StopReason) -> IterationOutcome {
    match stop {
        StopReason::Breakpoint(_) => IterationOutcome::Normal,
        StopReason::Fault => IterationOutcome::Crash,
        StopReason::Timeout => IterationOutcome::Timeout,
        StopReason::SyscallExit => IterationOutcome::Terminated,
    }
}

/// The steps of one iteration: every register of `snapshot` is restored, then
/// `input` is stored at `input_addr`, then the breakpoint at `abort_addr` is
/// installed and the guest resumed.
pub open spec fn iteration_plan(
    snapshot: Seq<GuestReg>,
    input_addr: GuestAddr,
    input: Seq<u8>,
    abort_addr: GuestAddr,
) -> Seq<DriverActionView> {
    restore_plan(snapshot).map_values(|w: RegisterWrite| DriverActionView::WriteRegister(w))
        + seq![
        DriverActionView::WriteMemory(GuestWriteView { addr: input_addr, bytes: input }),
        DriverActionView::SetBreakpoint(abort_addr),
        DriverActionView::Run,
    ]
}

/// What the host does once the guest has stopped.
#[derive(Clone, Copy, Debug, PartialEq, Eq, Structural)]
pub struct RunReport {
    /// How the iteration ended.
    pub outcome: IterationOutcome,
    /// The breakpoint to remove before the next iteration, if any.
    pub remove_breakpoint: Option<GuestAddr>,
}

/// What [`Harness::reset`] asks of the host: store the input, then pass its
/// address and length to the target function as its first two arguments, then
/// resume the guest.
#[derive(Debug)]
pub struct ResetPlan {
    /// The input, stored at the base of the input region.
    pub write: GuestWrite,
    /// First argument of the target function: where the input lies.
    pub arg0: GuestAddr,
    /// Second argument of the target function: how long the input is.
    pub arg1: GuestReg,
}

/// The harness once its checkpoint is established. Nothing changes it
/// afterwards.
#[derive(Debug)]
pub struct Harness {
    input_addr: GuestAddr,
    abort_addr: GuestAddr,
    start_pc: GuestAddr,
    end_pc: GuestAddr,
}

/// A [`Harness`] as contracts see it.
pub struct HarnessView {
    pub input_addr: GuestAddr,
    pub located: Located,
}

impl View for Harness {
    type V = HarnessView;

    closed spec fn view(&self) -> HarnessView {
        HarnessView {
            input_addr: self.input_addr,
            located: Located {
                start_pc: self.start_pc,
                end_pc: self.end_pc,
                abort_addr: self.abort_addr,
            },
        }
    }
}

impl Harness {
    /// Leaves the environment of the target as it is.
    #[inline]
    pub fn edit_env(_env: &mut Vec<(String, String)>)
        ensures
            *final(_env) == *old(_env),
    {
    }

    /// Leaves the arguments of the target as they are.
    #[inline]
    pub fn edit_args(_args: &mut Vec<String>)
        ensures
            *final(_args) == *old(_args),
    {
    }

    /// Derives the checkpoint addresses from the resolved symbols.
    ///
    /// `main_addr` and `cleanup_addr` are what resolving the entry symbol and
    /// the cleanup symbol gave. The entry symbol is looked at first.
    pub fn locate(
        main_addr: Option<GuestAddr>,
        cleanup_addr: Option<GuestAddr>,
        placement: Placement,
    ) -> (located: Result<Located, HarnessError>)
        ensures
            located == match (main_addr, cleanup_addr) {
                (None, _) => Err(HarnessError::SymbolNotFound(Symbol::Entry)),
                (Some(_), None) => Err(HarnessError::SymbolNotFound(Symbol::Cleanup)),
                (Some(main), Some(cleanup)) => match placed(main, cleanup, placement) {
                    Some(l) => Ok(l),
                    None => Err(HarnessError::AddressOutOfRange),
                },
            },
    {
        let main = match main_addr {
            Some(main) => main,
            None => {
                return Err(HarnessError::SymbolNotFound(Symbol::Entry));
            },
        };
        let abort_addr = match cleanup_addr {
            Some(cleanup) => cleanup,
            None => {
                return Err(HarnessError::SymbolNotFound(Symbol::Cleanup));
            },
        };
        match (main.checked_add(placement.start_offset), main.checked_add(placement.end_offset)) {
            (Some(start_pc), Some(end_pc)) => Ok(Located { start_pc, end_pc, abort_addr }),
            _ => Err(HarnessError::AddressOutOfRange),
        }
    }

    /// Completes the setup with the outcome of reserving the input region:
    /// its base address, or `None` if the emulator could not map it.
    ///
    /// On success the harness is ready for its first iteration, and the
    /// register snapshot taken at the iteration start comes with it.
    pub fn init(anchored: Anchored, region: Option<GuestAddr>) -> (ready: Result<
        (Harness, RegisterResetModule),
        HarnessError,
    >)
        ensures
            region matches Some(base) ==> (ready matches Ok(pair) && pair.0@ == (HarnessView {
                input_addr: base,
                located: anchored@.located,
            }) && pair.1@ == anchored@.snapshot),
            region is None ==> (ready matches Err(e) && e == HarnessError::MapFailed),
    {
        match region {
            Some(base) => Ok(
                (
                    Harness {
                        input_addr: base,
                        abort_addr: anchored.located.abort_addr,
                        start_pc: anchored.located.start_pc,
                        end_pc: anchored.located.end_pc,
                    },
                    anchored.snapshot,
                ),
            ),
            None => Err(HarnessError::MapFailed),
        }
    }

    /// The established checkpoint.
    pub fn checkpoint(&self) -> (checkpoint: Checkpoint)
        ensures
            checkpoint == (Checkpoint {
                start_address: self@.located.start_pc,
                end_address: self@.located.end_pc,
                input_region_base: self@.input_addr,
                input_region_capacity: MAX_INPUT_SIZE,
            }),
    {
        Checkpoint {
            start_address: self.start_pc,
            end_address: self.end_pc,
            input_region_base: self.input_addr,
            input_region_capacity: MAX_INPUT_SIZE,
        }
    }

    /// Base of the guest memory region reserved for the input.
    pub fn input_addr(&self) -> (addr: GuestAddr)
        ensures
            addr == self@.input_addr,
    {
        self.input_addr
    }

    /// Where an iteration is cut short.
    pub fn abort_addr(&self) -> (addr: GuestAddr)
        ensures
            addr == self@.located.abort_addr,
    {
        self.abort_addr
    }

    /// Nothing is left to do after a fork.
    #[inline]
    pub fn post_fork(&self) {
    }

    /// Plans one iteration on the candidate input `input`.
    ///
    /// `num_regs` is the number of registers that the emulator reports. The
    /// registers are restored first, so that no input is stored while a stale
    /// stack pointer is in place; then the accepted part of the input is
    /// stored at the base of the input region, where it fits, and becomes the
    /// injector's cursor; then the guest is resumed with the breakpoint that
    /// cuts an iteration short. With a snapshot that does not fit the
    /// emulator nothing is planned and nothing changes.
    pub fn begin_iteration(
        &self,
        registers: &RegisterResetModule,
        injector: &mut InputInjectorModule,
        meta: &mut ExecMeta,
        num_regs: usize,
        input: &[u8],
    ) -> (plan: Result<Vec<DriverAction>, HarnessError>)
        ensures
            num_regs != registers@.len() ==> {
                &&& plan matches Err(e)
                &&& e == HarnessError::RegisterCountMismatch
                &&& final(injector)@ == old(injector)@
                &&& *final(meta) == *old(meta)
            },
            num_regs == registers@.len() ==> {
                &&& plan matches Ok(actions)
                &&& actions@.map_values(|a: DriverAction| a@) == iteration_plan(
                    registers@,
                    self@.input_addr,
                    delivered(input@, old(injector)@.max_size),
                    self@.located.abort_addr,
                )
                &&& final(injector)@ == (InjectorView {
                    input: delivered(input@, old(injector)@.max_size),
                    input_addr: self@.input_addr,
                    max_size: old(injector)@.max_size,
                })
                &&& delivered(input@, old(injector)@.max_size).len() <= MAX_INPUT_SIZE
                &&& final(meta).ignore == old(meta).ignore
                &&& forall|i: int, j: int|
                    0 <= i < actions@.len() && 0 <= j < actions@.len()
                        && #[trigger] actions@[i] is WriteRegister
                        && #[trigger] actions@[j] is WriteMemory ==> i < j
            },
    {
        let writes = match registers.restore(num_regs) {
            Ok(writes) => writes,
            Err(e) => {
                return Err(e);
            },
        };
        let mut actions: Vec<DriverAction> = Vec::new();
        let mut i: usize = 0;
        while i < writes.len()
            invariant
                i <= writes@.len(),
                actions@.len() == i,
                forall|k: int|
                    0 <= k < i ==> (#[trigger] actions@[k])@ == DriverActionView::WriteRegister(
                        writes@[k],
                    ),
            decreases writes@.len() - i,
        {
            actions.push(DriverAction::WriteRegister(writes[i]));
            i += 1;
        }
        injector.set_input_addr(self.input_addr);
        if let Some(write) = injector.pre_exec(input, meta) {
            actions.push(DriverAction::WriteMemory(write));
        }
        actions.push(DriverAction::SetBreakpoint(self.abort_addr));
        actions.push(DriverAction::Run);
        proof {
            let views = actions@.map_values(|a: DriverAction| a@);
            let expected = iteration_plan(
                registers@,
                self@.input_addr,
                delivered(input@, old(injector)@.max_size),
                self@.located.abort_addr,
            );
            assert(views.len() == expected.len());
            assert forall|k: int| 0 <= k < views.len() implies views[k] == expected[k] by {
                if k < writes@.len() {
                    assert(actions@[k]@ == DriverActionView::WriteRegister(writes@[k]));
                }
            }
            assert(views == expected);
        }
        Ok(actions)
    }

    /// Judges the stop that ended an iteration.
    ///
    /// The outcome follows from the stop alone: an iteration is normal only
    /// if it ran into a breakpoint, a fault is a crash, a timeout a timeout,
    /// and a guest that ended itself is reported as terminated. The
    /// breakpoint that cuts an iteration short stays installed when it was
    /// the one that was hit, and is to be removed after any other stop.
    pub fn run(&self, stop: StopReason) -> (report: RunReport)
        ensures
            report.outcome == classify(stop),
            report.outcome == IterationOutcome::Normal <==> stop is Breakpoint,
            report.outcome == IterationOutcome::Crash <==> stop is Fault,
            report.outcome == IterationOutcome::Timeout <==> stop is Timeout,
            report.outcome == IterationOutcome::Terminated <==> stop is SyscallExit,
            report.remove_breakpoint == if stop == StopReason::Breakpoint(
                self@.located.abort_addr,
            ) {
                None
            } else {
                Some(self@.located.abort_addr)
            },
    {
        let outcome = match stop {
            StopReason::Breakpoint(_) => IterationOutcome::Normal,
            StopReason::Fault => IterationOutcome::Crash,
            StopReason::Timeout => IterationOutcome::Timeout,
            StopReason::SyscallExit => IterationOutcome::Terminated,
        };
        let remove_breakpoint = match stop {
            StopReason::Breakpoint(addr) => if addr == self.abort_addr {
                None
            } else {
                Some(self.abort_addr)
            },
            _ => Some(self.abort_addr),
        };
        RunReport { outcome, remove_breakpoint }
    }

    /// Plans a direct call of the target function on `input`: the first
    /// [`MAX_INPUT_SIZE`] bytes of the input are stored at the base of the
    /// input region, and the target function gets their address and their
    /// number as arguments.
    pub fn reset(&self, input: &[u8]) -> (plan: ResetPlan)
        ensures
            plan.write@ == (GuestWriteView {
                addr: self@.input_addr,
                bytes: delivered(input@, MAX_INPUT_SIZE),
            }),
            plan.arg0 == self@.input_addr,
            plan.arg1 == delivered(input@, MAX_INPUT_SIZE).len(),
            plan.arg1 <= MAX_INPUT_SIZE,
    {
        let kept = if input.len() > MAX_INPUT_SIZE {
            slice_subrange(input, 0, MAX_INPUT_SIZE)
        } else {
            input
        };
        let len = kept.len() as GuestReg;
        ResetPlan {
            write: GuestWrite { addr: self.input_addr, bytes: slice_to_vec(kept) },
            arg0: self.input_addr,
            arg1: len,
        }
    }
}

} // verus!
