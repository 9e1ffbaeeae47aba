//! Register snapshot store.
//!
//! The store keeps a copy of the guest register file, taken when execution
//! first reaches the iteration start, and says which register writes bring
//! the guest back to that state. Writing is the emulator's work; a write that
//! the emulator refuses is skipped, and the others still take place.

use vstd::prelude::*;

use crate::guest::GuestReg;
use crate::harness::HarnessError;

verus! {

/// One register write that a restoration asks for.
#[derive(Clone, Copy, Debug, PartialEq, Eq, Structural)]
pub struct RegisterWrite {
    /// Index of the register in the emulator's register file.
    pub index: usize,
    /// The value to store.
    pub value: GuestReg,
}

/// The snapshot that reading every register gives: the value read, or 0 for
/// a register that could not be read.
pub open spec fn captured(reads: Seq<Option<GuestReg>>) -> Seq<GuestReg> {
    Seq::new(
        reads.len(),
        |i: int|
            match reads[i] {
                Some(value) => value,
                None => 0,
            },
    )
}

/// The writes that restore `snapshot`: one per register, in index order.
pub open spec fn restore_plan(snapshot: Seq<GuestReg>) -> Seq<RegisterWrite> {
    Seq::new(snapshot.len(), |i: int| RegisterWrite { index: i as usize, value: snapshot[i] })
}

/// The register file after `writes` were attempted in order. A write takes
/// effect if the register exists and is in `accepted`, the set of registers
/// that the emulator lets the host write; any other write changes nothing.
pub open spec fn apply_writes(
    file: Seq<GuestReg>,
    writes: Seq<RegisterWrite>,
    accepted: Set<int>,
) -> Seq<GuestReg>
    decreases writes.len(),
{
    if writes.len() == 0 {
        file
    } else {
        let w = writes[0];
        let next = if w.index < file.len() && accepted.contains(w.index as int) {
            file.update(w.index as int, w.value)
        } else {
            file
        };
        apply_writes(next, writes.drop_first(), accepted)
    }
}

/// The register file after restoring `snapshot`: every register that the
/// snapshot covers and the emulator lets the host write holds its snapshot
/// value, every other register is untouched.
pub open spec fn restored(
    file: Seq<GuestReg>,
    snapshot: Seq<GuestReg>,
    accepted: Set<int>,
) -> Seq<GuestReg> {
    Seq::new(
        file.len(),
        |i: int|
            if i < snapshot.len() && accepted.contains(i) {
                snapshot[i]
            } else {
                file[i]
            },
    )
}

proof fn apply_plan_suffix(
    file: Seq<GuestReg>,
    snapshot: Seq<GuestReg>,
    accepted: Set<int>,
    from: int,
)
    requires
        0 <= from <= snapshot.len() <= usize::MAX,
    ensures
        apply_writes(file, restore_plan(snapshot).skip(from), accepted) == Seq::new(
            file.len(),
            |i: int|
                if from <= i < snapshot.len() && accepted.contains(i) {
                    snapshot[i]
                } else {
                    file[i]
                },
        ),
    decreases snapshot.len() - from,
{
    let plan = restore_plan(snapshot);
    let writes = plan.skip(from);
    let goal = Seq::new(
        file.len(),
        |i: int|
            if from <= i < snapshot.len() && accepted.contains(i) {
                snapshot[i]
            } else {
                file[i]
            },
    );
    if from == snapshot.len() {
        assert(writes.len() == 0);
        assert(goal == file);
    } else {
        let w = writes[0];
        assert(w == plan[from]);
        assert(w.index == from);
        let next = if w.index < file.len() && accepted.contains(w.index as int) {
            file.update(w.index as int, w.value)
        } else {
            file
        };
        assert(writes.drop_first() == plan.skip(from + 1));
        apply_plan_suffix(next, snapshot, accepted, from + 1);
        assert(apply_writes(file, writes, accepted) == goal);
    }
}

/// Attempting the writes of a restoration plan, in order, gives the restored
/// register file.
pub proof fn restore_plan_restores(
    file: Seq<GuestReg>,
    snapshot: Seq<GuestReg>,
    accepted: Set<int>,
)
    requires
        snapshot.len() <= usize::MAX,
    ensures
        apply_writes(file, restore_plan(snapshot), accepted) == restored(file, snapshot, accepted),
{
    apply_plan_suffix(file, snapshot, accepted, 0);
    assert(restore_plan(snapshot).skip(0) == restore_plan(snapshot));
    assert(apply_writes(file, restore_plan(snapshot), accepted) == restored(
        file,
        snapshot,
        accepted,
    ));
}

/// Restoration is idempotent: restoring the same snapshot a second time, with
/// no capture in between, leaves the register file as the first restoration
/// left it.
pub proof fn restore_is_idempotent(
    file: Seq<GuestReg>,
    snapshot: Seq<GuestReg>,
    accepted: Set<int>,
)
    requires
        snapshot.len() <= usize::MAX,
    ensures
        apply_writes(
            apply_writes(file, restore_plan(snapshot), accepted),
            restore_plan(snapshot),
            accepted,
        ) == apply_writes(file, restore_plan(snapshot), accepted),
{
    let once = apply_writes(file, restore_plan(snapshot), accepted);
    restore_plan_restores(file, snapshot, accepted);
    restore_plan_restores(once, snapshot, accepted);
    assert(restored(once, snapshot, accepted) == once);
}

/// Keeps the guest register file as it was at the iteration start.
#[derive(Debug)]
pub struct RegisterResetModule {
    reg_num: usize,
    regs: Vec<GuestReg>,
}

impl View for RegisterResetModule {
    type V = Seq<GuestReg>;

    /// The stored snapshot, one value per register.
    closed spec fn view(&self) -> Seq<GuestReg> {
        self.regs@
    }
}

impl Default for RegisterResetModule {
    fn default() -> (module: Self)
        ensures
            module@ == Seq::<GuestReg>::empty(),
    {
        Self { reg_num: 0, regs: Vec::new() }
    }
}

impl RegisterResetModule {
    /// The snapshot covers as many registers as the emulator reported when it
    /// was taken.
    #[verifier::type_invariant]
    spec fn inv(self) -> bool {
        self.regs@.len() == self.reg_num
    }

    /// A store that holds no snapshot yet.
    pub fn new() -> (module: Self)
        ensures
            module@ == Seq::<GuestReg>::empty(),
    {
        Self { reg_num: 0, regs: Vec::new() }
    }

    /// Number of registers that the snapshot covers.
    pub fn reg_num(&self) -> (n: usize)
        ensures
            n == self@.len(),
    {
        proof {
            use_type_invariant(self);
        }
        self.reg_num
    }

    /// The stored snapshot.
    pub fn regs(&self) -> (regs: &Vec<GuestReg>)
        ensures
            regs@ == self@,
    {
        &self.regs
    }

    /// Captures the register file. `reads` holds, for each register in index
    /// order, what reading it gave; a register that could not be read is
    /// stored as 0.
    pub fn save(&mut self, reads: &[Option<GuestReg>])
        ensures
            final(self)@ == captured(reads@),
    {
        let mut regs: Vec<GuestReg> = Vec::new();
        let mut i: usize = 0;
        while i < reads.len()
            invariant
                i <= reads.len(),
                regs@ == captured(reads@).take(i as int),
            decreases reads.len() - i,
        {
            let value = match reads[i] {
                Some(value) => value,
                None => 0,
            };
            regs.push(value);
            assert(regs@ == captured(reads@).take(i + 1));
            i += 1;
        }
        assert(regs@ == captured(reads@));
        *self = Self { reg_num: reads.len(), regs };
    }

    /// Plans a restoration: one write per stored register, in index order.
    ///
    /// `num_regs` is the number of registers that the emulator reports now. A
    /// snapshot that covers another number of registers does not belong to
    /// this emulator, and nothing is written.
    pub fn restore(&self, num_regs: usize) -> (plan: Result<Vec<RegisterWrite>, HarnessError>)
        ensures
            num_regs == self@.len() ==> (plan matches Ok(writes) && writes@ == restore_plan(self@)),
            num_regs != self@.len() ==> plan == Err::<Vec<RegisterWrite>, HarnessError>(
                HarnessError::RegisterCountMismatch,
            ),
    {
        proof {
            use_type_invariant(self);
        }
        if num_regs != self.reg_num {
            return Err(HarnessError::RegisterCountMismatch);
        }
        let mut writes: Vec<RegisterWrite> = Vec::new();
        let mut i: usize = 0;
        while i < self.regs.len()
            invariant
                i <= self.regs@.len(),
                writes@ == restore_plan(self@).take(i as int),
            decreases self.regs@.len() - i,
        {
            writes.push(RegisterWrite { index: i, value: self.regs[i] });
            assert(writes@ == restore_plan(self@).take(i + 1));
            i += 1;
        }
        assert(writes@ == restore_plan(self@));
        Ok(writes)
    }

    /// Runs before every iteration: plans the restoration of the snapshot.
    pub fn pre_exec(&self, num_regs: usize) -> (plan: Result<Vec<RegisterWrite>, HarnessError>)
        ensures
            num_regs == self@.len() ==> (plan matches Ok(writes) && writes@ == restore_plan(self@)),
            num_regs != self@.len() ==> plan == Err::<Vec<RegisterWrite>, HarnessError>(
                HarnessError::RegisterCountMismatch,
            ),
    {
        self.restore(num_regs)
    }
}

} // verus!
