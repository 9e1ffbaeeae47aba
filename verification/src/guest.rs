//! Plain values exchanged with the emulator.

use vstd::prelude::*;

verus! {

/// An address in the target's address space.
pub type GuestAddr = u64;

/// The contents of one guest register.
pub type GuestReg = u64;

/// Why the emulator handed control back.
#[derive(Clone, Copy, Debug, PartialEq, Eq, Structural)]
pub enum StopReason {
    /// A breakpoint was hit at the given address.
    Breakpoint(GuestAddr),
    /// The guest faulted.
    Fault,
    /// The guest left through a system call that ends it.
    SyscallExit,
    /// The emulator gave up waiting for the guest.
    Timeout,
}

/// The system-call numbers of the target architecture that the input injector
/// answers itself.
#[derive(Clone, Copy, Debug, PartialEq, Eq, Structural)]
pub struct SyscallNumbers {
    pub read: i64,
    pub mmap: i64,
    pub munmap: i64,
    pub exit: i64,
    pub exit_group: i64,
}

impl SyscallNumbers {
    /// The five numbers name five different calls.
    pub open spec fn distinct(self) -> bool {
        &&& self.read != self.mmap
        &&& self.read != self.munmap
        &&& self.read != self.exit
        &&& self.read != self.exit_group
        &&& self.mmap != self.munmap
        &&& self.mmap != self.exit
        &&& self.mmap != self.exit_group
        &&& self.munmap != self.exit
        &&& self.munmap != self.exit_group
    }

    /// `sys_num` is one of the calls that the injector answers itself.
    pub open spec fn handles(self, sys_num: i32) -> bool {
        ||| sys_num == self.read
        ||| sys_num == self.mmap
        ||| sys_num == self.munmap
        ||| sys_num == self.exit
        ||| sys_num == self.exit_group
    }
}

/// A contiguous write into guest memory.
#[derive(Debug)]
pub struct GuestWrite {
    /// Where the first byte goes.
    pub addr: GuestAddr,
    /// The bytes to store.
    pub bytes: Vec<u8>,
}

/// What a [`GuestWrite`] means: the target address and the byte sequence.
pub struct GuestWriteView {
    pub addr: GuestAddr,
    pub bytes: Seq<u8>,
}

impl View for GuestWrite {
    type V = GuestWriteView;

    open spec fn view(&self) -> GuestWriteView {
        GuestWriteView { addr: self.addr, bytes: self.bytes@ }
    }
}

} // verus!
