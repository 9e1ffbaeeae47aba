//! Input delivery through intercepted system calls.
//!
//! The guest believes that it reads a file and maps a buffer. The injector
//! answers those calls from the candidate input of the current iteration: it
//! keeps a cursor over the bytes that the guest has not consumed yet and says,
//! for each intercepted call, what the host must do in place of the call.

use vstd::prelude::*;
use vstd::slice::{slice_subrange, slice_to_vec};
use libafl_bolts::ownedref::OwnedSlice;

use crate::guest::{GuestAddr, GuestWrite, GuestWriteView, SyscallNumbers};
use crate::harness::MAX_INPUT_SIZE;
use crate::modules::ExecMeta;

verus! {

/// Protection argument of the map-like call that asks for the input buffer.
pub const INPUT_MAP_PROT: GuestAddr = 1;

/// Flags argument of the map-like call that asks for the input buffer.
pub const INPUT_MAP_FLAGS: GuestAddr = 1;

/// `libafl_bolts::ownedref::OwnedSlice`, a slice that is borrowed or owned.
/// Nothing is known of its inside; contracts speak of the bytes it exposes
/// through [`slice_bytes`].
#[verifier::external_type_specification]
#[verifier::external_body]
#[verifier::reject_recursive_types(T)]
pub struct ExOwnedSlice<'a, T: 'a + Sized>(OwnedSlice<'a, T>);

/// The bytes that an [`OwnedSlice`] exposes, in order.
pub uninterp spec fn slice_bytes(s: OwnedSlice<'_, u8>) -> Seq<u8>;

/// `OwnedSlice::from` on a borrowed slice: the result exposes the borrowed
/// bytes.
#[verifier::external_body]
fn owned_from_slice<'a>(bytes: &'a [u8]) -> (tb: OwnedSlice<'a, u8>)
    ensures
        slice_bytes(tb) == bytes@,
{
    OwnedSlice::from(bytes)
}

/// `OwnedSlice::truncate`: when `new_len` does not exceed the current length
/// the slice keeps its first `new_len` bytes and the old length is returned;
/// otherwise nothing changes and `None` is returned.
#[verifier::external_body]
fn owned_truncate(tb: &mut OwnedSlice<'_, u8>, new_len: usize) -> (old_len: Option<usize>)
    ensures
        new_len <= slice_bytes(*old(tb)).len() ==> old_len == Some(
            slice_bytes(*old(tb)).len() as usize,
        ) && slice_bytes(*final(tb)) == slice_bytes(*old(tb)).take(new_len as int),
        new_len > slice_bytes(*old(tb)).len() ==> old_len.is_none() && slice_bytes(*final(tb))
            == slice_bytes(*old(tb)),
{
    tb.truncate(new_len)
}

/// `OwnedSlice::deref`: the exposed bytes as a slice.
#[verifier::external_body]
fn owned_as_slice<'b>(tb: &'b OwnedSlice<'_, u8>) -> (bytes: &'b [u8])
    ensures
        bytes@ == slice_bytes(*tb),
{
    &**tb
}

/// What the host does in place of an intercepted system call.
#[derive(Debug)]
pub enum HookAction {
    /// Let the guest's call run as it is.
    Run,
    /// Do not run the call; hand the guest this value as its result.
    Skip(GuestAddr),
    /// Do not run the call; store the bytes in guest memory and hand the guest
    /// their number as the call's result.
    Deliver(GuestWrite),
    /// The guest asked to end: terminate the host process.
    Abort,
}

/// What a [`HookAction`] means.
pub enum HookActionView {
    Run,
    Skip(GuestAddr),
    Deliver(GuestWriteView),
    Abort,
}

impl View for HookAction {
    type V = HookActionView;

    open spec fn view(&self) -> HookActionView {
        match self {
            HookAction::Run => HookActionView::Run,
            HookAction::Skip(v) => HookActionView::Skip(*v),
            HookAction::Deliver(w) => HookActionView::Deliver(w@),
            HookAction::Abort => HookActionView::Abort,
        }
    }
}

impl HookActionView {
    /// The result that the guest sees for the call, where the host answers it.
    pub open spec fn returned(self) -> Option<nat> {
        match self {
            HookActionView::Run => None,
            HookActionView::Skip(v) => Some(v as nat),
            HookActionView::Deliver(w) => Some(w.bytes.len()),
            HookActionView::Abort => None,
        }
    }
}

/// The candidate input as the injector accepts it: its first `max_size` bytes.
pub open spec fn delivered(input: Seq<u8>, max_size: usize) -> Seq<u8> {
    if input.len() > max_size {
        input.take(max_size as int)
    } else {
        input
    }
}

/// Number of bytes that a read-like call asking for `requested` bytes gets
/// from `cursor`.
pub open spec fn read_len(cursor: Seq<u8>, requested: GuestAddr) -> nat {
    if requested <= cursor.len() {
        requested as nat
    } else {
        cursor.len()
    }
}

/// The answer to one intercepted system call, given the unconsumed input.
pub open spec fn hook_action(
    cursor: Seq<u8>,
    input_addr: GuestAddr,
    numbers: SyscallNumbers,
    sys_num: i32,
    a0: GuestAddr,
    a1: GuestAddr,
    a2: GuestAddr,
    a3: GuestAddr,
) -> HookActionView {
    if sys_num == numbers.read {
        if a2 == 0 {
            HookActionView::Skip(0)
        } else {
            HookActionView::Deliver(
                GuestWriteView { addr: a1, bytes: cursor.take(read_len(cursor, a2) as int) },
            )
        }
    } else if sys_num == numbers.mmap {
        if a2 == INPUT_MAP_PROT && a3 == INPUT_MAP_FLAGS {
            HookActionView::Skip(input_addr)
        } else {
            HookActionView::Run
        }
    } else if sys_num == numbers.munmap {
        if a0 == input_addr {
            HookActionView::Skip(0)
        } else {
            HookActionView::Run
        }
    } else if sys_num == numbers.exit || sys_num == numbers.exit_group {
        HookActionView::Abort
    } else {
        HookActionView::Run
    }
}

/// The unconsumed input after one intercepted system call.
pub open spec fn hook_cursor(
    cursor: Seq<u8>,
    numbers: SyscallNumbers,
    sys_num: i32,
    a2: GuestAddr,
) -> Seq<u8> {
    if sys_num == numbers.read {
        cursor.skip(read_len(cursor, a2) as int)
    } else {
        cursor
    }
}

/// The unconsumed input after the read-like calls that ask for `requests`
/// bytes, served in order.
pub open spec fn cursor_after(cursor: Seq<u8>, requests: Seq<GuestAddr>) -> Seq<u8>
    decreases requests.len(),
{
    if requests.len() == 0 {
        cursor
    } else {
        cursor_after(cursor.skip(read_len(cursor, requests[0]) as int), requests.drop_first())
    }
}

/// Sum of the results of the read-like calls that ask for `requests` bytes,
/// served in order.
pub open spec fn total_returned(cursor: Seq<u8>, requests: Seq<GuestAddr>) -> nat
    decreases requests.len(),
{
    if requests.len() == 0 {
        0
    } else {
        read_len(cursor, requests[0]) + total_returned(
            cursor.skip(read_len(cursor, requests[0]) as int),
            requests.drop_first(),
        )
    }
}

/// Sum of the byte counts that a sequence of read-like calls asks for.
pub open spec fn total_requested(requests: Seq<GuestAddr>) -> nat
    decreases requests.len(),
{
    if requests.len() == 0 {
        0
    } else {
        requests[0] as nat + total_requested(requests.drop_first())
    }
}

/// A sequence of read-like calls gets, in total, what it asked for or what the
/// cursor held, whichever is less, and leaves the rest in the cursor.
pub proof fn reads_return_requested_or_available(cursor: Seq<u8>, requests: Seq<GuestAddr>)
    ensures
        total_returned(cursor, requests) == if total_requested(requests) <= cursor.len() {
            total_requested(requests)
        } else {
            cursor.len()
        },
        cursor_after(cursor, requests) == cursor.skip(total_returned(cursor, requests) as int),
    decreases requests.len(),
{
    if requests.len() == 0 {
        assert(cursor.skip(0) == cursor);
    } else {
        let n = read_len(cursor, requests[0]);
        let rest = cursor.skip(n as int);
        reads_return_requested_or_available(rest, requests.drop_first());
        let m = total_returned(rest, requests.drop_first());
        assert(rest.skip(m as int) == cursor.skip((n + m) as int));
    }
}

/// Within one iteration the read-like calls that ask, in total, for at least
/// the accepted input get exactly the accepted input: the whole candidate
/// input, or its first `max_size` bytes if it is larger. The cursor is then
/// empty.
pub proof fn reads_drain_accepted_input(
    input: Seq<u8>,
    max_size: usize,
    requests: Seq<GuestAddr>,
)
    requires
        total_requested(requests) >= delivered(input, max_size).len(),
    ensures
        total_returned(delivered(input, max_size), requests) == if input.len() <= max_size {
            input.len()
        } else {
            max_size as nat
        },
        cursor_after(delivered(input, max_size), requests).len() == 0,
{
    reads_return_requested_or_available(delivered(input, max_size), requests);
}

/// Once the cursor is empty every read-like call returns 0 and the cursor
/// stays empty.
pub proof fn reads_after_exhaustion_return_zero(requests: Seq<GuestAddr>)
    ensures
        total_returned(Seq::<u8>::empty(), requests) == 0,
        cursor_after(Seq::<u8>::empty(), requests) == Seq::<u8>::empty(),
        forall|requested: GuestAddr| read_len(Seq::<u8>::empty(), requested) == 0,
{
    reads_return_requested_or_available(Seq::<u8>::empty(), requests);
    assert(Seq::<u8>::empty().skip(0) == Seq::<u8>::empty());
}

/// The state of an [`InputInjectorModule`] as contracts see it.
pub struct InjectorView {
    /// The bytes of the candidate input that the guest has not read yet.
    pub input: Seq<u8>,
    /// Base of the guest memory region reserved for the input.
    pub input_addr: GuestAddr,
    /// Largest input that is accepted whole.
    pub max_size: usize,
}

/// Serves the candidate input to the guest.
#[derive(Debug)]
pub struct InputInjectorModule {
    input: Vec<u8>,
    input_addr: GuestAddr,
    max_size: usize,
}

impl View for InputInjectorModule {
    type V = InjectorView;

    closed spec fn view(&self) -> InjectorView {
        InjectorView { input: self.input@, input_addr: self.input_addr, max_size: self.max_size }
    }
}

impl Default for InputInjectorModule {
    /// An injector that accepts no byte of any input.
    fn default() -> (module: Self)
        ensures
            module@ == (InjectorView { input: Seq::empty(), input_addr: 0, max_size: 0 }),
    {
        Self { input: Vec::new(), input_addr: 0, max_size: 0 }
    }
}

impl InputInjectorModule {
    /// The cursor never holds more than the module accepts, and the module
    /// never accepts more than the input region holds.
    #[verifier::type_invariant]
    spec fn inv(self) -> bool {
        self.input@.len() <= self.max_size <= MAX_INPUT_SIZE
    }

    /// An injector with an empty cursor that accepts inputs up to the capacity
    /// of the input region.
    pub fn new() -> (module: Self)
        ensures
            module@ == (InjectorView {
                input: Seq::empty(),
                input_addr: 0,
                max_size: MAX_INPUT_SIZE,
            }),
    {
        Self { input: Vec::new(), input_addr: 0, max_size: MAX_INPUT_SIZE }
    }

    /// Tells the injector where the input region lies in guest memory.
    pub fn set_input_addr(&mut self, addr: GuestAddr)
        ensures
            final(self)@ == (InjectorView { input_addr: addr, ..old(self)@ }),
    {
        proof {
            use_type_invariant(&*self);
        }
        self.input_addr = addr;
    }

    /// The bytes that the guest has not read yet.
    pub fn input(&self) -> (bytes: &Vec<u8>)
        ensures
            bytes@ == self@.input,
    {
        &self.input
    }

    /// Base of the guest memory region reserved for the input.
    pub fn input_addr(&self) -> (addr: GuestAddr)
        ensures
            addr == self@.input_addr,
    {
        self.input_addr
    }

    /// Largest input that is accepted whole.
    pub fn max_size(&self) -> (max: usize)
        ensures
            max == self@.max_size,
            max <= MAX_INPUT_SIZE,
    {
        proof {
            use_type_invariant(self);
        }
        self.max_size
    }

    /// Installs the outcome of shrinking the candidate input.
    ///
    /// With `Some(bytes)` the cursor becomes the accepted part of `bytes` and
    /// the same bytes are to be stored at the base of the input region. With
    /// `None` the input could not be shrunk: the guest gets an empty input,
    /// nothing is stored, and the iteration is marked as not to be scored.
    pub fn load(&mut self, shrunk: Option<&[u8]>, meta: &mut ExecMeta) -> (write: Option<
        GuestWrite,
    >)
        ensures
            final(self)@.input_addr == old(self)@.input_addr,
            final(self)@.max_size == old(self)@.max_size,
            shrunk matches Some(bytes) ==> {
                &&& final(self)@.input == delivered(bytes@, old(self)@.max_size)
                &&& final(meta).ignore == old(meta).ignore
                &&& write matches Some(w)
                &&& w@ == (GuestWriteView {
                    addr: old(self)@.input_addr,
                    bytes: delivered(bytes@, old(self)@.max_size),
                })
            },
            shrunk is None ==> {
                &&& final(self)@.input == Seq::<u8>::empty()
                &&& final(meta).ignore
                &&& write is None
            },
    {
        proof {
            use_type_invariant(&*self);
        }
        match shrunk {
            None => {
                self.input = Vec::new();
                meta.ignore = true;
                None
            },
            Some(bytes) => {
                let kept = if bytes.len() > self.max_size {
                    slice_subrange(bytes, 0, self.max_size)
                } else {
                    bytes
                };
                self.input = slice_to_vec(kept);
                Some(GuestWrite { addr: self.input_addr, bytes: slice_to_vec(kept) })
            },
        }
    }

    /// Takes the candidate input of a new iteration.
    ///
    /// An input larger than the module accepts is cut to its first
    /// `max_size` bytes. The cursor is set to the accepted bytes, and the
    /// returned write stores the same bytes at the base of the input region.
    pub fn pre_exec(&mut self, input: &[u8], meta: &mut ExecMeta) -> (write: Option<GuestWrite>)
        ensures
            final(self)@ == (InjectorView {
                input: delivered(input@, old(self)@.max_size),
                ..old(self)@
            }),
            final(meta).ignore == old(meta).ignore,
            write matches Some(w) && w@ == (GuestWriteView {
                addr: old(self)@.input_addr,
                bytes: delivered(input@, old(self)@.max_size),
            }),
            input@.len() > old(self)@.max_size ==> final(self)@.input == input@.take(
                old(self)@.max_size as int,
            ),
            input@.len() <= old(self)@.max_size ==> final(self)@.input == input@,
            final(self)@.input.len() <= old(self)@.max_size <= MAX_INPUT_SIZE,
    {
        proof {
            use_type_invariant(&*self);
        }
        let mut tb = owned_from_slice(input);
        let mut shrunk = true;
        if input.len() > self.max_size {
            if owned_truncate(&mut tb, self.max_size).is_none() {
                shrunk = false;
            }
        }
        if shrunk {
            self.load(Some(owned_as_slice(&tb)), meta)
        } else {
            self.load(None, meta)
        }
    }

    /// Takes note of how storing bytes in guest memory went. `stored` says
    /// whether the emulator accepted the write; after a refused write the
    /// iteration is marked as not to be scored, after an accepted one the
    /// mark stays as it was.
    pub fn write_done(&self, stored: bool, meta: &mut ExecMeta)
        ensures
            final(meta).ignore == (old(meta).ignore || !stored),
    {
        if !stored {
            meta.ignore = true;
        }
    }
}

/// Answers one intercepted system call.
///
/// A read-like call is served from the cursor: it gets as many bytes as it
/// asked for, or all that are left if those are fewer, and the cursor moves
/// past them. A map-like call with the protection and flags of the input
/// buffer gets the base of the input region; an unmap-like call on that base
/// gets success. A call that ends the guest ends the host. Every other call
/// runs unchanged, and none but the read-like call touches the cursor.
pub fn syscall_hooks(
    module: &mut InputInjectorModule,
    numbers: &SyscallNumbers,
    sys_num: i32,
    a0: GuestAddr,
    a1: GuestAddr,
    a2: GuestAddr,
    a3: GuestAddr,
    _a4: GuestAddr,
    _a5: GuestAddr,
    _a6: GuestAddr,
    _a7: GuestAddr,
) -> (action: HookAction)
    ensures
        action@ == hook_action(
            old(module)@.input,
            old(module)@.input_addr,
            *numbers,
            sys_num,
            a0,
            a1,
            a2,
            a3,
        ),
        final(module)@ == (InjectorView {
            input: hook_cursor(old(module)@.input, *numbers, sys_num, a2),
            ..old(module)@
        }),
        sys_num == numbers.read ==> {
            &&& action@.returned() == Some(read_len(old(module)@.input, a2))
            &&& final(module)@.input == old(module)@.input.skip(
                read_len(old(module)@.input, a2) as int,
            )
            &&& old(module)@.input.len() == 0 ==> action@.returned() == Some(0nat)
        },
        numbers.distinct() && sys_num == numbers.mmap ==> action@ == if a2 == INPUT_MAP_PROT && a3
            == INPUT_MAP_FLAGS {
            HookActionView::Skip(old(module)@.input_addr)
        } else {
            HookActionView::Run
        },
        numbers.distinct() && sys_num == numbers.munmap ==> action@ == if a0 == old(
            module,
        )@.input_addr {
            HookActionView::Skip(0)
        } else {
            HookActionView::Run
        },
        numbers.distinct() && (sys_num == numbers.exit || sys_num == numbers.exit_group)
            ==> action@ == HookActionView::Abort,
        !numbers.handles(sys_num) ==> action@ == HookActionView::Run,
{
    proof {
        use_type_invariant(&*module);
    }
    let sys_num = sys_num as i64;
    if sys_num == numbers.read {
        if a2 == 0 {
            assert(module.input@.skip(0) == module.input@);
            return HookAction::Skip(0);
        }
        let input_len = module.input.len();
        let offset: usize = if a2 <= input_len as u64 {
            a2 as usize
        } else {
            input_len
        };
        let drained = slice_to_vec(slice_subrange(module.input.as_slice(), 0, offset));
        let rest = slice_to_vec(slice_subrange(module.input.as_slice(), offset, input_len));
        module.input = rest;
        HookAction::Deliver(GuestWrite { addr: a1, bytes: drained })
    } else if sys_num == numbers.mmap {
        if a2 == INPUT_MAP_PROT && a3 == INPUT_MAP_FLAGS {
            HookAction::Skip(module.input_addr)
        } else {
            HookAction::Run
        }
    } else if sys_num == numbers.munmap {
        if a0 == module.input_addr {
            HookAction::Skip(0)
        } else {
            HookAction::Run
        }
    } else if sys_num == numbers.exit || sys_num == numbers.exit_group {
        HookAction::Abort
    } else {
        HookAction::Run
    }
}

} // verus!
