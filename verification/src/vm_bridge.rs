//! The syscall dispatcher and the per-cycle hook, driven by the melon
//! virtual machine.
//!
//! The VM's state is opaque to this library; the handful of operations the
//! protocol needs (reading VM memory, popping the operand stack, requesting
//! a halt) go through trusted wrappers whose contracts speak of the named
//! memory contents [`vm_mem`], stack pointer [`vm_sp`] and halt flag
//! [`vm_halted`].

use vstd::prelude::*;

use melon::VM;

use crate::errors::SysAction;
use crate::errors::SysError;
use crate::system::halt_issued;
use crate::system::quit_cycle;
use crate::system::row_write_ok;
use crate::system::MatrixSystem;
use crate::VIEWPORT_HEIGHT;
use crate::VIEWPORT_WIDTH;

verus! {

/// Declares melon's virtual machine state so it can stand in signatures;
/// its value is opaque to this library.
#[verifier::external_type_specification]
#[verifier::external_body]
pub struct ExVm(melon::VM);

/// Declares the error type melon's fallible operations return.
#[verifier::external_type_specification]
#[verifier::external_body]
pub struct ExFailureError(failure::Error);

/// The bytes of the VM's addressable memory.
pub uninterp spec fn vm_mem(vm: VM) -> Seq<u8>;

/// The VM's operand stack pointer: the memory address of the byte the next
/// pop returns.
pub uninterp spec fn vm_sp(vm: VM) -> int;

/// Whether the VM has been asked to halt.
pub uninterp spec fn vm_halted(vm: VM) -> bool;

/// Memory sizes for which melon's own bounds arithmetic is exact: beyond
/// 0x10000 bytes melon truncates addresses to 16 bits, so nothing precise
/// can be promised of a pop there.
pub open spec fn vm_mem_small(vm: VM) -> bool {
    vm_mem(vm).len() <= 0x10000
}

/// The operand stack still holds a poppable byte: melon serves a pop only
/// while the stack pointer lies at least one byte below the end of memory.
pub open spec fn vm_can_pop(vm: VM) -> bool {
    vm_sp(vm) + 1 < vm_mem(vm).len()
}

/// The byte the next pop returns: the memory byte at the stack pointer.
pub open spec fn vm_stack_top(vm: VM) -> u8 {
    vm_mem(vm)[vm_sp(vm)]
}

/// Relies on melon::VM's public `mem` field, the VM's addressable memory:
/// returns how many bytes it holds.
#[verifier::external_body]
fn vm_mem_len(vm: &VM) -> (n: usize)
    ensures
        n == vm_mem(*vm).len(),
{
    vm.mem.len()
}

/// Relies on melon::VM's public `mem` field: reads one byte of VM memory.
#[verifier::external_body]
fn vm_mem_byte(vm: &VM, i: usize) -> (b: u8)
    requires
        i < vm_mem(*vm).len(),
    ensures
        b == vm_mem(*vm)[i as int],
{
    vm.mem[i]
}

/// Relies on melon::VM::pop_u8: it reads the byte at the stack pointer and
/// advances the pointer by one, leaving the memory bytes and the halt flag
/// as they were, and it fails, advancing nothing, exactly when the pointer
/// does not lie at least one byte below the end of memory.  On a VM with no
/// memory at all it would panic inside melon, so that case is excluded; and
/// with more than 0x10000 bytes of memory melon's 16-bit address truncation
/// makes its bounds check unreliable, so success, value and pointer are only
/// promised for small memories.
#[verifier::external_body]
fn vm_pop_u8(vm: &mut VM) -> (r: Result<u8, failure::Error>)
    requires
        vm_mem(*old(vm)).len() >= 1,
    ensures
        vm_mem(*final(vm)) == vm_mem(*old(vm)),
        vm_halted(*final(vm)) == vm_halted(*old(vm)),
        vm_mem_small(*old(vm)) ==> (r is Ok <==> vm_can_pop(*old(vm))),
        vm_mem_small(*old(vm)) && r is Ok ==> r->Ok_0 == vm_stack_top(*old(vm)) && vm_sp(
            *final(vm),
        ) == vm_sp(*old(vm)) + 1,
        r is Err ==> vm_sp(*final(vm)) == vm_sp(*old(vm)),
{
    vm.pop_u8()
}

/// Relies on melon::VM::halt: sets the VM's halted flag and touches nothing
/// else.
#[verifier::external_body]
fn vm_halt(vm: &mut VM)
    ensures
        vm_halted(*final(vm)),
        vm_mem(*final(vm)) == vm_mem(*old(vm)),
        vm_sp(*final(vm)) == vm_sp(*old(vm)),
{
    vm.halt()
}

impl MatrixSystem {
    /// Serve the row-write signal: pop the row index off the VM's operand
    /// stack, then resolve the first `VIEWPORT_WIDTH` bytes of VM memory
    /// into that framebuffer row.
    ///
    /// Too little VM memory for one row, or a failing pop (an exhausted
    /// stack), is a [`SysError::ProtocolViolation`]; a popped row index at
    /// or beyond the viewport height is a [`SysError::OutOfRangeAccess`].
    /// Either failure leaves the framebuffer untouched.  For memories whose
    /// size melon handles exactly, success is owed: a poppable stack top
    /// below the viewport height means exactly that row is written from
    /// memory's first `VIEWPORT_WIDTH` bytes, and exactly one byte leaves
    /// the stack.
    pub fn write_current_row_to_buffer(&mut self, vm: &mut VM) -> (res: Result<(), SysError>)
        requires
            old(self).wf(),
        ensures
            final(self).wf(),
            vm_mem(*final(vm)) == vm_mem(*old(vm)),
            vm_halted(*final(vm)) == vm_halted(*old(vm)),
            vm_mem(*old(vm)).len() < VIEWPORT_WIDTH ==> res == Err::<(), SysError>(
                SysError::ProtocolViolation,
            ) && *final(vm) == *old(vm),
            vm_mem(*old(vm)).len() >= VIEWPORT_WIDTH && vm_mem_small(*old(vm)) && vm_can_pop(
                *old(vm),
            ) ==> vm_sp(*final(vm)) == vm_sp(*old(vm)) + 1 && (if vm_stack_top(*old(vm))
                < VIEWPORT_HEIGHT {
                res is Ok && row_write_ok(
                    *old(self),
                    *final(self),
                    vm_stack_top(*old(vm)) as int,
                    vm_mem(*old(vm)).subrange(0, VIEWPORT_WIDTH as int),
                )
            } else {
                res == Err::<(), SysError>(SysError::OutOfRangeAccess)
            }),
            vm_mem(*old(vm)).len() >= VIEWPORT_WIDTH && vm_mem_small(*old(vm)) && !vm_can_pop(
                *old(vm),
            ) ==> res == Err::<(), SysError>(SysError::ProtocolViolation) && vm_sp(*final(vm))
                == vm_sp(*old(vm)),
            res is Ok ==> exists|row: u8|
                (row as int) < VIEWPORT_HEIGHT && row_write_ok(
                    *old(self),
                    *final(self),
                    row as int,
                    vm_mem(*old(vm)).subrange(0, VIEWPORT_WIDTH as int),
                ),
            res is Err ==> *final(self) == *old(self) && (res == Err::<(), SysError>(
                SysError::ProtocolViolation,
            ) || res == Err::<(), SysError>(SysError::OutOfRangeAccess)),
    {
        let n = vm_mem_len(vm);
        if n < VIEWPORT_WIDTH {
            return Err(SysError::ProtocolViolation);
        }
        let row = match vm_pop_u8(vm) {
            Ok(v) => v,
            Err(_) => {
                return Err(SysError::ProtocolViolation);
            },
        };
        let mut data: Vec<u8> = Vec::new();
        let mut i: usize = 0;
        while i < VIEWPORT_WIDTH
            invariant
                i <= VIEWPORT_WIDTH,
                data@.len() == i,
                vm_mem(*vm).len() >= VIEWPORT_WIDTH,
                forall|k: int| 0 <= k < i ==> data@[k] == vm_mem(*vm)[k],
            decreases VIEWPORT_WIDTH - i,
        {
            let b = vm_mem_byte(vm, i);
            data.push(b);
            i = i + 1;
        }
        proof {
            assert(data@ =~= vm_mem(*vm).subrange(0, VIEWPORT_WIDTH as int));
        }
        match self.write_row(row as usize, data.as_slice()) {
            Ok(()) => Ok(()),
            Err(e) => Err(e),
        }
    }

    /// Route one VM-issued signal: signal 1 asks the caller to present the
    /// current framebuffer, signal 2 copies one row from VM memory into the
    /// framebuffer exactly as [`MatrixSystem::write_current_row_to_buffer`]
    /// does, and every other signal is a no-op.  Dispatch is stateless: no
    /// state is carried between calls beyond the data model itself.
    pub fn system_call(&mut self, vm: &mut VM, signal: u16) -> (res: Result<SysAction, SysError>)
        requires
            old(self).wf(),
        ensures
            final(self).wf(),
            vm_mem(*final(vm)) == vm_mem(*old(vm)),
            vm_halted(*final(vm)) == vm_halted(*old(vm)),
            signal == 1 ==> *final(self) == *old(self) && *final(vm) == *old(vm) && res
                == Ok::<SysAction, SysError>(SysAction::PresentFrame),
            signal != 1 && signal != 2 ==> *final(self) == *old(self) && *final(vm) == *old(vm)
                && res == Ok::<SysAction, SysError>(SysAction::NoOp),
            signal == 2 && vm_mem(*old(vm)).len() < VIEWPORT_WIDTH ==> res == Err::<
                SysAction,
                SysError,
            >(SysError::ProtocolViolation) && *final(vm) == *old(vm),
            signal == 2 && vm_mem(*old(vm)).len() >= VIEWPORT_WIDTH && vm_mem_small(*old(vm))
                && vm_can_pop(*old(vm)) ==> vm_sp(*final(vm)) == vm_sp(*old(vm)) + 1 && (if
            vm_stack_top(*old(vm)) < VIEWPORT_HEIGHT {
                res == Ok::<SysAction, SysError>(SysAction::NoOp) && row_write_ok(
                    *old(self),
                    *final(self),
                    vm_stack_top(*old(vm)) as int,
                    vm_mem(*old(vm)).subrange(0, VIEWPORT_WIDTH as int),
                )
            } else {
                res == Err::<SysAction, SysError>(SysError::OutOfRangeAccess)
            }),
            signal == 2 && vm_mem(*old(vm)).len() >= VIEWPORT_WIDTH && vm_mem_small(*old(vm))
                && !vm_can_pop(*old(vm)) ==> res == Err::<SysAction, SysError>(
                SysError::ProtocolViolation,
            ) && vm_sp(*final(vm)) == vm_sp(*old(vm)),
            signal == 2 && res is Ok ==> res == Ok::<SysAction, SysError>(SysAction::NoOp)
                && exists|row: u8|
                (row as int) < VIEWPORT_HEIGHT && row_write_ok(
                    *old(self),
                    *final(self),
                    row as int,
                    vm_mem(*old(vm)).subrange(0, VIEWPORT_WIDTH as int),
                ),
            res is Err ==> signal == 2 && *final(self) == *old(self) && (res == Err::<
                SysAction,
                SysError,
            >(SysError::ProtocolViolation) || res == Err::<SysAction, SysError>(
                SysError::OutOfRangeAccess,
            )),
    {
        match signal {
            1 => Ok(SysAction::PresentFrame),
            2 => match self.write_current_row_to_buffer(vm) {
                Ok(()) => Ok(SysAction::NoOp),
                Err(e) => Err(e),
            },
            _ => Ok(SysAction::NoOp),
        }
    }

    /// The per-cycle hook: poll the quit input once per cycle and pass a
    /// halt request to the VM the first time the input is seen, never again
    /// after that.
    pub fn post_cycle(&mut self, vm: &mut VM, quit_down: bool) -> (res: Result<(), SysError>)
        requires
            old(self).wf(),
        ensures
            final(self).wf(),
            res == Ok::<(), SysError>(()),
            quit_cycle(*old(self), *final(self), quit_down, halt_issued(*old(self), quit_down)),
            halt_issued(*old(self), quit_down) ==> vm_halted(*final(vm)) && vm_mem(*final(vm))
                == vm_mem(*old(vm)) && vm_sp(*final(vm)) == vm_sp(*old(vm)),
            !halt_issued(*old(self), quit_down) ==> *final(vm) == *old(vm),
    {
        let issued = self.quit_poll(quit_down);
        if issued {
            vm_halt(vm);
        }
        Ok(())
    }
}

} // verus!
