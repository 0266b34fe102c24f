//! The decisions of the `arch_prctl` and `prctl` system calls: what each
//! option asks for and what the call returns. Setting the thread pointer
//! and copying names through user pointers are left to the caller.

use vstd::prelude::*;

verus! {

/// The `arch_prctl` code that sets the FS base register.
pub const ARCH_SET_FS: i32 = 0x1002;

/// The error number of an invalid argument.
pub const EINVAL: i32 = 22;

/// What `arch_prctl` asks the caller to do.
#[derive(Debug, Clone, Copy, PartialEq, Eq, Structural)]
pub enum ArchPrctlAction {
    /// Set the thread pointer to the address.
    SetThreadPointer(u64),
    /// Nothing.
    Nothing,
}

/// What `prctl` asks the caller to do.
#[derive(Debug, Clone, Copy, PartialEq, Eq, Structural)]
pub enum PrctlAction {
    /// Nothing.
    Nothing,
    /// Read the 16-byte name that the second argument points to.
    ReadName,
    /// Copy the current task's name, at most 16 bytes, to where the second
    /// argument points.
    WriteName,
}

/// `arch_prctl`: `ARCH_SET_FS` sets the thread pointer to `addr` and returns
/// 0; every other code returns `-EINVAL`.
pub fn sys_arch_prctl(code: i32, addr: u64) -> (r: (ArchPrctlAction, i32))
    ensures
        code == ARCH_SET_FS ==> r == (ArchPrctlAction::SetThreadPointer(addr), 0i32),
        code != ARCH_SET_FS ==> r == (ArchPrctlAction::Nothing, (-EINVAL) as i32),
{
    if code == ARCH_SET_FS {
        (ArchPrctlAction::SetThreadPointer(addr), 0)
    } else {
        (ArchPrctlAction::Nothing, -EINVAL)
    }
}

/// `prctl`: `PR_GET_DUMPABLE` (3) returns 1; `PR_SET_NAME` (15) reads the
/// name and returns 0; `PR_GET_NAME` (16) writes the name and returns 0;
/// every other option returns `-EINVAL`.
pub fn sys_prctl(option: i32) -> (r: (PrctlAction, i32))
    ensures
        option == 3 ==> r == (PrctlAction::Nothing, 1i32),
        option == 15 ==> r == (PrctlAction::ReadName, 0i32),
        option == 16 ==> r == (PrctlAction::WriteName, 0i32),
        option != 3 && option != 15 && option != 16 ==> r == (PrctlAction::Nothing, (-EINVAL) as i32),
{
    if option == 3 {
        (PrctlAction::Nothing, 1)
    } else if option == 15 {
        (PrctlAction::ReadName, 0)
    } else if option == 16 {
        (PrctlAction::WriteName, 0)
    } else {
        (PrctlAction::Nothing, -EINVAL)
    }
}

/// How many bytes of a task name of `name_len` bytes `PR_GET_NAME` copies:
/// all of them, at most 16.
pub fn name_copy_len(name_len: usize) -> (r: usize)
    ensures
        r == if name_len < 16 {
            name_len
        } else {
            16
        },
{
    if name_len < 16 {
        name_len
    } else {
        16
    }
}

} // verus!
