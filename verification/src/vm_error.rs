//! The errors of the machine and of its driver.

use vstd::prelude::*;

verus! {

/// Custom error for the VM. Each variant carries a message for the user.
#[derive(Debug)]
pub enum VmError {
    BadArgsLength(String),
    FailedToCreateTermios(String),
    FailedToSetAttrTermios(String),
    FailedToOpenFile(String),
    FailedToReadBigEndian(String),
    FailedToFlush(String),
    FailedToReadStdin(String),
    InvalidRegister(String),
}

} // verus!
