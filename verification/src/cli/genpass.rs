//! Options of the password-generation command.

use vstd::prelude::*;

verus! {

/// Options of the password-generation command.
#[derive(Debug, Clone, Copy)]
pub struct GenPassOpts {
    pub length: u8,
    pub uppercase: bool,
    pub lowercase: bool,
    pub number: bool,
    pub symbol: bool,
}

} // verus!
