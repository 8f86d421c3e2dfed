//! What one remote invocation consists of.

use vstd::prelude::*;
use crate::amount::{standard_deposit, standard_gas};

verus! {

/// One entry of a call's argument document: a key and its text value.
#[derive(Clone, Debug, PartialEq, Eq)]
pub struct Argument {
    pub key: String,
    pub value: String,
}

/// One remote invocation: the function to call, its argument document, the
/// deposit attached (in yocto) and the gas allowed (in gas units).
#[derive(Clone, Debug, PartialEq, Eq)]
pub struct CallDescriptor {
    pub function_name: String,
    pub args: Vec<Argument>,
    pub deposit: u128,
    pub gas: u64,
}

impl Argument {
    /// An entry with the given key and value.
    pub fn new(key: String, value: String) -> (arg: Argument)
        ensures
            arg.key == key,
            arg.value == value,
    {
        Argument { key, value }
    }
}

impl CallDescriptor {
    /// A descriptor with every part chosen by the caller.
    pub fn new(function_name: String, args: Vec<Argument>, deposit: u128, gas: u64) -> (call:
        CallDescriptor)
        ensures
            call.function_name == function_name,
            call.args == args,
            call.deposit == deposit,
            call.gas == gas,
    {
        CallDescriptor { function_name, args, deposit, gas }
    }

    /// A descriptor with the standard deposit of three whole tokens and the
    /// standard allowance of three hundred teragas.
    pub fn standard(function_name: String, args: Vec<Argument>) -> (call: CallDescriptor)
        ensures
            call.function_name == function_name,
            call.args == args,
            call.deposit == 3_000_000_000_000_000_000_000_000u128,
            call.gas == 300_000_000_000_000u64,
    {
        CallDescriptor { function_name, args, deposit: standard_deposit(), gas: standard_gas() }
    }
}

} // verus!
