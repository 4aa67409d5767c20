//! The counter's storage region: four bytes holding the counter in
//! little-endian order, read and written whole through borsh.

use borsh::{BorshDeserialize, BorshSerialize};
use vstd::prelude::*;
use crate::instruction::{ContractInstructions, le_bytes, le_value};
use crate::transition::{TransitionError, apply, spec_apply};

verus! {

/// `std::io::Error`, the error of borsh's readers and writers, carried
/// through opaquely.
#[verifier::external_type_specification]
#[verifier::external_body]
pub struct ExIoError(std::io::Error);

/// The state kept in the storage region.
#[derive(Clone, Copy, Debug, PartialEq, Eq, Structural)]
pub struct GreetingAccount {
    /// The counter's value.
    pub counter: u32,
}

/// Why the storage region cannot be read or written.
#[derive(Clone, Copy, Debug, PartialEq, Eq, Structural)]
pub enum StorageError {
    /// The region does not hold exactly the four bytes of a counter.
    InvalidAccountData,
}

/// Why an instruction was not carried out on the storage region.
#[derive(Clone, Copy, Debug, PartialEq, Eq, Structural)]
pub enum ProcessError {
    Storage(StorageError),
    Transition(TransitionError),
}

/// Relies on borsh's `BorshDeserialize::try_from_slice` for `u32`: it reads
/// four little-endian bytes and fails unless the slice holds exactly those.
#[verifier::external_body]
fn read_u32(data: &[u8]) -> (r: Result<u32, std::io::Error>)
    ensures
        r is Ok <==> data@.len() == 4,
        r matches Ok(v) ==> v as int == le_value(data@),
{
    u32::try_from_slice(data)
}

/// Relies on borsh's `BorshSerialize::serialize` for `u32` into a byte
/// slice: it writes the four little-endian bytes at the front and leaves the
/// rest of the slice as it was.
#[verifier::external_body]
fn write_u32(value: u32, data: &mut [u8]) -> (r: Result<(), std::io::Error>)
    requires
        old(data)@.len() >= 4,
    ensures
        r is Ok,
        final(data)@ == le_bytes(value) + old(data)@.subrange(4, old(data)@.len() as int),
{
    let mut writer: &mut [u8] = data;
    value.serialize(&mut writer)
}

impl GreetingAccount {
    /// Reads the account from its storage region, which must hold exactly
    /// four bytes.
    pub fn try_from_slice(data: &[u8]) -> (r: Result<GreetingAccount, StorageError>)
        ensures
            data@.len() == 4 ==> r == Ok::<GreetingAccount, StorageError>(
                GreetingAccount { counter: le_value(data@) as u32 },
            ),
            data@.len() != 4 ==> r == Err::<GreetingAccount, StorageError>(
                StorageError::InvalidAccountData,
            ),
    {
        match read_u32(data) {
            Ok(counter) => Ok(GreetingAccount { counter }),
            Err(_) => Err(StorageError::InvalidAccountData),
        }
    }

    /// Writes the counter's four little-endian bytes at the front of `data`,
    /// leaving any bytes after them as they were. A region shorter than four
    /// bytes is refused and left untouched.
    pub fn serialize(&self, data: &mut [u8]) -> (r: Result<(), StorageError>)
        ensures
            old(data)@.len() >= 4 ==> r is Ok && final(data)@ == le_bytes(self.counter) + old(
                data,
            )@.subrange(4, old(data)@.len() as int),
            old(data)@.len() < 4 ==> r == Err::<(), StorageError>(StorageError::InvalidAccountData)
                && final(data)@ == old(data)@,
    {
        if data.len() < 4 {
            return Err(StorageError::InvalidAccountData);
        }
        match write_u32(self.counter, data) {
            Ok(()) => Ok(()),
            Err(_) => Err(StorageError::InvalidAccountData),
        }
    }
}

/// Carries out `instruction` on the counter held in `data`: reads it, applies
/// the instruction, and writes the new value back. On any error the region is
/// left as it was.
pub fn process_account_data(instruction: ContractInstructions, data: &mut [u8]) -> (r: Result<
    u32,
    ProcessError,
>)
    ensures
        old(data)@.len() != 4 ==> r == Err::<u32, ProcessError>(
            ProcessError::Storage(StorageError::InvalidAccountData),
        ) && final(data)@ == old(data)@,
        old(data)@.len() == 4 ==> match spec_apply(instruction, le_value(old(data)@) as u32) {
            Ok(v) => r == Ok::<u32, ProcessError>(v) && final(data)@ == le_bytes(v),
            Err(e) => r == Err::<u32, ProcessError>(ProcessError::Transition(e)) && final(data)@
                == old(data)@,
        },
{
    let mut account = match GreetingAccount::try_from_slice(data) {
        Ok(a) => a,
        Err(e) => return Err(ProcessError::Storage(e)),
    };
    match apply(instruction, account.counter) {
        Ok(v) => {
            account.counter = v;
        },
        Err(e) => return Err(ProcessError::Transition(e)),
    }
    let written = account.serialize(data);
    match written {
        Ok(()) => Ok(account.counter),
        Err(e) => Err(ProcessError::Storage(e)),
    }
}

} // verus!
