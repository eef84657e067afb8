//! The updater: a privileged process that installs a new version of the
//! program. What it checks is decided here.

use crate::text::{push_text, string_of};
use vstd::prelude::*;

verus! {

/// How many arguments the updater takes after its name: the address to
/// download from, the temporary file and the binary to replace.
pub const UPDATER_ARGUMENTS: usize = 3;

/// Tests the number of arguments that follow the updater's name.
pub fn has_updater_arguments(count: usize) -> (r: bool)
    ensures
        r == (count == UPDATER_ARGUMENTS),
{
    count == UPDATER_ARGUMENTS
}

/// Why a downloaded file is not installed.
#[derive(Debug, Clone, Copy, PartialEq, Eq, Structural)]
pub enum BinaryError {
    /// The file is empty.
    Empty,
    /// The file is too short to have a header.
    Truncated,
    /// The file does not start as an ELF binary does.
    NotElf,
}

/// The four bytes that an ELF binary starts with.
pub open spec fn elf_magic() -> Seq<u8> {
    seq![0x7fu8, 0x45u8, 0x4cu8, 0x46u8]
}

/// What the updater says of a downloaded file of `size` bytes that starts
/// with `head`.
pub open spec fn binary_verdict(size: u64, head: Seq<u8>) -> Result<(), BinaryError> {
    if size == 0 {
        Err(BinaryError::Empty)
    } else if head.len() < 4 {
        Err(BinaryError::Truncated)
    } else if head.take(4) == elf_magic() {
        Ok(())
    } else {
        Err(BinaryError::NotElf)
    }
}

/// Checks that a downloaded file can be the program: it is not empty and
/// starts as an ELF binary does. `head` holds its first bytes, four where
/// the file has as many.
pub fn verify_binary(size: u64, head: &[u8]) -> (r: Result<(), BinaryError>)
    ensures
        r == binary_verdict(size, head@),
{
    if size == 0 {
        return Err(BinaryError::Empty);
    }
    if head.len() < 4 {
        return Err(BinaryError::Truncated);
    }
    if head[0] == 0x7f && head[1] == 0x45 && head[2] == 0x4c && head[3] == 0x46 {
        assert(head@.take(4) =~= elf_magic());
        Ok(())
    } else {
        assert(head@.take(4) != elf_magic()) by {
            if head@.take(4) == elf_magic() {
                assert(head@.take(4)[0] == 0x7f);
                assert(head@.take(4)[1] == 0x45);
                assert(head@.take(4)[2] == 0x4c);
                assert(head@.take(4)[3] == 0x46);
            }
        }
        Err(BinaryError::NotElf)
    }
}

/// The text that reports why a downloaded file is not installed.
pub open spec fn binary_error_text(e: BinaryError) -> Seq<char> {
    match e {
        BinaryError::Empty => "Downloaded file is empty"@,
        BinaryError::Truncated => "failed to fill whole buffer"@,
        BinaryError::NotElf => "Not a valid ELF binary"@,
    }
}

impl BinaryError {
    /// The text that reports the error.
    pub fn message(&self) -> (text: &'static str)
        ensures
            text@ == binary_error_text(*self),
    {
        match self {
            BinaryError::Empty => "Downloaded file is empty",
            BinaryError::Truncated => "failed to fill whole buffer",
            BinaryError::NotElf => "Not a valid ELF binary",
        }
    }
}

/// Where the binary that is replaced is kept until the new one is in
/// place.
pub fn backup_path(target_binary: &str) -> (path: String)
    ensures
        path@ == target_binary@ + ".backup"@,
{
    let mut out: Vec<char> = Vec::new();
    push_text(&mut out, target_binary);
    push_text(&mut out, ".backup");
    string_of(out.as_slice())
}

} // verus!
