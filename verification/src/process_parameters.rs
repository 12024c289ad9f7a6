//! Where a process keeps its command line and its environment: the layout of
//! its parameter block. Only the first part of the block is documented; the
//! offsets below are those of the systems known so far, and a later system may
//! need others.
use crate::layout::{
    le_value, lemma_le_value_bound, lemma_pow256_values, pointer_size, pointer_width, read_le,
};
use vstd::prelude::*;

verus! {

/// Offset, in a process's environment block, of the address of its parameter
/// block.
pub open spec fn parameters_pointer_offset() -> nat {
    4 * pointer_width()
}

/// Offset of the command line's length, in bytes, in the parameter block.
pub open spec fn command_line_length_offset() -> nat {
    16 + 12 * pointer_width()
}

/// Offset of the command line's address in the parameter block.
pub open spec fn command_line_buffer_offset() -> nat {
    16 + 13 * pointer_width()
}

/// Offset of the environment's address in the parameter block.
pub open spec fn environment_offset() -> nat {
    16 + 14 * pointer_width()
}

/// Offset of the environment's size, in bytes, in the parameter block.
pub open spec fn environment_size_offset() -> nat {
    if pointer_width() == 8 {
        1008
    } else {
        656
    }
}

/// The number of bytes of the parameter block that are read.
pub open spec fn parameters_size() -> nat {
    environment_size_offset() + pointer_width()
}

/// What is read of a process's parameter block.
#[derive(Clone, Copy, PartialEq, Eq, Structural, Debug)]
pub struct ProcessParameters {
    /// Length of the command line, in bytes.
    pub command_line_length: u16,
    /// Address of the command line in the process.
    pub command_line_buffer: usize,
    /// Address of the environment in the process.
    pub environment: usize,
    /// Size of the environment, in bytes.
    pub environment_size: u32,
}

/// Whether `parameters` is what the bytes of a parameter block hold.
pub open spec fn parameters_decode_to(bytes: Seq<u8>, parameters: ProcessParameters) -> bool {
    &&& bytes.len() == parameters_size()
    &&& parameters.command_line_length == le_value(
        bytes.subrange(command_line_length_offset() as int, command_line_length_offset() as int + 2),
    )
    &&& parameters.command_line_buffer == le_value(
        bytes.subrange(command_line_buffer_offset() as int, environment_offset() as int),
    )
    &&& parameters.environment == le_value(
        bytes.subrange(environment_offset() as int, environment_offset() as int + pointer_width()),
    )
    &&& parameters.environment_size == le_value(
        bytes.subrange(environment_size_offset() as int, environment_size_offset() as int + 4),
    )
}

/// The text that 16-bit units spell, or `None` where they spell none because
/// a surrogate stands alone.
pub uninterp spec fn utf16_text(units: Seq<u16>) -> Option<Seq<char>>;

/// Trusted: `String::from_utf16` of the standard library. The contract claims
/// that whether the units decode, and to what text, depends on the units
/// alone.
#[verifier::external_body]
fn decode_utf16(units: &Vec<u16>) -> (r: Option<String>)
    ensures
        match r {
            Some(text) => utf16_text(units@) == Some(text@),
            None => utf16_text(units@) is None,
        },
{
    String::from_utf16(units).ok()
}

/// The text of a command line read as 16-bit units; fails where the units
/// spell no text.
pub fn command_line_text(units: &Vec<u16>) -> (r: Result<String, ()>)
    ensures
        match r {
            Ok(text) => utf16_text(units@) == Some(text@),
            Err(_) => utf16_text(units@) is None,
        },
{
    match decode_utf16(units) {
        Some(text) => Ok(text),
        None => Err(()),
    }
}

impl ProcessParameters {
    /// Offset, in a process's environment block, of the address of its
    /// parameter block.
    pub fn pointer_offset() -> (n: usize)
        ensures
            n == parameters_pointer_offset(),
    {
        4 * pointer_size()
    }

    /// The number of bytes of the parameter block to read.
    pub fn size() -> (n: usize)
        ensures
            n == parameters_size(),
    {
        if pointer_size() == 8 {
            1016
        } else {
            660
        }
    }

    /// Reads the parameters from the bytes of the block; fails unless they are
    /// exactly as many as are to be read.
    pub fn from_bytes(bytes: &Vec<u8>) -> (r: Result<ProcessParameters, ()>)
        ensures
            r is Ok <==> bytes@.len() == parameters_size(),
            r matches Ok(parameters) ==> parameters_decode_to(bytes@, parameters),
    {
        let width = pointer_size();
        if bytes.len() != ProcessParameters::size() {
            return Err(());
        }
        let size_at: usize = if width == 8 {
            1008
        } else {
            656
        };
        let length_at: usize = 16 + 12 * width;
        let buffer_at: usize = 16 + 13 * width;
        let environment_at: usize = 16 + 14 * width;
        proof {
            lemma_pow256_values();
            lemma_le_value_bound(bytes@.subrange(length_at as int, length_at + 2));
            lemma_le_value_bound(bytes@.subrange(buffer_at as int, buffer_at + width));
            lemma_le_value_bound(bytes@.subrange(environment_at as int, environment_at + width));
            lemma_le_value_bound(bytes@.subrange(size_at as int, size_at + 4));
        }
        let command_line_length = read_le(bytes, length_at, 2) as u16;
        let command_line_buffer = read_le(bytes, buffer_at, width) as usize;
        let environment = read_le(bytes, environment_at, width) as usize;
        let environment_size = read_le(bytes, size_at, 4) as u32;
        Ok(
            ProcessParameters {
                command_line_length,
                command_line_buffer,
                environment,
                environment_size,
            },
        )
    }

    /// The number of 16-bit units of the command line.
    pub fn command_line_units(&self) -> (n: usize)
        ensures
            n == self.command_line_length / 2,
    {
        (self.command_line_length / 2) as usize
    }

    /// The number of 16-bit units of the environment.
    pub fn environment_units(&self) -> (n: usize)
        ensures
            n == self.environment_size / 2,
    {
        (self.environment_size / 2) as usize
    }
}

/// Reads, from the bytes of a process's environment block, the address of its
/// parameter block; fails where the bytes end before it.
pub fn parameters_address(environment_block: &Vec<u8>) -> (r: Result<usize, ()>)
    ensures
        r is Ok <==> environment_block@.len() >= 5 * pointer_width(),
        r matches Ok(address) ==> address == le_value(
            environment_block@.subrange(
                parameters_pointer_offset() as int,
                parameters_pointer_offset() as int + pointer_width(),
            ),
        ),
{
    let width = pointer_size();
    if environment_block.len() < 5 * width {
        return Err(());
    }
    proof {
        lemma_pow256_values();
        lemma_le_value_bound(environment_block@.subrange(4 * width, 4 * width + width));
    }
    Ok(read_le(environment_block, 4 * width, width) as usize)
}

} // verus!
