//! Starting the reporting client: where it lies, and the command line that it
//! is started with.
use crate::paths::FilePath;
use vstd::prelude::*;

verus! {

/// How the client's process is made: at normal priority, without a window,
/// with an environment of 16-bit units.
pub const CLIENT_CREATION_FLAGS: u32 = 0x0800_0420;

/// The 16-bit unit of a double quote.
pub const QUOTE: u16 = 0x22;

/// The 16-bit unit of a space.
pub const SPACE: u16 = 0x20;

/// The command line of the client: its own path and the minidump's path, each
/// between double quotes, a space between them, and a zero at the end.
pub open spec fn client_command_line_of(client_path: Seq<u16>, minidump_path: Seq<u16>) -> Seq<u16> {
    seq![QUOTE] + client_path + seq![QUOTE, SPACE, QUOTE] + minidump_path + seq![QUOTE, 0u16]
}

/// Where the reporting client lies, given the directory that the application
/// is installed in.
pub fn get_client_path(install_path: &FilePath) -> (path: FilePath)
    ensures
        path@ == install_path@.join("crashreporter.exe"@),
{
    install_path.join("crashreporter.exe")
}

/// The command line to start the client with, given its path and the path of
/// the minidump, both in 16-bit units.
pub fn client_command_line(client_path: &Vec<u16>, minidump_path: &Vec<u16>) -> (line: Vec<u16>)
    ensures
        line@ == client_command_line_of(client_path@, minidump_path@),
{
    let mut line: Vec<u16> = Vec::new();
    line.push(QUOTE);
    let ghost head = line@;
    let mut i: usize = 0;
    while i < client_path.len()
        invariant
            i <= client_path.len(),
            line@ == head + client_path@.take(i as int),
        decreases client_path.len() - i,
    {
        line.push(client_path[i]);
        i = i + 1;
    }
    assert(client_path@.take(i as int) == client_path@);
    line.push(QUOTE);
    line.push(SPACE);
    line.push(QUOTE);
    let ghost middle = line@;
    assert(middle == seq![QUOTE] + client_path@ + seq![QUOTE, SPACE, QUOTE]);
    let mut k: usize = 0;
    while k < minidump_path.len()
        invariant
            k <= minidump_path.len(),
            line@ == middle + minidump_path@.take(k as int),
        decreases minidump_path.len() - k,
    {
        line.push(minidump_path[k]);
        k = k + 1;
    }
    assert(minidump_path@.take(k as int) == minidump_path@);
    line.push(QUOTE);
    line.push(0u16);
    assert(line@ == middle + minidump_path@ + seq![QUOTE, 0u16]);
    line
}

} // verus!
