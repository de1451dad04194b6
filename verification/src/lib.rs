//! A small git-over-SSH server library: command parsing, repository path
//! canonicalization, access-control decisions, configuration documents, and
//! the per-connection channel bookkeeping, all with verified contracts.
use vstd::prelude::*;

pub mod authorize;
pub mod commands;
pub mod config;
pub mod docs;
pub mod gitops;
pub mod messages;
pub mod paths;
pub mod session;
pub mod site;
pub mod strutil;

verus! {

/// Maps a subprocess exit report to the protocol-level exit status:
/// the process's own code when it exited normally, 128 otherwise.
pub fn exit_code_report(code: Option<i32>) -> (r: u32)
    ensures
        code is None ==> r == 128,
        code matches Some(c) ==> r == (if c >= 0 {
            c as int
        } else {
            c + 0x1_0000_0000
        }),
{
    match code {
        None => 128,
        Some(c) => {
            if c >= 0 {
                c as u32
            } else {
                let wide: i64 = (c as i64) + 0x1_0000_0000;
                wide as u32
            }
        },
    }
}

} // verus!
