use vstd::prelude::*;

pub mod command;
pub mod config;
pub mod crypto;
pub mod form;
pub mod host;
pub mod ipc;
pub mod protocols;
pub mod result;
pub mod session;
pub mod storage;
pub mod token;

verus! {

/// String-slice equality by view; `str` has no specified `==` of its own.
pub fn str_eq(a: &str, b: &str) -> (r: bool)
    ensures
        r == (a@ == b@),
{
    a.to_string() == b.to_string()
}

/// Path of the local control endpoint used by client processes to reach
/// the daemon.
pub fn get_sock() -> (r: String)
    ensures
        r@ == "/tmp/openconnect-rs.sock"@,
{
    "/tmp/openconnect-rs.sock".to_string()
}

} // verus!
