//! Control server for a battery-management board: the line-based command
//! protocol (parsing, dispatch, responses), the latest-value broadcaster of
//! button events, what a session makes of the text it reads, and the files
//! the server writes and removes.
use vstd::prelude::*;

pub mod broadcast;
pub mod clock;
pub mod discovery;
pub mod dispatch;
pub mod laws;
pub mod request;
pub mod response;
pub mod session;
pub mod text;

verus! {

} // verus!
