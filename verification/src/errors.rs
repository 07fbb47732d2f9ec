//! Errors as the host sees them.
//!
//! The host gets one of a fixed set of messages, so that an error that comes again and again
//! costs no memory. What is special about the case goes to the log alone.

use vstd::prelude::*;
use vstd::string::StringExecFns;

pub mod activation;
pub mod assets;
pub mod dsp_resources;
pub mod state_txn;

verus! {

/// An error on its way to the host and to the log.
#[derive(Debug)]
pub struct ErrorReport {
    /// What the host is told.
    pub message: &'static str,
    /// What is logged.
    pub log: String,
}

/// The text that is logged.
pub open spec fn log_text(code: Seq<char>, detail: Seq<char>) -> Seq<char> {
    "NAM-Plug ["@ + code + "]: "@ + detail
}

/// Reports an error: `code` is the message for the host, `detail` goes to the log alone.
pub fn static_plugin_error(code: &'static str, detail: &str) -> (report: ErrorReport)
    ensures
        report.message@ == code@,
        report.log@ == log_text(code@, detail@),
{
    let mut log = String::from_str("NAM-Plug [");
    log.append(code);
    log.append("]: ");
    log.append(detail);
    ErrorReport { message: code, log }
}

} // verus!
