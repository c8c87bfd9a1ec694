//! Export outcome decisions.
//!
//! One dump process has run to completion; its exit status, captured
//! output streams, and elapsed time decide what happens next. On a zero
//! exit status the captured standard output becomes `<folder>/<name>.sql`,
//! that file is compressed to `<folder>/<name>.zip`, and a success record
//! is emitted. On a non-zero exit status nothing is written and nothing is
//! recorded: the name and both captured streams are surfaced as
//! diagnostics and the loop continues with the next database.

use vstd::prelude::*;
use vstd::string::StringExecFns;

use crate::command::sql_file_path;
use crate::command::sql_path_string;
use crate::command::zip_file_path;
use crate::command::zip_path_string;
use crate::numfmt::dec_rep;
use crate::numfmt::dec_string;
use crate::report::DumpRecord;

verus! {

/// What one export attempt comes to.
pub enum ExportOutcome {
    /// The dump succeeded: write `sql_bytes` to `sql_path`, compress that
    /// file to `zip_path`, and keep `record` for the final report.
    Success { sql_path: String, sql_bytes: Vec<u8>, zip_path: String, record: DumpRecord },
    /// The dump failed: write no file, record nothing; report the name
    /// and the captured streams and continue.
    Failure { name: String, stdout: Vec<u8>, stderr: Vec<u8> },
}

/// Decides the outcome of one finished dump process.
pub fn decide_export(
    folder: &String,
    name: &String,
    index: usize,
    exit_ok: bool,
    stdout: Vec<u8>,
    stderr: Vec<u8>,
    micros: u128,
) -> (r: ExportOutcome)
    ensures
        exit_ok ==> (r matches ExportOutcome::Success { sql_path, sql_bytes, zip_path, record }
            && sql_path@ == sql_file_path(folder@, name@) && sql_bytes@ == stdout@ && zip_path@
            == zip_file_path(folder@, name@) && record.index == index && record.name@ == name@
            && record.micros == micros),
        !exit_ok ==> (r matches ExportOutcome::Failure { name: n, stdout: out, stderr: err } && n@
            == name@ && out@ == stdout@ && err@ == stderr@),
{
    if exit_ok {
        ExportOutcome::Success {
            sql_path: sql_path_string(folder, name),
            sql_bytes: stdout,
            zip_path: zip_path_string(folder, name),
            record: DumpRecord { index, name: name.clone(), micros },
        }
    } else {
        ExportOutcome::Failure { name: name.clone(), stdout, stderr }
    }
}

/// The line announcing one successful dump.
pub fn success_message(name: &String, micros: u128) -> (r: String)
    ensures
        r@ == "Successfully dumped database: "@ + name@ + " (took "@ + dec_rep(micros as nat)
            + " microseconds)"@,
{
    let r = "Successfully dumped database: ".to_owned().concat(name.as_str()).concat(
        " (took ",
    ).concat(dec_string(micros).as_str()).concat(" microseconds)");
    proof {
        assert(r@ =~= "Successfully dumped database: "@ + name@ + " (took "@ + dec_rep(
            micros as nat,
        ) + " microseconds)"@);
    }
    r
}

/// The line announcing one failed dump.
pub fn failure_message(name: &String) -> (r: String)
    ensures
        r@ == "Failed to dump database: "@ + name@,
{
    "Failed to dump database: ".to_owned().concat(name.as_str())
}

} // verus!
