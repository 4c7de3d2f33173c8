//! What the standalone engine processes say about a request.
//!
//! The engine backends that run as their own processes (the web-served
//! engine and the command-line engine) read the input file and then report
//! in fixed phrasings.  Reading is the process's own business; the exact
//! text it answers with is computed — and pinned — here.

use vstd::prelude::*;
use crate::decimal::{decimal, push_decimal};

verus! {

/// The web-served engine's reply once the input file was read: the job and
/// how many bytes of sequence data were found.
pub fn run_blast_reply(job_id: &str, n_bytes: u64) -> (r: String)
    ensures
        r@ == "Job "@ + job_id@ + "\nRead "@ + decimal(n_bytes as nat)
            + " bytes from input file"@,
{
    let mut s = String::from_str("Job ");
    s.append(job_id);
    s.append("\nRead ");
    push_decimal(&mut s, n_bytes);
    s.append(" bytes from input file");
    proof {
        assert(s@ =~= "Job "@ + job_id@ + "\nRead "@ + decimal(n_bytes as nat)
            + " bytes from input file"@);
    }
    s
}

/// The web-served engine's reply when the input file could not be read.
pub fn read_failure_reply(input_path: &str, err: &str) -> (r: String)
    ensures
        r@ == "Failed to read input file '"@ + input_path@ + "': "@ + err@,
{
    let mut s = String::from_str("Failed to read input file '");
    s.append(input_path);
    s.append("': ");
    s.append(err);
    proof {
        assert(s@ =~= "Failed to read input file '"@ + input_path@ + "': "@ + err@);
    }
    s
}

/// The command-line engine's one line of output: which job it runs and how
/// long the input it read is.
pub fn process_engine_banner(job_id: &str, input_len: u64) -> (r: String)
    ensures
        r@ == "RUST engine executing job "@ + job_id@ + " with input length "@ + decimal(
            input_len as nat,
        ),
{
    let mut s = String::from_str("RUST engine executing job ");
    s.append(job_id);
    s.append(" with input length ");
    push_decimal(&mut s, input_len);
    proof {
        assert(s@ =~= "RUST engine executing job "@ + job_id@ + " with input length "@ + decimal(
            input_len as nat,
        ));
    }
    s
}

} // verus!
