use vstd::prelude::*;

verus! {

/// The diagnostic kept for a metadata command that ran and exited non-zero:
/// what it wrote to its error stream if it wrote anything there, otherwise
/// what it wrote to its output stream.
pub fn command_failure_message(stderr: String, stdout: String) -> (r: String)
    ensures
        stderr@.len() > 0 ==> r@ == stderr@,
        stderr@.len() == 0 ==> r@ == stdout@,
{
    if stderr.as_str().is_empty() {
        stdout
    } else {
        stderr
    }
}

} // verus!
