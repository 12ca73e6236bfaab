//! What an external command reported when it ran.

use vstd::prelude::*;
use vstd::utf8::{decode_utf8, valid_utf8};

use crate::text::{trim, trim_str};

verus! {

/// The outcome of a command that ran: whether it exited successfully, and
/// what it wrote to standard output and standard error.
pub struct CommandOutput {
    pub success: bool,
    pub stdout: Vec<u8>,
    pub stderr: Vec<u8>,
}

/// What `String::from_utf8_lossy` makes of some bytes.
pub uninterp spec fn utf8_lossy(bytes: Seq<u8>) -> Seq<char>;

/// Calls `String::from_utf8_lossy`. The contract names its result
/// `utf8_lossy` and states what its documentation says of valid UTF-8: it
/// is decoded as it is. What replaces invalid sequences is left unsaid.
#[verifier::external_body]
pub(crate) fn from_utf8_lossy(bytes: &[u8]) -> (r: String)
    ensures
        r@ == utf8_lossy(bytes@),
        valid_utf8(bytes@) ==> r@ == decode_utf8(bytes@),
{
    String::from_utf8_lossy(bytes).into_owned()
}

/// Some output of a command as text, with surrounding whitespace removed.
pub fn trimmed_output(bytes: &[u8]) -> (r: String)
    ensures
        r@ == trim(utf8_lossy(bytes@)),
{
    let text = from_utf8_lossy(bytes);
    trim_str(text.as_str())
}

} // verus!
