//! Support for the hashing reader that streams a digest over a channel
//! while a file is uploaded. The reader itself wraps asynchronous I/O and
//! lives outside the library; the message it raises when the channel is
//! gone is rendered here.

use vstd::prelude::*;

verus! {

/// The message raised when a digest cannot be handed over because the
/// receiving end of the channel is gone; `detail` describes the failed
/// send.
pub fn channel_error(detail: &str) -> (r: String)
    ensures
        r@ == "EOF reached but was unable to send hash: "@ + detail@,
{
    let mut out = String::from_str("EOF reached but was unable to send hash: ");
    out.append(detail);
    assert(out@ =~= "EOF reached but was unable to send hash: "@ + detail@);
    out
}

} // verus!
