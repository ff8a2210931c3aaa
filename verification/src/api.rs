//! The computed parts of the directory client.
//!
//! Every directory operation is one HTTP exchange: join the service's base
//! path with the operation's path, post a JSON body, and classify the reply
//! by status code.  The exchange itself is unverified plumbing outside this
//! crate; the two computations it rests on are here.

use vstd::prelude::*;
use vstd::string::StringExecFns;

verus! {

/// Join the directory service's base path with one operation's path,
/// e.g. a base of `http://dir` and `/locate_object`.
pub fn endpoint_url(base: &str, op_path: &str) -> (r: String)
    ensures
        r@ == base@ + op_path@,
{
    String::from_str(base).concat(op_path)
}

/// A directory reply counts as success exactly when its status is neither a
/// client error (400-499) nor a server error (500-599); only then is the body
/// parsed as the operation's result.
pub fn is_success_status(status: u16) -> (r: bool)
    ensures
        r == !(400 <= status < 600),
{
    !(400 <= status && status < 600)
}

} // verus!
