//! The liveness probe.

use vstd::prelude::*;
use vstd::string::*;

use crate::reply::{Reply, ReplyView};

verus! {

/// Answers the liveness probe.
pub fn get_health() -> (r: Reply)
    ensures
        r@ == (ReplyView::Text { status: 200, body: "OK\n"@ }),
{
    Reply::Text { status: 200, body: "OK\n".to_owned() }
}

} // verus!
