//! Validation of maestro flow paths against the test application they
//! belong to.

use vstd::prelude::*;

use crate::errors::InputError;
use crate::strutil::starts_with;
use crate::strutil::str_eq;

verus! {

/// The flow path relative to the test application: equal paths leave
/// nothing, otherwise the `<test application>/` prefix is stripped. Both
/// paths come in absolute and canonical; a flow outside the test
/// application is refused. Existence of the flow is the caller's check.
pub fn validate_flow(test_application: &str, flow: &str) -> (r: Result<String, InputError>)
    ensures
        flow@ == test_application@ ==> (r matches Ok(rel) && rel@ == Seq::<char>::empty()),
        flow@ != test_application@ && (test_application@ + seq!['/']).is_prefix_of(flow@) ==> (
        r matches Ok(rel) && rel@ == flow@.skip(test_application@.len() as int + 1)),
        r is Err <==> (flow@ != test_application@ && !(test_application@
            + seq!['/']).is_prefix_of(flow@)),
        r matches Err(e) ==> e matches InputError::InvalidFileName { path } && path@ == flow@,
{
    proof {
        reveal_strlit("/");
    }
    if str_eq(flow, test_application) {
        return Ok(String::new());
    }
    let mut prefix = test_application.to_owned();
    prefix.append("/");
    assert(prefix@ =~= test_application@ + seq!['/']);
    if starts_with(flow, prefix.as_str()) {
        let plen = prefix.as_str().unicode_len();
        let flen = flow.unicode_len();
        Ok(flow.substring_char(plen, flen).to_owned())
    } else {
        Err(InputError::InvalidFileName { path: flow.to_owned() })
    }
}

} // verus!
