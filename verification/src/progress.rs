//! Events reported at the end of an orchestration, with their
//! user-facing message text.

use vstd::prelude::*;

use crate::strutil::append_dec;
use crate::strutil::append_dec_pad2;
use crate::strutil::append_dec_pad3;
use crate::strutil::spec_dec;
use crate::strutil::spec_pad2;
use crate::strutil::spec_pad3;
use crate::strutil::str_eq;

verus! {

/// A run was submitted and the caller chose not to wait.
#[derive(Debug, Clone, PartialEq, Eq)]
pub struct TestRunStarted {
    pub id: String,
}

impl TestRunStarted {
    /// The line reported for a started run.
    pub fn message(&self) -> (r: String)
        ensures
            r@ == "Test run "@ + self.id@ + " started"@,
    {
        let mut out = String::from_str("Test run ");
        out.append(self.id.as_str());
        out.append(" started");
        assert(out@ =~= "Test run "@ + self.id@ + " started"@);
        out
    }
}

/// A run reached a terminal state; `billable_time_millis` carries the
/// billable duration in milliseconds.
#[derive(Debug, Clone, PartialEq, Eq)]
pub struct TestRunFinished {
    pub id: String,
    pub report: String,
    pub state: String,
    pub passed: Option<u32>,
    pub failed: Option<u32>,
    pub ignored: Option<u32>,
    pub billable_time_millis: u64,
}

/// The headline for a terminal state.
pub open spec fn spec_finished_header(state: Seq<char>) -> Seq<char> {
    if state == "passed"@ {
        "Marathon Cloud execution finished\n"@
    } else if state == "failure"@ {
        "Marathon Cloud execution finished with failures\n"@
    } else {
        "Marathon cloud execution crashed\n"@
    }
}

/// An optional test count, `missing` when the service sent none.
pub open spec fn spec_opt_count(v: Option<u32>) -> Seq<char> {
    match v {
        Some(x) => spec_dec(x as nat),
        None => "missing"@,
    }
}

/// `HH:MM:SS.mmm` for a duration in milliseconds.
pub open spec fn spec_billable(millis: nat) -> Seq<char> {
    let s = millis / 1000;
    let rem = s % 3600;
    spec_pad2(s / 3600) + seq![':'] + spec_pad2(rem / 60) + seq![':'] + spec_pad2(rem % 60)
        + seq!['.'] + spec_pad3(millis % 1000)
}

fn append_opt_count(out: &mut String, v: &Option<u32>)
    ensures
        final(out)@ == old(out)@ + spec_opt_count(*v),
{
    match v {
        Some(x) => {
            append_dec(out, *x as u64);
        },
        None => {
            out.append("missing");
        },
    }
}

impl TestRunFinished {
    /// The multi-line summary reported for a finished run.
    pub fn message(&self) -> (r: String)
        ensures
            r@ == spec_finished_header(self.state@) + "\tstate: "@ + self.state@ + "\n"@
                + "\treport: "@ + self.report@ + "\n"@ + "\tpassed: "@ + spec_opt_count(
                self.passed,
            ) + "\n"@ + "\tfailed: "@ + spec_opt_count(self.failed) + "\n"@ + "\tignored: "@
                + spec_opt_count(self.ignored) + "\n"@ + "\tbillable time: "@ + spec_billable(
                self.billable_time_millis as nat,
            ) + "\n"@,
    {
        proof {
            reveal_strlit(":");
            reveal_strlit(".");
            reveal_strlit("\n");
        }
        let mut out = if str_eq(self.state.as_str(), "passed") {
            String::from_str("Marathon Cloud execution finished\n")
        } else if str_eq(self.state.as_str(), "failure") {
            String::from_str("Marathon Cloud execution finished with failures\n")
        } else {
            String::from_str("Marathon cloud execution crashed\n")
        };
        out.append("\tstate: ");
        out.append(self.state.as_str());
        out.append("\n");
        out.append("\treport: ");
        out.append(self.report.as_str());
        out.append("\n");
        out.append("\tpassed: ");
        append_opt_count(&mut out, &self.passed);
        out.append("\n");
        out.append("\tfailed: ");
        append_opt_count(&mut out, &self.failed);
        out.append("\n");
        out.append("\tignored: ");
        append_opt_count(&mut out, &self.ignored);
        out.append("\n");
        out.append("\tbillable time: ");
        let millis = self.billable_time_millis;
        let s = millis / 1000;
        let rem = s % 3600;
        append_dec_pad2(&mut out, s / 3600);
        out.append(":");
        append_dec_pad2(&mut out, rem / 60);
        out.append(":");
        append_dec_pad2(&mut out, rem % 60);
        out.append(".");
        append_dec_pad3(&mut out, millis % 1000);
        out.append("\n");
        assert(out@ =~= spec_finished_header(self.state@) + "\tstate: "@ + self.state@ + "\n"@
            + "\treport: "@ + self.report@ + "\n"@ + "\tpassed: "@ + spec_opt_count(self.passed)
            + "\n"@ + "\tfailed: "@ + spec_opt_count(self.failed) + "\n"@ + "\tignored: "@
            + spec_opt_count(self.ignored) + "\n"@ + "\tbillable time: "@ + spec_billable(
            self.billable_time_millis as nat,
        ) + "\n"@);
        out
    }
}

} // verus!
