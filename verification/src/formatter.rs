//! Stage and message lines for the console. The library renders the text;
//! printing happens outside.

use vstd::prelude::*;

use crate::strutil::append_dec;
use crate::strutil::spec_dec;

verus! {

/// Renders the lines an orchestration reports.
pub trait Formatter {
    /// The line announcing the next stage.
    fn stage(&self, message: &str) -> String;

    /// The line for a plain message.
    fn message(&self, message: &str) -> String;
}

/// The standard renderer: stages carry a `[index/count]` prefix.
pub struct StandardFormatter {
    pub stage_count: u32,
    pub index: u32,
}

impl StandardFormatter {
    /// A formatter for a flow of `stage_count` stages.
    pub fn new(stage_count: u32) -> (r: StandardFormatter)
        ensures
            r.stage_count == stage_count,
            r.index == 1,
    {
        StandardFormatter { stage_count, index: 1 }
    }

    /// `[index/count] message`.
    pub fn stage_line(&self, message: &str) -> (r: String)
        ensures
            r@ == seq!['['] + spec_dec(self.index as nat) + seq!['/'] + spec_dec(
                self.stage_count as nat,
            ) + seq![']', ' '] + message@,
    {
        proof {
            reveal_strlit("[");
            reveal_strlit("/");
            reveal_strlit("] ");
        }
        let mut out = String::from_str("[");
        append_dec(&mut out, self.index as u64);
        out.append("/");
        append_dec(&mut out, self.stage_count as u64);
        out.append("] ");
        out.append(message);
        assert(out@ =~= seq!['['] + spec_dec(self.index as nat) + seq!['/'] + spec_dec(
            self.stage_count as nat,
        ) + seq![']', ' '] + message@);
        out
    }
}

impl Formatter for StandardFormatter {
    fn stage(&self, message: &str) -> String {
        self.stage_line(message)
    }

    fn message(&self, message: &str) -> String {
        message.to_owned()
    }
}

} // verus!
