//! The human-readable account of a run: for each recorded outcome a line
//! that says whether the call succeeded, followed by what a successful call
//! logged.

use vstd::prelude::*;
use vstd::string::StringExecFns;
use crate::outcome::{Failure, Outcome};
use crate::runner::{Runner, State};

verus! {

/// The line that reports `outcome` for the call of the function `name`.
/// A rejected call and one that ran but did not pass both read as failed;
/// only the text after "failed" tells them apart.
pub open spec fn headline(name: Seq<char>, outcome: Outcome) -> Seq<char> {
    match outcome {
        Outcome::Success { .. } => name + " result: Test succeeded"@,
        Outcome::Failure { cause } => match cause {
            Failure::Rejected { error } => name + " result: Test failed with error: "@ + error@,
            Failure::Malformed { .. } => name + " result: Test failed: malformed response"@,
            Failure::Flag { .. } => name + " result: Test failed"@,
        },
    }
}

/// The text of each of `lines`.
pub open spec fn texts(lines: Seq<String>) -> Seq<Seq<char>> {
    lines.map_values(|line: String| line@)
}

/// The log lines that are reported for `outcome`: those of a success, in
/// the order emitted; none for a failure.
pub open spec fn logged(outcome: Outcome) -> Seq<Seq<char>> {
    match outcome {
        Outcome::Success { logs, .. } => texts(logs@),
        Outcome::Failure { .. } => Seq::empty(),
    }
}

/// The lines reported for one call: its headline, then what it logged.
pub open spec fn entry(name: Seq<char>, outcome: Outcome) -> Seq<Seq<char>> {
    seq![headline(name, outcome)] + logged(outcome)
}

/// The lines reported for the first `count` outcomes of `s`, in the order
/// of the calls.
pub open spec fn report_lines(s: State, count: nat) -> Seq<Seq<char>>
    decreases count,
{
    if count == 0 {
        Seq::empty()
    } else {
        report_lines(s, (count - 1) as nat) + entry(
            s.calls[count - 1].function_name@,
            s.outcomes[count - 1],
        )
    }
}

/// Writes the line that reports `outcome` for the call of the function `name`.
pub fn headline_of(name: &str, outcome: &Outcome) -> (line: String)
    ensures
        line@ == headline(name@, *outcome),
{
    let mut line = name.to_owned();
    match outcome {
        Outcome::Success { .. } => {
            line.append(" result: Test succeeded");
        },
        Outcome::Failure { cause } => match cause {
            Failure::Rejected { error } => {
                line.append(" result: Test failed with error: ");
                line.append(error.as_str());
            },
            Failure::Malformed { .. } => {
                line.append(" result: Test failed: malformed response");
            },
            Failure::Flag { .. } => {
                line.append(" result: Test failed");
            },
        },
    }
    line
}

/// Appends to `lines` what is reported for one call.
fn push_entry(lines: &mut Vec<String>, name: &str, outcome: &Outcome)
    ensures
        texts(final(lines)@) == texts(old(lines)@) + entry(name@, *outcome),
{
    let ghost before = texts(lines@);
    let head = headline_of(name, outcome);
    lines.push(head);
    assert(texts(lines@) =~= before + seq![headline(name@, *outcome)]);
    match outcome {
        Outcome::Success { logs, .. } => {
            let mut j: usize = 0;
            while j < logs.len()
                invariant
                    j <= logs.len(),
                    texts(lines@) == before + seq![headline(name@, *outcome)] + texts(logs@).take(
                        j as int,
                    ),
                decreases logs.len() - j,
            {
                let ghost so_far = texts(lines@);
                lines.push(logs[j].clone());
                assert(texts(lines@) =~= so_far.push(logs[j as int]@));
                assert(texts(logs@).take(j + 1) =~= texts(logs@).take(j as int).push(
                    logs[j as int]@,
                ));
                j += 1;
            }
            assert(texts(logs@).take(j as int) =~= texts(logs@));
        },
        Outcome::Failure { .. } => {},
    }
    assert(texts(lines@) =~= before + entry(name@, *outcome));
}

impl Runner {
    /// The report of the run so far: for each recorded outcome, in the order
    /// of the calls, the line that names the function called and says
    /// whether it succeeded, followed by the log lines of a call that did.
    pub fn report(&self) -> (lines: Vec<String>)
        requires
            self@.wf(),
        ensures
            texts(lines@) == report_lines(self@, self@.outcomes.len()),
    {
        let calls = self.calls();
        let outcomes = self.outcomes();
        let mut lines: Vec<String> = Vec::new();
        let mut i: usize = 0;
        assert(texts(lines@) =~= report_lines(self@, 0));
        while i < outcomes.len()
            invariant
                i <= outcomes.len() <= calls.len(),
                calls@ == self@.calls,
                outcomes@ == self@.outcomes,
                texts(lines@) == report_lines(self@, i as nat),
            decreases outcomes.len() - i,
        {
            push_entry(&mut lines, calls[i].function_name.as_str(), &outcomes[i]);
            i += 1;
        }
        lines
    }
}

} // verus!
