//! Command lines that the utility hands to the operating system, as plain
//! data: what to run, what to report when it cannot be run, and what to
//! report when all went well.

use crate::text::strings;
use vstd::prelude::*;
use vstd::string::StringExecFns;

verus! {

/// One program to run, with its arguments and, where it matters, the
/// directory to run it in.
#[derive(Debug, PartialEq, Eq)]
pub struct Invocation {
    pub program: String,
    pub args: Vec<String>,
    pub directory: Option<String>,
}

/// What an `Invocation` holds, as mathematical values.
pub struct InvocationView {
    pub program: Seq<char>,
    pub args: Seq<Seq<char>>,
    pub directory: Option<Seq<char>>,
}

/// The text that an optional string holds.
pub open spec fn option_text(s: Option<String>) -> Option<Seq<char>> {
    match s {
        Some(t) => Some(t@),
        None => None,
    }
}

/// The text that an optional string slice holds.
pub open spec fn option_str(s: Option<&str>) -> Option<Seq<char>> {
    match s {
        Some(t) => Some(t@),
        None => None,
    }
}

/// The text of a result: of the value on success, of the message on
/// failure.
pub open spec fn result_text(r: Result<String, String>) -> Result<Seq<char>, Seq<char>> {
    match r {
        Ok(s) => Ok(s@),
        Err(e) => Err(e@),
    }
}

/// The character sequences that a sequence of string slices holds.
pub open spec fn strs(v: Seq<&str>) -> Seq<Seq<char>> {
    v.map_values(|x: &str| x@)
}

impl View for Invocation {
    type V = InvocationView;

    open spec fn view(&self) -> InvocationView {
        InvocationView {
            program: self.program@,
            args: strings(self.args@),
            directory: option_text(self.directory),
        }
    }
}

/// The invocation of `program` with `args`, in no particular directory.
pub open spec fn spec_invoke(program: Seq<char>, args: Seq<Seq<char>>) -> InvocationView {
    InvocationView { program, args, directory: None }
}

/// Owned copies of the given strings, in order.
pub fn owned(items: &[&str]) -> (v: Vec<String>)
    ensures
        strings(v@) == strs(items@),
{
    let mut v: Vec<String> = Vec::new();
    let mut i: usize = 0;
    while i < items.len()
        invariant
            i <= items.len(),
            strings(v@) == strs(items@).take(i as int),
        decreases items.len() - i,
    {
        let ghost before = strings(v@);
        let item: &str = items[i];
        v.push(item.to_owned());
        assert(strs(items@).take(i + 1) =~= before.push(item@));
        i += 1;
    }
    v
}

/// Builds the invocation of `program` with `args`, in no particular
/// directory.
pub fn invoke(program: &str, args: &[&str]) -> (inv: Invocation)
    ensures
        inv@ == spec_invoke(program@, strs(args@)),
{
    Invocation { program: program.to_owned(), args: owned(args), directory: None }
}

/// One command of a plan. Where the command cannot be run at all, the plan
/// fails with `failure` followed by the reason, or goes on where `failure`
/// is `None`.
#[derive(Debug, PartialEq, Eq)]
pub struct Step {
    pub invocation: Invocation,
    pub failure: Option<String>,
}

/// What a `Step` holds, as mathematical values.
pub struct StepView {
    pub invocation: InvocationView,
    pub failure: Option<Seq<char>>,
}

impl View for Step {
    type V = StepView;

    open spec fn view(&self) -> StepView {
        StepView { invocation: self.invocation@, failure: option_text(self.failure) }
    }
}

/// The message with which a plan ends when a step with this `failure`
/// cannot be run for the given `reason`, if it ends there.
pub open spec fn spec_failed(failure: Option<Seq<char>>, reason: Seq<char>) -> Option<Seq<char>> {
    match failure {
        Some(prefix) => Some(prefix + reason),
        None => None,
    }
}

impl Step {
    /// A step that ends the plan with `failure` and the reason when the
    /// command cannot be run.
    pub fn required(invocation: Invocation, failure: &str) -> (step: Step)
        ensures
            step@ == (StepView { invocation: invocation@, failure: Some(failure@) }),
    {
        Step { invocation, failure: Some(failure.to_owned()) }
    }

    /// A step after which the plan goes on whether or not the command could
    /// be run.
    pub fn optional(invocation: Invocation) -> (step: Step)
        ensures
            step@ == (StepView { invocation: invocation@, failure: None }),
    {
        Step { invocation, failure: None }
    }

    /// The message with which the plan ends when this step's command cannot
    /// be run for the given `reason`; `None` where the plan goes on.
    pub fn failed(&self, reason: &str) -> (message: Option<String>)
        ensures
            option_text(message) == spec_failed(self@.failure, reason@),
    {
        match &self.failure {
            Some(prefix) => {
                let mut message = prefix.clone();
                message.append(reason);
                Some(message)
            },
            None => None,
        }
    }
}

/// Commands to run one after the other, and the message to report when
/// none of them ended the plan.
#[derive(Debug, PartialEq, Eq)]
pub struct Plan {
    pub steps: Vec<Step>,
    pub success: String,
}

/// What a `Plan` holds, as mathematical values.
pub struct PlanView {
    pub steps: Seq<StepView>,
    pub success: Seq<char>,
}

/// The views of a sequence of steps.
pub open spec fn step_views(steps: Seq<Step>) -> Seq<StepView> {
    steps.map_values(|s: Step| s@)
}

impl View for Plan {
    type V = PlanView;

    open spec fn view(&self) -> PlanView {
        PlanView { steps: step_views(self.steps@), success: self.success@ }
    }
}

} // verus!
