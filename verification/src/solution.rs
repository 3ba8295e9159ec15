use vstd::prelude::*;
use crate::response::RawContent;

verus! {

/// What the caller found when the delivered answer was tried on the target
/// site.
#[derive(Debug, Clone, Copy, PartialEq, Eq, Structural)]
pub enum Status {
    Correct,
    Incorrect,
}

/// The capability through which a captcha kind plugs its answer shape into
/// the engine: a structural test on the raw content, and the decoding.
pub trait CaptchaSolution: Sized {
    /// Whether the raw content has this shape.
    spec fn fits(raw: RawContent) -> bool;

    /// Whether this value holds exactly what the raw content says.
    spec fn reads(&self, raw: RawContent) -> bool;

    /// Decodes the raw content: a value exactly when the shape fits.
    fn from_content(raw: &RawContent) -> (r: Option<Self>)
        ensures
            r is Some <==> Self::fits(*raw),
            r matches Some(s) ==> s.reads(*raw),
    ;
}

/// What the service says about a finished task besides the answer itself.
#[derive(Debug, Clone, PartialEq, Eq)]
pub struct SolveInfo {
    /// The price charged for the task.
    pub cost: String,
    /// When the task was submitted, in seconds since the epoch.
    pub create_time: i64,
    /// When the task was completed, in seconds since the epoch.
    pub end_time: i64,
    /// How many workers attempted the task.
    pub solve_count: u8,
    /// The address that performed the solve.
    pub ip: String,
}

/// A finished task: the answer in the shape of its captcha kind, and what
/// the engine attached to it. It is made once, whole, when a poll finds the
/// task ready.
#[derive(Debug, Clone, PartialEq, Eq)]
pub struct Solution<S> {
    /// The identifier under which the service knows the task.
    pub task_id: u64,
    pub solution: S,
    pub cost: String,
    pub create_time: i64,
    pub end_time: i64,
    pub solve_count: u8,
    pub ip: String,
}

impl<S> Solution<S> {
    /// Whether the attached data are those of `info`.
    pub open spec fn carries(&self, info: SolveInfo) -> bool {
        &&& self.cost@ == info.cost@
        &&& self.create_time == info.create_time
        &&& self.end_time == info.end_time
        &&& self.solve_count == info.solve_count
        &&& self.ip@ == info.ip@
    }

    /// Puts an answer together with its task identifier and the service's
    /// data about the solve.
    pub fn assemble(task_id: u64, solution: S, info: SolveInfo) -> (r: Solution<S>)
        ensures
            r.task_id == task_id,
            r.solution == solution,
            r.carries(info),
    {
        Solution {
            task_id,
            solution,
            cost: info.cost,
            create_time: info.create_time,
            end_time: info.end_time,
            solve_count: info.solve_count,
            ip: info.ip,
        }
    }

    /// The identifier under which the service knows the task.
    pub fn task_id(&self) -> (r: u64)
        ensures
            r == self.task_id,
    {
        self.task_id
    }
}

} // verus!
