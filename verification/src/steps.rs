//! The steps that a card goes through while it is learnt.
use vstd::prelude::*;

verus! {

/// The delays between learning steps, in seconds.
#[derive(Debug, Clone, Copy, PartialEq, Eq)]
pub struct LearningSteps<'a> {
    pub steps: &'a Vec<u32>,
}

/// Which of `total` steps comes next when `remaining` are to go. More steps to go
/// than there are means the first one; none to go means the last one.
pub open spec fn step_index(total: int, remaining: u32) -> int {
    let to_go: int = (remaining % 1000) as int;
    if to_go >= total {
        0
    } else if to_go == 0 {
        total - 1
    } else {
        total - to_go
    }
}

/// The delay of the step that is under way; zero if there are no steps.
pub open spec fn step_delay(steps: Seq<u32>, remaining: u32) -> u32 {
    if steps.len() == 0 {
        0
    } else {
        steps[step_index(steps.len() as int, remaining)]
    }
}

impl<'a> LearningSteps<'a> {
    /// Takes the delays in seconds.
    pub fn new(steps: &'a Vec<u32>) -> (learning: LearningSteps<'a>)
        ensures
            learning == (LearningSteps { steps }),
    {
        LearningSteps { steps }
    }

    /// The delay of the step that is under way when `remaining` are to go.
    pub fn current_delay_secs(&self, remaining: u32) -> (secs: u32)
        ensures
            secs == step_delay(self.steps@, remaining),
    {
        let total: usize = self.steps.len();
        if total == 0 {
            return 0;
        }
        let to_go: usize = (remaining % 1000) as usize;
        let index: usize = if to_go >= total {
            0
        } else if to_go == 0 {
            total - 1
        } else {
            total - to_go
        };
        self.steps[index]
    }
}

} // verus!
