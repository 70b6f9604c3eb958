//! A set of projects built one after another.

use vstd::prelude::*;
use crate::system::{BuildPlan, BuildSystem};

verus! {

/// The projects to build, in order.
pub struct App {
    pub builds: Vec<BuildSystem>,
}

impl App {
    /// The projects, in the order given.
    pub fn new(builds: Vec<BuildSystem>) -> (res: Self)
        ensures
            res.builds@ == builds@,
    {
        App { builds }
    }

    /// What building every project runs, in order: one plan per project.
    pub fn run(&self) -> (res: Vec<BuildPlan>)
        ensures
            res@.len() == self.builds@.len(),
            forall|i: int| 0 <= i < res@.len() ==> self.builds@[i].is_plan(#[trigger] res@[i]),
    {
        let mut plans: Vec<BuildPlan> = Vec::new();
        let n = self.builds.len();
        let mut i: usize = 0;
        while i < n
            invariant
                n == self.builds@.len(),
                i <= n,
                plans@.len() == i,
                forall|j: int| 0 <= j < i ==> self.builds@[j].is_plan(#[trigger] plans@[j]),
            decreases n - i,
        {
            let plan = self.builds[i].construct();
            plans.push(plan);
            i = i + 1;
        }
        plans
    }
}

} // verus!
