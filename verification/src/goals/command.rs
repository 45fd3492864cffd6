//! The intent to create a goal: raw ingredients only, validated by
//! `Goal::new`.

use vstd::prelude::*;
use crate::priority::Priority;
use super::objective::Objective;
use super::constraint::Constraint;

verus! {

#[derive(Debug, Clone)]
pub struct CreateGoalCommand {
    pub name: String,
    pub description: String,
    pub priority: Priority,
    pub objective: Objective,
    pub constraints: Vec<Constraint>,
}

} // verus!
