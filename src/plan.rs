use vstd::prelude::*;

use crate::action::{Action, ActionModel};
use crate::planner::{BuiltinPlanner, BuiltinPlannerModel};

verus! {

/// The ordered actions that a planner chose, with the planner (and so the
/// settings) that chose them.
#[derive(Debug)]
pub struct InstallPlan {
    pub planner: BuiltinPlanner,
    pub actions: Vec<Action>,
}

pub struct InstallPlanModel {
    pub planner: BuiltinPlannerModel,
    pub actions: Seq<ActionModel>,
}

impl View for InstallPlan {
    type V = InstallPlanModel;

    open spec fn view(&self) -> InstallPlanModel {
        InstallPlanModel { planner: self.planner@, actions: self.actions@.map_values(|a: Action| a@) }
    }
}

} // verus!
