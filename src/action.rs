use vstd::prelude::*;

verus! {

/// Where one action stands in its lifecycle.
#[derive(PartialEq, Eq, Structural, Clone, Copy, Debug)]
pub enum ActionState {
    Uncompleted,
    Completed,
    Reverted,
}

/// The closed set of provisioning steps, each with what it needs to run and undo itself.
#[derive(Debug)]
pub enum ActionKind {
    /// Create (and mount) the volume that the store lives on.
    CreateVolume { disk: String, label: String, encrypt: bool },
    /// Place the software onto the volume.
    ProvisionSoftware,
    /// Write the software's configuration.
    ConfigureSoftware,
    /// (Re)start a service of the service manager.
    StartManagedService { service: String },
}

pub enum ActionKindModel {
    CreateVolume { disk: Seq<char>, label: Seq<char>, encrypt: bool },
    ProvisionSoftware,
    ConfigureSoftware,
    StartManagedService { service: Seq<char> },
}

impl View for ActionKind {
    type V = ActionKindModel;

    open spec fn view(&self) -> ActionKindModel {
        match self {
            ActionKind::CreateVolume { disk, label, encrypt } => ActionKindModel::CreateVolume {
                disk: disk@,
                label: label@,
                encrypt: *encrypt,
            },
            ActionKind::ProvisionSoftware => ActionKindModel::ProvisionSoftware,
            ActionKind::ConfigureSoftware => ActionKindModel::ConfigureSoftware,
            ActionKind::StartManagedService { service } => ActionKindModel::StartManagedService {
                service: service@,
            },
        }
    }
}

/// One step of a plan: what it does, and how far it got.
#[derive(Debug)]
pub struct Action {
    pub kind: ActionKind,
    pub state: ActionState,
}

pub struct ActionModel {
    pub kind: ActionKindModel,
    pub state: ActionState,
}

impl View for Action {
    type V = ActionModel;

    open spec fn view(&self) -> ActionModel {
        ActionModel { kind: self.kind@, state: self.state }
    }
}

impl Action {
    /// A freshly planned action, not yet run.
    pub fn planned(kind: ActionKind) -> (r: Action)
        ensures
            r@ == (ActionModel { kind: kind@, state: ActionState::Uncompleted }),
    {
        Action { kind, state: ActionState::Uncompleted }
    }

    /// Whether running the action forward would change anything: a completed
    /// action is not applied a second time.
    pub fn needs_execute(&self) -> (r: bool)
        ensures
            r == (self.state != ActionState::Completed),
    {
        self.state != ActionState::Completed
    }

    /// Whether undoing the action would change anything: only a completed
    /// action is ever reverted.
    pub fn needs_revert(&self) -> (r: bool)
        ensures
            r == (self.state == ActionState::Completed),
    {
        self.state == ActionState::Completed
    }

    /// Records the outcome of running the action forward. A completed action
    /// stays completed whatever is reported; otherwise success completes it and
    /// failure leaves it as it was.
    pub fn record_execute(&mut self, succeeded: bool)
        ensures
            final(self).kind@ == old(self).kind@,
            final(self).state == (if old(self).state == ActionState::Completed || succeeded {
                ActionState::Completed
            } else {
                old(self).state
            }),
    {
        if succeeded {
            self.state = ActionState::Completed;
        }
    }

    /// Records the outcome of undoing the action. Only a completed action
    /// changes, and only on success.
    pub fn record_revert(&mut self, succeeded: bool)
        ensures
            final(self).kind@ == old(self).kind@,
            final(self).state == (if old(self).state == ActionState::Completed && succeeded {
                ActionState::Reverted
            } else {
                old(self).state
            }),
    {
        if succeeded && self.state == ActionState::Completed {
            self.state = ActionState::Reverted;
        }
    }
}

} // verus!
