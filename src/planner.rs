use vstd::prelude::*;

use crate::action::{Action, ActionKind, ActionKindModel, ActionModel, ActionState};
use crate::plan::{InstallPlan, InstallPlanModel};

verus! {

/// What `plist` makes of a property-list document: the string stored under
/// `key` in its top-level dictionary, if the document parses, is a
/// dictionary, and holds a string there.
pub uninterp spec fn plist_dict_string(doc: Seq<u8>, key: Seq<char>) -> Option<Seq<char>>;

/// Relies on `plist::Value::from_reader` to parse the document, and on
/// `Value::as_dictionary`, `Dictionary::get` and `Value::as_string` to read
/// one string entry of its top-level dictionary.
#[verifier::external_body]
fn plist_string_entry(doc: &[u8], key: &str) -> (r: Option<String>)
    ensures
        match r {
            Some(s) => plist_dict_string(doc@, key@) == Some(s@),
            None => plist_dict_string(doc@, key@) is None,
        },
{
    let value = plist::Value::from_reader(std::io::Cursor::new(doc)).ok()?;
    value.as_dictionary()?.get(key)?.as_string().map(String::from)
}

/// Why no plan could be made. Nothing has been changed on the machine.
#[derive(PartialEq, Eq, Structural, Clone, Copy, Debug)]
pub enum PlannerError {
    /// The disk information did not name the whole disk that holds `/`.
    RootDiskUndetermined,
}

/// The key of `diskutil info -plist /` that names the physical disk under `/`.
pub open spec fn parent_whole_disk_key() -> Seq<char> {
    "ParentWholeDisk"@
}

/// The physical disk named in the output of `diskutil info -plist /`.
pub fn root_disk_from_diskutil(info: &[u8]) -> (r: Result<String, PlannerError>)
    ensures
        match plist_dict_string(info@, parent_whole_disk_key()) {
            Some(d) => r is Ok && r->Ok_0@ == d,
            None => r == Err::<String, PlannerError>(PlannerError::RootDiskUndetermined),
        },
{
    match plist_string_entry(info, "ParentWholeDisk") {
        Some(d) => Ok(d),
        None => Err(PlannerError::RootDiskUndetermined),
    }
}

/// The service that the multi-user install (re)starts last.
pub open spec fn daemon_service() -> Seq<char> {
    "system/org.nixos.nix-daemon"@
}

/// Multi-user install on macOS, onto an APFS volume of its own.
#[derive(Debug)]
pub struct DarwinMulti {
    volume_encrypt: bool,
    volume_label: String,
    root_disk: Option<String>,
}

pub struct DarwinMultiModel {
    pub volume_encrypt: bool,
    pub volume_label: Seq<char>,
    pub root_disk: Option<Seq<char>>,
}

pub open spec fn opt_view(o: Option<String>) -> Option<Seq<char>> {
    match o {
        Some(s) => Some(s@),
        None => None,
    }
}

impl View for DarwinMulti {
    type V = DarwinMultiModel;

    closed spec fn view(&self) -> DarwinMultiModel {
        DarwinMultiModel {
            volume_encrypt: self.volume_encrypt,
            volume_label: self.volume_label@,
            root_disk: opt_view(self.root_disk),
        }
    }
}

/// The ordered steps of a multi-user macOS install onto `root_disk`: the
/// volume first, then the software onto it, its configuration, and last the
/// daemon that depends on all three.
pub open spec fn darwin_multi_actions(s: DarwinMultiModel, root_disk: Seq<char>) -> Seq<ActionModel> {
    seq![
        ActionModel {
            kind: ActionKindModel::CreateVolume {
                disk: root_disk,
                label: s.volume_label,
                encrypt: s.volume_encrypt,
            },
            state: ActionState::Uncompleted,
        },
        ActionModel { kind: ActionKindModel::ProvisionSoftware, state: ActionState::Uncompleted },
        ActionModel { kind: ActionKindModel::ConfigureSoftware, state: ActionState::Uncompleted },
        ActionModel {
            kind: ActionKindModel::StartManagedService { service: daemon_service() },
            state: ActionState::Uncompleted,
        },
    ]
}

/// The plan that `s` makes on a machine whose root disk is `root_disk`.
pub open spec fn darwin_multi_plan(s: DarwinMultiModel, root_disk: Seq<char>) -> InstallPlanModel {
    InstallPlanModel {
        planner: BuiltinPlannerModel::DarwinMulti(s),
        actions: darwin_multi_actions(s, root_disk),
    }
}

/// The disk that the volume goes on: the one the settings name, else the one
/// the machine reports.
pub open spec fn chosen_root_disk(s: DarwinMultiModel, info: Seq<u8>) -> Option<Seq<char>> {
    match s.root_disk {
        Some(d) => Some(d),
        None => plist_dict_string(info, parent_whole_disk_key()),
    }
}

impl DarwinMulti {
    pub const DISPLAY_STRING: &'static str = "Darwin Multi-User";

    pub const SLUG: &'static str = "darwin-multi";

    pub fn new(volume_encrypt: bool, volume_label: String, root_disk: Option<String>) -> (r: Self)
        ensures
            r@ == (DarwinMultiModel {
                volume_encrypt,
                volume_label: volume_label@,
                root_disk: opt_view(root_disk),
            }),
    {
        DarwinMulti { volume_encrypt, volume_label, root_disk }
    }

    pub fn volume_encrypt(&self) -> (r: bool)
        ensures
            r == self@.volume_encrypt,
    {
        self.volume_encrypt
    }

    pub fn volume_label(&self) -> (r: &String)
        ensures
            r@ == self@.volume_label,
    {
        &self.volume_label
    }

    pub fn root_disk(&self) -> (r: &Option<String>)
        ensures
            opt_view(*r) == self@.root_disk,
    {
        &self.root_disk
    }

    /// The defaults, with the root disk taken from `diskutil info -plist /`:
    /// no encryption, the label "Nix Store".
    pub fn default(diskutil_info: &[u8]) -> (r: Result<Self, PlannerError>)
        ensures
            match plist_dict_string(diskutil_info@, parent_whole_disk_key()) {
                Some(d) => r is Ok && r->Ok_0@ == (DarwinMultiModel {
                    volume_encrypt: false,
                    volume_label: "Nix Store"@,
                    root_disk: Some(d),
                }),
                None => r is Err && r->Err_0 == PlannerError::RootDiskUndetermined,
            },
    {
        match root_disk_from_diskutil(diskutil_info) {
            Ok(d) => Ok(Self::default_on_disk(d)),
            Err(e) => Err(e),
        }
    }

    /// The defaults on a machine whose root disk is `root_disk`: no
    /// encryption, the label "Nix Store", that disk.
    pub fn default_on_disk(root_disk: String) -> (r: Self)
        ensures
            r@ == (DarwinMultiModel {
                volume_encrypt: false,
                volume_label: "Nix Store"@,
                root_disk: Some(root_disk@),
            }),
    {
        DarwinMulti {
            volume_encrypt: false,
            volume_label: String::from_str("Nix Store"),
            root_disk: Some(root_disk),
        }
    }

    /// The plan on a machine whose root disk is `root_disk`. It depends on the
    /// settings and that disk alone.
    pub fn plan_on_disk(self, root_disk: String) -> (r: InstallPlan)
        ensures
            r@ == darwin_multi_plan(self@, root_disk@),
    {
        let label = self.volume_label.clone();
        let encrypt = self.volume_encrypt;
        let mut actions: Vec<Action> = Vec::new();
        actions.push(Action::planned(ActionKind::CreateVolume { disk: root_disk, label, encrypt }));
        actions.push(Action::planned(ActionKind::ProvisionSoftware));
        actions.push(Action::planned(ActionKind::ConfigureSoftware));
        actions.push(
            Action::planned(
                ActionKind::StartManagedService {
                    service: String::from_str("system/org.nixos.nix-daemon"),
                },
            ),
        );
        let r = InstallPlan { planner: BuiltinPlanner::DarwinMulti(self), actions };
        assert(r@.actions =~= darwin_multi_plan(r@.planner->DarwinMulti_0, root_disk@).actions);
        r
    }

    /// The plan for these settings. The root disk is the one they name, else
    /// the one in `diskutil_info` (the output of `diskutil info -plist /`).
    pub fn plan(self, diskutil_info: &[u8]) -> (r: Result<InstallPlan, PlannerError>)
        ensures
            match chosen_root_disk(self@, diskutil_info@) {
                Some(d) => r is Ok && r->Ok_0@ == darwin_multi_plan(self@, d),
                None => r is Err && r->Err_0 == PlannerError::RootDiskUndetermined,
            },
    {
        let disk = match &self.root_disk {
            Some(d) => d.clone(),
            None => match root_disk_from_diskutil(diskutil_info) {
                Ok(d) => d,
                Err(e) => {
                    return Err(e);
                },
            },
        };
        Ok(self.plan_on_disk(disk))
    }

    pub fn into_planner(self) -> (r: BuiltinPlanner)
        ensures
            r@ == BuiltinPlannerModel::DarwinMulti(self@),
    {
        BuiltinPlanner::from(self)
    }
}

/// The planners that this library offers, one per kind of target machine.
#[derive(Debug)]
pub enum BuiltinPlanner {
    DarwinMulti(DarwinMulti),
}

pub enum BuiltinPlannerModel {
    DarwinMulti(DarwinMultiModel),
}

impl View for BuiltinPlanner {
    type V = BuiltinPlannerModel;

    open spec fn view(&self) -> BuiltinPlannerModel {
        match self {
            BuiltinPlanner::DarwinMulti(d) => BuiltinPlannerModel::DarwinMulti(d@),
        }
    }
}

impl From<DarwinMulti> for BuiltinPlanner {
    fn from(d: DarwinMulti) -> (r: BuiltinPlanner)
        ensures
            r@ == BuiltinPlannerModel::DarwinMulti(d@),
    {
        BuiltinPlanner::DarwinMulti(d)
    }
}

impl vstd::std_specs::convert::FromSpecImpl<DarwinMulti> for BuiltinPlanner {
    open spec fn obeys_from_spec() -> bool {
        true
    }

    open spec fn from_spec(d: DarwinMulti) -> BuiltinPlanner {
        BuiltinPlanner::DarwinMulti(d)
    }
}

/// Planning is deterministic: the same settings on a machine that reports the
/// same disk information give the same plan, action for action.
pub proof fn lemma_plan_deterministic(
    s1: DarwinMultiModel,
    s2: DarwinMultiModel,
    info1: Seq<u8>,
    info2: Seq<u8>,
)
    requires
        s1 == s2,
        info1 == info2,
    ensures
        chosen_root_disk(s1, info1) == chosen_root_disk(s2, info2),
        chosen_root_disk(s1, info1) is Some ==> darwin_multi_plan(
            s1,
            chosen_root_disk(s1, info1)->Some_0,
        ) == darwin_multi_plan(s2, chosen_root_disk(s2, info2)->Some_0),
{
}

} // verus!
