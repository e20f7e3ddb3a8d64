use harmonic::action::{ActionKind, ActionState};
use harmonic::planner::{root_disk_from_diskutil, BuiltinPlanner, DarwinMulti, PlannerError};

const DISKUTIL_INFO: &str = r#"<?xml version="1.0" encoding="UTF-8"?>
<!DOCTYPE plist PUBLIC "-//Apple//DTD PLIST 1.0//EN" "http://www.apple.com/DTDs/PropertyList-1.0.dtd">
<plist version="1.0">
<dict>
	<key>DeviceIdentifier</key>
	<string>disk3s1s1</string>
	<key>ParentWholeDisk</key>
	<string>disk3</string>
</dict>
</plist>
"#;

fn settings(root_disk: Option<&str>) -> DarwinMulti {
    DarwinMulti::new(false, "Nix Store".to_string(), root_disk.map(|d| d.to_string()))
}

#[test]
fn plan_yields_four_actions_in_order() {
    let plan = settings(Some("disk1")).plan(&[]).unwrap();
    assert_eq!(plan.actions.len(), 4);
    match &plan.actions[0].kind {
        ActionKind::CreateVolume { disk, label, encrypt } => {
            assert_eq!(disk, "disk1");
            assert_eq!(label, "Nix Store");
            assert!(!encrypt);
        }
        other => panic!("expected CreateVolume first, got {:?}", other),
    }
    assert!(matches!(plan.actions[1].kind, ActionKind::ProvisionSoftware));
    assert!(matches!(plan.actions[2].kind, ActionKind::ConfigureSoftware));
    match &plan.actions[3].kind {
        ActionKind::StartManagedService { service } => {
            assert_eq!(service, "system/org.nixos.nix-daemon")
        }
        other => panic!("expected StartManagedService last, got {:?}", other),
    }
    for a in &plan.actions {
        assert_eq!(a.state, ActionState::Uncompleted);
    }
    let BuiltinPlanner::DarwinMulti(p) = &plan.planner;
    assert_eq!(p.root_disk().as_deref(), Some("disk1"));
}

#[test]
fn plan_is_deterministic() {
    let a = settings(Some("disk1")).plan(&[]).unwrap();
    let b = settings(Some("disk1")).plan(&[]).unwrap();
    assert_eq!(format!("{:?}", a), format!("{:?}", b));
    let c = settings(None).plan(DISKUTIL_INFO.as_bytes()).unwrap();
    let d = settings(None).plan(DISKUTIL_INFO.as_bytes()).unwrap();
    assert_eq!(format!("{:?}", c), format!("{:?}", d));
}

#[test]
fn plan_uses_settings_for_volume() {
    let plan = DarwinMulti::new(true, "Store".to_string(), Some("disk7".to_string()))
        .plan(DISKUTIL_INFO.as_bytes())
        .unwrap();
    match &plan.actions[0].kind {
        ActionKind::CreateVolume { disk, label, encrypt } => {
            assert_eq!(disk, "disk7");
            assert_eq!(label, "Store");
            assert!(*encrypt);
        }
        other => panic!("expected CreateVolume, got {:?}", other),
    }
}

#[test]
fn plan_probes_root_disk_when_unset() {
    let plan = settings(None).plan(DISKUTIL_INFO.as_bytes()).unwrap();
    match &plan.actions[0].kind {
        ActionKind::CreateVolume { disk, .. } => assert_eq!(disk, "disk3"),
        other => panic!("expected CreateVolume, got {:?}", other),
    }
}

#[test]
fn plan_without_any_root_disk_fails() {
    let r = settings(None).plan(b"not a property list");
    assert_eq!(r.unwrap_err(), PlannerError::RootDiskUndetermined);
}

#[test]
fn root_disk_read_from_diskutil_output() {
    assert_eq!(root_disk_from_diskutil(DISKUTIL_INFO.as_bytes()).unwrap(), "disk3");
}

#[test]
fn root_disk_missing_key_is_an_error() {
    let doc = r#"<?xml version="1.0" encoding="UTF-8"?>
<plist version="1.0"><dict><key>DeviceIdentifier</key><string>disk3</string></dict></plist>"#;
    assert_eq!(
        root_disk_from_diskutil(doc.as_bytes()).unwrap_err(),
        PlannerError::RootDiskUndetermined
    );
    assert_eq!(
        root_disk_from_diskutil(b"").unwrap_err(),
        PlannerError::RootDiskUndetermined
    );
}

#[test]
fn default_settings_from_diskutil() {
    let d = DarwinMulti::default(DISKUTIL_INFO.as_bytes()).unwrap();
    assert!(!d.volume_encrypt());
    assert_eq!(d.volume_label(), "Nix Store");
    assert_eq!(d.root_disk().as_deref(), Some("disk3"));
    assert_eq!(
        DarwinMulti::default(b"garbage").unwrap_err(),
        PlannerError::RootDiskUndetermined
    );
}

#[test]
fn planner_identity() {
    assert_eq!(DarwinMulti::SLUG, "darwin-multi");
    assert_eq!(DarwinMulti::DISPLAY_STRING, "Darwin Multi-User");
    let BuiltinPlanner::DarwinMulti(d) = DarwinMulti::default_on_disk("disk2".to_string()).into_planner();
    assert_eq!(d.root_disk().as_deref(), Some("disk2"));
    let BuiltinPlanner::DarwinMulti(e) = BuiltinPlanner::from(settings(Some("disk5")));
    assert_eq!(e.root_disk().as_deref(), Some("disk5"));
}
