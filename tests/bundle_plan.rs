use fruitbasket::{BundleStep, FruitError, InstallDir, Trampoline};

fn fruit() -> Trampoline {
    Trampoline::new("Fruit", "fruit_exe", "com.example.fruit")
}

#[test]
fn plan_lays_out_the_bundle() {
    let t = fruit();
    let steps = t.bundle_plan("/tmp", "/build/fruit");
    assert_eq!(steps.len(), 6);
    assert_eq!(steps[0], BundleStep::RemoveDirAll("/tmp/Fruit.app".to_string()));
    assert_eq!(steps[1], BundleStep::CreateDirAll("/tmp/Fruit.app/Contents/MacOS".to_string()));
    assert_eq!(steps[2], BundleStep::CreateDirAll("/tmp/Fruit.app/Contents/Resources".to_string()));
    assert_eq!(
        steps[3],
        BundleStep::Copy {
            from: "/build/fruit".to_string(),
            to: "/tmp/Fruit.app/Contents/MacOS/fruit_exe".to_string(),
        }
    );
    assert_eq!(
        steps[4],
        BundleStep::WriteFile {
            path: "/tmp/Fruit.app/Contents/Info.plist".to_string(),
            contents: t.info_plist(),
        }
    );
    assert_eq!(steps[5], BundleStep::Launch("/tmp/Fruit.app".to_string()));
}

#[test]
fn resources_are_flattened_to_their_file_names() {
    let mut t = fruit();
    t.resource("/assets/img/icon.png");
    t.resources(&vec!["notes.txt", "/", "deep/dir/data.bin"]);
    let steps = t.bundle_plan("/Applications", "/build/fruit");
    let copies: Vec<(String, String)> = steps
        .iter()
        .filter_map(|s| match s {
            BundleStep::Copy { from, to } => Some((from.clone(), to.clone())),
            _ => None,
        })
        .collect();
    assert_eq!(
        copies,
        vec![
            (
                "/build/fruit".to_string(),
                "/Applications/Fruit.app/Contents/MacOS/fruit_exe".to_string()
            ),
            (
                "/assets/img/icon.png".to_string(),
                "/Applications/Fruit.app/Contents/Resources/icon.png".to_string()
            ),
            (
                "notes.txt".to_string(),
                "/Applications/Fruit.app/Contents/Resources/notes.txt".to_string()
            ),
            (
                "deep/dir/data.bin".to_string(),
                "/Applications/Fruit.app/Contents/Resources/data.bin".to_string()
            ),
        ]
    );
}

#[test]
fn icon_resource_lands_in_resources_only_when_declared() {
    let mut with_icon = fruit();
    with_icon.resource("/assets/icon.png");
    let steps = with_icon.bundle_plan("/tmp", "/build/fruit");
    assert!(steps.iter().any(|s| matches!(s, BundleStep::Copy { to, .. } if to.ends_with("Resources/icon.png"))));
    let without = fruit();
    let steps = without.bundle_plan("/tmp", "/build/fruit");
    assert!(!steps.iter().any(|s| matches!(s, BundleStep::Copy { to, .. } if to.ends_with("icon.png"))));
}

#[test]
fn second_install_starts_from_a_clean_directory() {
    let mut first = fruit();
    first.resource("/assets/old.png");
    let mut second = fruit();
    second.resource("/assets/new.png");
    let steps1 = first.bundle_plan("/tmp", "/build/fruit");
    let steps2 = second.bundle_plan("/tmp", "/build/fruit");
    assert_eq!(steps1[0], steps2[0]);
    assert_eq!(steps2[0], BundleStep::RemoveDirAll("/tmp/Fruit.app".to_string()));
    for s in &steps2 {
        if let BundleStep::Copy { to, .. } = s {
            assert!(!to.ends_with("old.png"));
        }
    }
}

#[test]
fn bundled_process_goes_on() {
    let t = fruit();
    let r = t.self_bundle(Some("com.example.fruit"), &InstallDir::Temp, "/tmp", Some("/home/u"), "/build/fruit");
    assert_eq!(r, Ok(None));
}

#[test]
fn unbundled_process_gets_steps_in_each_install_dir() {
    let t = fruit();
    let cases = vec![
        (InstallDir::Temp, "/var/tmp/Fruit.app"),
        (InstallDir::SystemApplications, "/Applications/Fruit.app"),
        (InstallDir::UserApplications, "/home/u/Applications/Fruit.app"),
        (InstallDir::Custom("/opt/apps".to_string()), "/opt/apps/Fruit.app"),
    ];
    for (dir, bundle) in cases {
        let r = t.self_bundle(None, &dir, "/var/tmp", Some("/home/u"), "/build/fruit");
        let steps = r.unwrap().unwrap();
        assert_eq!(steps[0], BundleStep::RemoveDirAll(bundle.to_string()));
        assert_eq!(*steps.last().unwrap(), BundleStep::Launch(bundle.to_string()));
    }
    let empty_ident = t.self_bundle(Some(""), &InstallDir::Temp, "/var/tmp", None, "/build/fruit");
    assert!(empty_ident.unwrap().is_some());
}

#[test]
fn user_applications_without_home_is_general_error() {
    let t = fruit();
    let r = t.self_bundle(None, &InstallDir::UserApplications, "/tmp", None, "/build/fruit");
    assert!(matches!(r, Err(FruitError::GeneralError(_))));
}

#[test]
fn bundled_detection() {
    assert!(Trampoline::is_bundled(Some("com.example.fruit")));
    assert!(!Trampoline::is_bundled(Some("")));
    assert!(!Trampoline::is_bundled(None));
}

#[test]
fn install_dir_resolution() {
    assert_eq!(InstallDir::Temp.resolve("/t", None), Ok("/t".to_string()));
    assert_eq!(InstallDir::SystemApplications.resolve("/t", None), Ok("/Applications".to_string()));
    assert_eq!(InstallDir::UserApplications.resolve("/t", Some("/Users/me")), Ok("/Users/me/Applications".to_string()));
    assert_eq!(InstallDir::Custom("/x/y".to_string()).resolve("/t", None), Ok("/x/y".to_string()));
}
