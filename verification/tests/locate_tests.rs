use fabrik::errors::FabrikError;
use fabrik::locate::asset_layout;
use fabrik::locate::check_asset_layout;
use fabrik::locate::get_fabrik_assets_path;
use fabrik::locate::resolve_assets_dir;
use fabrik::locate::BuildMode;

#[test]
fn development_mode_walks_three_parents_up() {
    let r = resolve_assets_dir(BuildMode::Development, "/proj/target/debug/app.exe", None);
    assert_eq!(r.ok(), Some("/proj/assets/fabrik".to_string()));
}

#[test]
fn development_mode_fails_on_shallow_path() {
    let r = resolve_assets_dir(BuildMode::Development, "app.exe", None);
    match r {
        Err(FabrikError::PathResolution(m)) => {
            assert_eq!(m, "cannot determine a parent directory of the executable path");
        }
        _ => panic!("expected a path-resolution failure"),
    }
    let two = resolve_assets_dir(BuildMode::Development, "debug/app.exe", None);
    assert!(matches!(two, Err(FabrikError::PathResolution(_))));
}

#[test]
fn packaged_mode_uses_resource_dir() {
    let r = resolve_assets_dir(BuildMode::Packaged, "", Some("/opt/pkg/resources"));
    assert_eq!(r.ok(), Some("/opt/pkg/resources/assets/fabrik".to_string()));
    let none = resolve_assets_dir(BuildMode::Packaged, "", None);
    match none {
        Err(FabrikError::PathResolution(m)) => {
            assert_eq!(m, "no resource directory is available");
        }
        _ => panic!("expected a path-resolution failure"),
    }
}

#[test]
fn layout_appends_scripts_and_actions() {
    let l = asset_layout("/proj/assets/fabrik");
    assert_eq!(l.scripts_dir, "/proj/assets/fabrik/scripts");
    assert_eq!(l.actions_dir, "/proj/assets/fabrik/actions");
}

#[test]
fn missing_scripts_dir_names_its_path() {
    let l = asset_layout("/proj/assets/fabrik");
    let r = check_asset_layout(&l, false, true);
    match r {
        Err(FabrikError::AssetNotFound(m)) => {
            assert_eq!(m, "scripts directory not found: /proj/assets/fabrik/scripts");
        }
        _ => panic!("expected a missing-asset failure"),
    }
}

#[test]
fn missing_actions_dir_names_its_path() {
    let l = asset_layout("/proj/assets/fabrik");
    let r = check_asset_layout(&l, true, false);
    match r {
        Err(FabrikError::AssetNotFound(m)) => {
            assert_eq!(m, "actions directory not found: /proj/assets/fabrik/actions");
        }
        _ => panic!("expected a missing-asset failure"),
    }
}

#[test]
fn present_directories_pass_the_check() {
    let l = asset_layout("/proj/assets/fabrik");
    assert!(check_asset_layout(&l, true, true).is_ok());
}

#[test]
fn assets_path_command_mirrors_resource_dir() {
    let ok = get_fabrik_assets_path(Some("/opt/pkg/resources"));
    assert_eq!(ok.ok(), Some("/opt/pkg/resources/assets/fabrik".to_string()));
    let err = get_fabrik_assets_path(None);
    assert!(matches!(err, Err(FabrikError::PathResolution(_))));
}
