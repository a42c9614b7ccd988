use coldloader::config::ColdLoaderConfig;
use coldloader::registry::{
    apply_ops, patch_apply, reconcile_apply, reconcile_plan, RegistryContent, RegistryError,
};

fn sample_content() -> RegistryContent {
    RegistryContent {
        pid: 1,
        client_dll_64: String::from("C:\\old\\client.dll"),
        universe: String::from("beta"),
        steam_path: String::from("C:\\old"),
        running_app_id: 5,
    }
}

fn sample_config() -> ColdLoaderConfig {
    ColdLoaderConfig {
        app_id: 730,
        steamclient64_path: String::from("C:\\games\\app\\steamclient64.dll"),
    }
}

#[test]
fn patch_writes_both_locations() {
    let (c, res) = patch_apply(sample_content(), &sample_config(), 4242, true, true);
    assert!(res.is_ok());
    assert_eq!(c.pid, 4242);
    assert_eq!(c.client_dll_64, "C:\\games\\app\\steamclient64.dll");
    assert_eq!(c.universe, "public");
    assert_eq!(c.steam_path, "C:\\games\\app");
    assert_eq!(c.running_app_id, 730);
}

#[test]
fn patch_writes_nothing_when_first_key_unavailable() {
    let (c, res) = patch_apply(sample_content(), &sample_config(), 4242, false, true);
    assert_eq!(res.unwrap_err(), RegistryError::KeyUnavailable);
    assert_eq!(c.pid, 1);
    assert_eq!(c.client_dll_64, "C:\\old\\client.dll");
    assert_eq!(c.universe, "beta");
    assert_eq!(c.steam_path, "C:\\old");
    assert_eq!(c.running_app_id, 5);
}

#[test]
fn patch_keeps_first_location_when_second_key_unavailable() {
    let (c, res) = patch_apply(sample_content(), &sample_config(), 4242, true, false);
    assert_eq!(res.unwrap_err(), RegistryError::KeyUnavailable);
    assert_eq!(c.pid, 4242);
    assert_eq!(c.client_dll_64, "C:\\games\\app\\steamclient64.dll");
    assert_eq!(c.universe, "public");
    assert_eq!(c.steam_path, "C:\\old");
    assert_eq!(c.running_app_id, 5);
}

#[test]
fn reconcile_restores_true_install_and_is_idempotent() {
    let (patched, _) = patch_apply(sample_content(), &sample_config(), 4242, true, true);
    let install = Some(String::from("C:\\steam"));
    let once = reconcile_apply(patched, &install);
    assert_eq!(once.client_dll_64, "C:\\steam\\steamclient64.dll");
    assert_eq!(once.steam_path, "C:\\steam");
    assert_eq!(once.pid, 4242);
    assert_eq!(once.universe, "public");
    assert_eq!(once.running_app_id, 730);
    let first = (
        once.client_dll_64.clone(),
        once.steam_path.clone(),
        once.pid,
        once.universe.clone(),
        once.running_app_id,
    );
    let twice = reconcile_apply(once, &install);
    let second = (
        twice.client_dll_64.clone(),
        twice.steam_path.clone(),
        twice.pid,
        twice.universe.clone(),
        twice.running_app_id,
    );
    assert_eq!(first, second);
}

#[test]
fn reconcile_without_install_record_changes_nothing() {
    let (patched, _) = patch_apply(sample_content(), &sample_config(), 4242, true, true);
    let after = reconcile_apply(patched, &None);
    assert_eq!(after.pid, 4242);
    assert_eq!(after.client_dll_64, "C:\\games\\app\\steamclient64.dll");
    assert_eq!(after.universe, "public");
    assert_eq!(after.steam_path, "C:\\games\\app");
    assert_eq!(after.running_app_id, 730);
}

#[test]
fn interleaved_reconciles_leave_only_whole_values() {
    let mut plan_one = reconcile_plan(&Some(String::from("C:\\steam"))).into_iter();
    let mut plan_two = reconcile_plan(&Some(String::from("D:\\other"))).into_iter();
    let mut interleaved = Vec::new();
    interleaved.push(plan_one.next().unwrap());
    interleaved.push(plan_two.next().unwrap());
    interleaved.push(plan_two.next().unwrap());
    interleaved.push(plan_one.next().unwrap());
    let r = apply_ops(sample_content(), &interleaved);
    assert_eq!(r.client_dll_64, "D:\\other\\steamclient64.dll");
    assert_eq!(r.steam_path, "C:\\steam");
    assert_eq!(r.pid, 1);
    assert_eq!(r.universe, "beta");
    assert_eq!(r.running_app_id, 5);
}
