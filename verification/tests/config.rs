use pencil::errors::PencilError;
use pencil::state::AssetWhitelist;
use pencil::state::SystemConfig;
use pencil::system_config::AdminRole;
use pencil::system_config::FeeType;
use pencil::system_config::initialize_system_config;
use pencil::system_config::pause_system;
use pencil::system_config::set_asset_supported;
use pencil::system_config::set_treasury;
use pencil::system_config::unpause_system;
use pencil::system_config::update_admin;
use pencil::system_config::update_fee_rate;

fn config() -> SystemConfig {
    initialize_system_config(1, 2, 200, 300, 500, 400, 2000).unwrap()
}

#[test]
fn init_config_sets_every_field() {
    let c = config();
    assert_eq!(c.super_admin, 1);
    assert_eq!(c.system_admin, 1);
    assert_eq!(c.treasury_admin, 1);
    assert_eq!(c.operation_admin, 1);
    assert_eq!(c.treasury, 2);
    assert_eq!(c.platform_fee_rate, 200);
    assert_eq!(c.senior_early_before_exit_fee_rate, 300);
    assert_eq!(c.senior_early_after_exit_fee_rate, 500);
    assert_eq!(c.junior_early_before_exit_fee_rate, 400);
    assert_eq!(c.default_min_junior_ratio, 2000);
    assert!(!c.paused);
    assert!(c.initialized);
}

#[test]
fn init_config_rejects_rates_over_caps() {
    assert_eq!(
        initialize_system_config(1, 2, 5001, 300, 500, 400, 2000),
        Err(PencilError::InvalidPlatformFee)
    );
    assert_eq!(
        initialize_system_config(1, 2, 200, 2001, 500, 400, 2000),
        Err(PencilError::InvalidEarlyExitFee)
    );
    assert_eq!(
        initialize_system_config(1, 2, 200, 300, 2001, 400, 2000),
        Err(PencilError::InvalidEarlyExitFee)
    );
    assert_eq!(
        initialize_system_config(1, 2, 200, 300, 500, 2001, 2000),
        Err(PencilError::InvalidEarlyExitFee)
    );
    assert_eq!(
        initialize_system_config(1, 2, 200, 300, 500, 400, 499),
        Err(PencilError::InvalidMinJuniorRatio)
    );
    assert_eq!(
        initialize_system_config(1, 2, 200, 300, 500, 400, 5001),
        Err(PencilError::InvalidMinJuniorRatio)
    );
}

#[test]
fn update_admin_changes_one_role() {
    let mut c = config();
    let ev = update_admin(&mut c, 1, AdminRole::SystemAdmin, 42, 77).unwrap();
    assert_eq!(c.system_admin, 42);
    assert_eq!(c.super_admin, 1);
    assert_eq!(ev.role, 1);
    assert_eq!(ev.old_admin, 1);
    assert_eq!(ev.new_admin, 42);
    assert_eq!(ev.timestamp, 77);
    let ev = update_admin(&mut c, 1, AdminRole::SuperAdmin, 9, 78).unwrap();
    assert_eq!(ev.role, 0);
    assert_eq!(c.super_admin, 9);
    // the old super admin lost the role
    assert_eq!(
        update_admin(&mut c, 1, AdminRole::TreasuryAdmin, 3, 79),
        Err(PencilError::Unauthorized)
    );
}

#[test]
fn pause_and_unpause_are_super_admin_only() {
    let mut c = config();
    assert_eq!(pause_system(&mut c, 5, 10), Err(PencilError::Unauthorized));
    assert!(!c.paused);
    let ev = pause_system(&mut c, 1, 10).unwrap();
    assert!(c.paused);
    assert_eq!(ev.timestamp, 10);
    assert_eq!(unpause_system(&mut c, 5, 11), Err(PencilError::Unauthorized));
    let ev = unpause_system(&mut c, 1, 11).unwrap();
    assert!(!c.paused);
    assert_eq!(ev.timestamp, 11);
}

#[test]
fn update_fee_rate_respects_caps_and_roles() {
    let mut c = config();
    assert_eq!(
        update_fee_rate(&mut c, 3, FeeType::PlatformFee, 100, 5),
        Err(PencilError::Unauthorized)
    );
    assert_eq!(
        update_fee_rate(&mut c, 1, FeeType::PlatformFee, 5001, 5),
        Err(PencilError::InvalidPlatformFee)
    );
    assert_eq!(
        update_fee_rate(&mut c, 1, FeeType::SeniorEarlyAfterExitFee, 2001, 5),
        Err(PencilError::InvalidEarlyExitFee)
    );
    let ev = update_fee_rate(&mut c, 1, FeeType::PlatformFee, 100, 5).unwrap();
    assert_eq!(c.platform_fee_rate, 100);
    assert_eq!((ev.fee_type, ev.old_rate, ev.new_rate), (0, 200, 100));
    let ev = update_fee_rate(&mut c, 1, FeeType::SeniorEarlyBeforeExitFee, 150, 6).unwrap();
    assert_eq!(c.senior_early_before_exit_fee_rate, 150);
    assert_eq!(ev.fee_type, 1);
    let ev = update_fee_rate(&mut c, 1, FeeType::SeniorEarlyAfterExitFee, 250, 7).unwrap();
    assert_eq!(c.senior_early_after_exit_fee_rate, 250);
    assert_eq!(ev.fee_type, 2);
    let ev = update_fee_rate(&mut c, 1, FeeType::JuniorEarlyBeforeExitFee, 350, 8).unwrap();
    assert_eq!(c.junior_early_before_exit_fee_rate, 350);
    assert_eq!(ev.fee_type, 3);
}

#[test]
fn set_treasury_replaces_the_target() {
    let mut c = config();
    assert_eq!(set_treasury(&mut c, 4, 9), Err(PencilError::Unauthorized));
    set_treasury(&mut c, 1, 9).unwrap();
    assert_eq!(c.treasury, 9);
}

#[test]
fn whitelist_add_and_remove() {
    let c = config();
    let mut wl = AssetWhitelist { system_config: 0, assets: vec![] };
    assert_eq!(
        set_asset_supported(&c, 99, &mut wl, 8, 7, true, 1),
        Err(PencilError::Unauthorized)
    );
    let ev = set_asset_supported(&c, 99, &mut wl, 1, 7, true, 1).unwrap();
    assert_eq!(wl.assets, vec![7]);
    assert_eq!(wl.system_config, 99);
    assert!(ev.supported);
    // adding again changes nothing
    set_asset_supported(&c, 99, &mut wl, 1, 7, true, 2).unwrap();
    assert_eq!(wl.assets, vec![7]);
    set_asset_supported(&c, 99, &mut wl, 1, 8, true, 3).unwrap();
    assert_eq!(wl.assets, vec![7, 8]);
    // removing an absent asset changes nothing
    set_asset_supported(&c, 99, &mut wl, 1, 9, false, 4).unwrap();
    assert_eq!(wl.assets, vec![7, 8]);
    let ev = set_asset_supported(&c, 99, &mut wl, 1, 7, false, 5).unwrap();
    assert_eq!(wl.assets, vec![8]);
    assert!(!ev.supported);
}
