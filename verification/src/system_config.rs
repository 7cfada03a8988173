//! Global configuration management: initialization, admin roles, the
//! system-wide pause flag, fee-rate updates, the treasury and the asset
//! whitelist.

use vstd::prelude::*;

use crate::constants::MAX_EARLY_EXIT_FEE;
use crate::constants::MAX_JUNIOR_RATIO;
use crate::constants::MAX_PLATFORM_FEE;
use crate::constants::MIN_JUNIOR_RATIO;
use crate::errors::PencilError;
use crate::state::AssetWhitelist;
use crate::state::SystemConfig;

verus! {

/// The four administrative roles of the system.
#[derive(Clone, Copy, Debug, PartialEq, Eq, Structural)]
pub enum AdminRole {
    SuperAdmin,
    SystemAdmin,
    TreasuryAdmin,
    OperationAdmin,
}

/// The four configurable fee rates.
#[derive(Clone, Copy, Debug, PartialEq, Eq, Structural)]
pub enum FeeType {
    PlatformFee,
    SeniorEarlyBeforeExitFee,
    SeniorEarlyAfterExitFee,
    JuniorEarlyBeforeExitFee,
}

/// Notification of a completed admin change.
#[derive(Clone, Copy, Debug, PartialEq, Eq)]
pub struct AdminUpdated {
    pub role: u8,
    pub old_admin: u64,
    pub new_admin: u64,
    pub timestamp: i64,
}

/// Notification that the system was paused.
#[derive(Clone, Copy, Debug, PartialEq, Eq)]
pub struct SystemPaused {
    pub timestamp: i64,
}

/// Notification that the system was unpaused.
#[derive(Clone, Copy, Debug, PartialEq, Eq)]
pub struct SystemUnpaused {
    pub timestamp: i64,
}

/// Notification of a completed fee-rate change.
#[derive(Clone, Copy, Debug, PartialEq, Eq)]
pub struct FeeRateUpdated {
    pub fee_type: u8,
    pub old_rate: u16,
    pub new_rate: u16,
    pub timestamp: i64,
}

/// Notification of a whitelist change.
#[derive(Clone, Copy, Debug, PartialEq, Eq)]
pub struct AssetSupportUpdated {
    pub asset: u64,
    pub supported: bool,
    pub timestamp: i64,
}

/// Which error, if any, rejects these configuration parameters.
pub open spec fn config_params_check(
    platform_fee_rate: u16,
    senior_early_before_exit_fee_rate: u16,
    senior_early_after_exit_fee_rate: u16,
    junior_early_before_exit_fee_rate: u16,
    default_min_junior_ratio: u16,
) -> Option<PencilError> {
    if platform_fee_rate > MAX_PLATFORM_FEE {
        Some(PencilError::InvalidPlatformFee)
    } else if senior_early_before_exit_fee_rate > MAX_EARLY_EXIT_FEE {
        Some(PencilError::InvalidEarlyExitFee)
    } else if senior_early_after_exit_fee_rate > MAX_EARLY_EXIT_FEE {
        Some(PencilError::InvalidEarlyExitFee)
    } else if junior_early_before_exit_fee_rate > MAX_EARLY_EXIT_FEE {
        Some(PencilError::InvalidEarlyExitFee)
    } else if default_min_junior_ratio < MIN_JUNIOR_RATIO || default_min_junior_ratio
        > MAX_JUNIOR_RATIO {
        Some(PencilError::InvalidMinJuniorRatio)
    } else {
        None
    }
}

/// Builds the configuration singleton. The payer becomes every admin; all
/// rates are validated against their caps.
pub fn initialize_system_config(
    payer: u64,
    treasury: u64,
    platform_fee_rate: u16,
    senior_early_before_exit_fee_rate: u16,
    senior_early_after_exit_fee_rate: u16,
    junior_early_before_exit_fee_rate: u16,
    default_min_junior_ratio: u16,
) -> (r: Result<SystemConfig, PencilError>)
    ensures
        ({
            let check = config_params_check(
                platform_fee_rate,
                senior_early_before_exit_fee_rate,
                senior_early_after_exit_fee_rate,
                junior_early_before_exit_fee_rate,
                default_min_junior_ratio,
            );
            match check {
                Some(e) => r == Err::<SystemConfig, PencilError>(e),
                None => r == Ok::<SystemConfig, PencilError>(
                    SystemConfig {
                        super_admin: payer,
                        system_admin: payer,
                        treasury_admin: payer,
                        operation_admin: payer,
                        treasury,
                        platform_fee_rate,
                        senior_early_before_exit_fee_rate,
                        senior_early_after_exit_fee_rate,
                        junior_early_before_exit_fee_rate,
                        default_min_junior_ratio,
                        paused: false,
                        initialized: true,
                    },
                ),
            }
        }),
        r is Ok ==> r->Ok_0.wf(),
{
    if platform_fee_rate > MAX_PLATFORM_FEE {
        return Err(PencilError::InvalidPlatformFee);
    }
    if senior_early_before_exit_fee_rate > MAX_EARLY_EXIT_FEE {
        return Err(PencilError::InvalidEarlyExitFee);
    }
    if senior_early_after_exit_fee_rate > MAX_EARLY_EXIT_FEE {
        return Err(PencilError::InvalidEarlyExitFee);
    }
    if junior_early_before_exit_fee_rate > MAX_EARLY_EXIT_FEE {
        return Err(PencilError::InvalidEarlyExitFee);
    }
    if default_min_junior_ratio < MIN_JUNIOR_RATIO || default_min_junior_ratio > MAX_JUNIOR_RATIO {
        return Err(PencilError::InvalidMinJuniorRatio);
    }
    Ok(
        SystemConfig {
            super_admin: payer,
            system_admin: payer,
            treasury_admin: payer,
            operation_admin: payer,
            treasury,
            platform_fee_rate,
            senior_early_before_exit_fee_rate,
            senior_early_after_exit_fee_rate,
            junior_early_before_exit_fee_rate,
            default_min_junior_ratio,
            paused: false,
            initialized: true,
        },
    )
}

/// Reassigns one admin role. Only the super admin may do so.
pub fn update_admin(
    config: &mut SystemConfig,
    actor: u64,
    role: AdminRole,
    new_admin: u64,
    now: i64,
) -> (r: Result<AdminUpdated, PencilError>)
    ensures
        actor != old(config).super_admin ==> r == Err::<AdminUpdated, PencilError>(
            PencilError::Unauthorized,
        ) && *final(config) == *old(config),
        actor == old(config).super_admin ==> match role {
            AdminRole::SuperAdmin => *final(config) == (SystemConfig {
                super_admin: new_admin,
                ..*old(config)
            }) && r == Ok::<AdminUpdated, PencilError>(
                AdminUpdated {
                    role: 0u8,
                    old_admin: old(config).super_admin,
                    new_admin,
                    timestamp: now,
                },
            ),
            AdminRole::SystemAdmin => *final(config) == (SystemConfig {
                system_admin: new_admin,
                ..*old(config)
            }) && r == Ok::<AdminUpdated, PencilError>(
                AdminUpdated {
                    role: 1u8,
                    old_admin: old(config).system_admin,
                    new_admin,
                    timestamp: now,
                },
            ),
            AdminRole::TreasuryAdmin => *final(config) == (SystemConfig {
                treasury_admin: new_admin,
                ..*old(config)
            }) && r == Ok::<AdminUpdated, PencilError>(
                AdminUpdated {
                    role: 2u8,
                    old_admin: old(config).treasury_admin,
                    new_admin,
                    timestamp: now,
                },
            ),
            AdminRole::OperationAdmin => *final(config) == (SystemConfig {
                operation_admin: new_admin,
                ..*old(config)
            }) && r == Ok::<AdminUpdated, PencilError>(
                AdminUpdated {
                    role: 3u8,
                    old_admin: old(config).operation_admin,
                    new_admin,
                    timestamp: now,
                },
            ),
        },
        old(config).wf() ==> final(config).wf(),
{
    if actor != config.super_admin {
        return Err(PencilError::Unauthorized);
    }
    match role {
        AdminRole::SuperAdmin => {
            let old_admin: u64 = config.super_admin;
            config.super_admin = new_admin;
            Ok(AdminUpdated { role: 0u8, old_admin, new_admin, timestamp: now })
        },
        AdminRole::SystemAdmin => {
            let old_admin: u64 = config.system_admin;
            config.system_admin = new_admin;
            Ok(AdminUpdated { role: 1u8, old_admin, new_admin, timestamp: now })
        },
        AdminRole::TreasuryAdmin => {
            let old_admin: u64 = config.treasury_admin;
            config.treasury_admin = new_admin;
            Ok(AdminUpdated { role: 2u8, old_admin, new_admin, timestamp: now })
        },
        AdminRole::OperationAdmin => {
            let old_admin: u64 = config.operation_admin;
            config.operation_admin = new_admin;
            Ok(AdminUpdated { role: 3u8, old_admin, new_admin, timestamp: now })
        },
    }
}

/// Pauses the whole system. Only the super admin may do so.
pub fn pause_system(config: &mut SystemConfig, actor: u64, now: i64) -> (r: Result<
    SystemPaused,
    PencilError,
>)
    ensures
        actor != old(config).super_admin ==> r == Err::<SystemPaused, PencilError>(
            PencilError::Unauthorized,
        ) && *final(config) == *old(config),
        actor == old(config).super_admin ==> *final(config) == (SystemConfig {
            paused: true,
            ..*old(config)
        }) && r == Ok::<SystemPaused, PencilError>(SystemPaused { timestamp: now }),
        old(config).wf() ==> final(config).wf(),
{
    if actor != config.super_admin {
        return Err(PencilError::Unauthorized);
    }
    config.paused = true;
    Ok(SystemPaused { timestamp: now })
}

/// Unpauses the whole system. Only the super admin may do so.
pub fn unpause_system(config: &mut SystemConfig, actor: u64, now: i64) -> (r: Result<
    SystemUnpaused,
    PencilError,
>)
    ensures
        actor != old(config).super_admin ==> r == Err::<SystemUnpaused, PencilError>(
            PencilError::Unauthorized,
        ) && *final(config) == *old(config),
        actor == old(config).super_admin ==> *final(config) == (SystemConfig {
            paused: false,
            ..*old(config)
        }) && r == Ok::<SystemUnpaused, PencilError>(SystemUnpaused { timestamp: now }),
        old(config).wf() ==> final(config).wf(),
{
    if actor != config.super_admin {
        return Err(PencilError::Unauthorized);
    }
    config.paused = false;
    Ok(SystemUnpaused { timestamp: now })
}

/// Which error, if any, rejects a fee-rate update.
pub open spec fn fee_rate_check(fee_type: FeeType, new_rate: u16) -> Option<PencilError> {
    match fee_type {
        FeeType::PlatformFee => if new_rate > MAX_PLATFORM_FEE {
            Some(PencilError::InvalidPlatformFee)
        } else {
            None
        },
        _ => if new_rate > MAX_EARLY_EXIT_FEE {
            Some(PencilError::InvalidEarlyExitFee)
        } else {
            None
        },
    }
}

/// The configuration after one fee rate is replaced.
pub open spec fn with_fee_rate(config: SystemConfig, fee_type: FeeType, new_rate: u16) -> SystemConfig {
    match fee_type {
        FeeType::PlatformFee => SystemConfig { platform_fee_rate: new_rate, ..config },
        FeeType::SeniorEarlyBeforeExitFee => SystemConfig {
            senior_early_before_exit_fee_rate: new_rate,
            ..config
        },
        FeeType::SeniorEarlyAfterExitFee => SystemConfig {
            senior_early_after_exit_fee_rate: new_rate,
            ..config
        },
        FeeType::JuniorEarlyBeforeExitFee => SystemConfig {
            junior_early_before_exit_fee_rate: new_rate,
            ..config
        },
    }
}

/// The rate a configuration holds for one fee type.
pub open spec fn rate_of(config: SystemConfig, fee_type: FeeType) -> u16 {
    match fee_type {
        FeeType::PlatformFee => config.platform_fee_rate,
        FeeType::SeniorEarlyBeforeExitFee => config.senior_early_before_exit_fee_rate,
        FeeType::SeniorEarlyAfterExitFee => config.senior_early_after_exit_fee_rate,
        FeeType::JuniorEarlyBeforeExitFee => config.junior_early_before_exit_fee_rate,
    }
}

/// The wire code of a fee type.
pub open spec fn fee_type_code(fee_type: FeeType) -> u8 {
    match fee_type {
        FeeType::PlatformFee => 0u8,
        FeeType::SeniorEarlyBeforeExitFee => 1u8,
        FeeType::SeniorEarlyAfterExitFee => 2u8,
        FeeType::JuniorEarlyBeforeExitFee => 3u8,
    }
}

/// Replaces one fee rate, validated against its cap. Only the system admin
/// may do so.
pub fn update_fee_rate(
    config: &mut SystemConfig,
    actor: u64,
    fee_type: FeeType,
    new_rate: u16,
    now: i64,
) -> (r: Result<FeeRateUpdated, PencilError>)
    ensures
        actor != old(config).system_admin ==> r == Err::<FeeRateUpdated, PencilError>(
            PencilError::Unauthorized,
        ) && *final(config) == *old(config),
        actor == old(config).system_admin ==> match fee_rate_check(fee_type, new_rate) {
            Some(e) => r == Err::<FeeRateUpdated, PencilError>(e) && *final(config) == *old(config),
            None => *final(config) == with_fee_rate(*old(config), fee_type, new_rate) && r
                == Ok::<FeeRateUpdated, PencilError>(
                FeeRateUpdated {
                    fee_type: fee_type_code(fee_type),
                    old_rate: rate_of(*old(config), fee_type),
                    new_rate,
                    timestamp: now,
                },
            ),
        },
        old(config).wf() ==> final(config).wf(),
{
    if actor != config.system_admin {
        return Err(PencilError::Unauthorized);
    }
    match fee_type {
        FeeType::PlatformFee => {
            if new_rate > MAX_PLATFORM_FEE {
                return Err(PencilError::InvalidPlatformFee);
            }
            let old_rate: u16 = config.platform_fee_rate;
            config.platform_fee_rate = new_rate;
            Ok(FeeRateUpdated { fee_type: 0u8, old_rate, new_rate, timestamp: now })
        },
        FeeType::SeniorEarlyBeforeExitFee => {
            if new_rate > MAX_EARLY_EXIT_FEE {
                return Err(PencilError::InvalidEarlyExitFee);
            }
            let old_rate: u16 = config.senior_early_before_exit_fee_rate;
            config.senior_early_before_exit_fee_rate = new_rate;
            Ok(FeeRateUpdated { fee_type: 1u8, old_rate, new_rate, timestamp: now })
        },
        FeeType::SeniorEarlyAfterExitFee => {
            if new_rate > MAX_EARLY_EXIT_FEE {
                return Err(PencilError::InvalidEarlyExitFee);
            }
            let old_rate: u16 = config.senior_early_after_exit_fee_rate;
            config.senior_early_after_exit_fee_rate = new_rate;
            Ok(FeeRateUpdated { fee_type: 2u8, old_rate, new_rate, timestamp: now })
        },
        FeeType::JuniorEarlyBeforeExitFee => {
            if new_rate > MAX_EARLY_EXIT_FEE {
                return Err(PencilError::InvalidEarlyExitFee);
            }
            let old_rate: u16 = config.junior_early_before_exit_fee_rate;
            config.junior_early_before_exit_fee_rate = new_rate;
            Ok(FeeRateUpdated { fee_type: 3u8, old_rate, new_rate, timestamp: now })
        },
    }
}

/// Points the system at a new treasury. Only the system admin may do so.
pub fn set_treasury(config: &mut SystemConfig, actor: u64, treasury: u64) -> (r: Result<
    (),
    PencilError,
>)
    ensures
        actor != old(config).system_admin ==> r == Err::<(), PencilError>(
            PencilError::Unauthorized,
        ) && *final(config) == *old(config),
        actor == old(config).system_admin ==> *final(config) == (SystemConfig {
            treasury,
            ..*old(config)
        }) && r == Ok::<(), PencilError>(()),
        old(config).wf() ==> final(config).wf(),
{
    if actor != config.system_admin {
        return Err(PencilError::Unauthorized);
    }
    config.treasury = treasury;
    Ok(())
}

/// Adds an asset to, or removes it from, the whitelist. Only the system
/// admin may do so. Adding an asset already present, or removing one
/// absent, leaves the list unchanged.
pub fn set_asset_supported(
    config: &SystemConfig,
    config_id: u64,
    whitelist: &mut AssetWhitelist,
    actor: u64,
    asset: u64,
    supported: bool,
    now: i64,
) -> (r: Result<AssetSupportUpdated, PencilError>)
    ensures
        actor != config.system_admin ==> r == Err::<AssetSupportUpdated, PencilError>(
            PencilError::Unauthorized,
        ) && *final(whitelist) == *old(whitelist),
        actor == config.system_admin ==> {
            &&& r == Ok::<AssetSupportUpdated, PencilError>(
                AssetSupportUpdated { asset, supported, timestamp: now },
            )
            &&& supported && !old(whitelist).assets@.contains(asset) ==> final(whitelist).assets@ == old(whitelist).assets@.push(asset)
            &&& supported && old(whitelist).assets@.contains(asset) ==> final(whitelist).assets@
                == old(whitelist).assets@
            &&& !supported && !old(whitelist).assets@.contains(asset) ==> final(whitelist).assets@ == old(whitelist).assets@
            &&& !supported && old(whitelist).assets@.contains(asset) ==> exists|i: int|
                0 <= i < old(whitelist).assets@.len() && old(whitelist).assets@[i] == asset && (
                forall|j: int| 0 <= j < i ==> old(whitelist).assets@[j] != asset) && final(whitelist).assets@ == old(whitelist).assets@.remove(i)
            &&& supported ==> final(whitelist).assets@.contains(asset)
            &&& final(whitelist).system_config == (if old(whitelist).assets@.len() == 0 && old(whitelist).system_config == 0 {
                config_id
            } else {
                old(whitelist).system_config
            })
        },
{
    if actor != config.system_admin {
        return Err(PencilError::Unauthorized);
    }
    if whitelist.assets.len() == 0 && whitelist.system_config == 0 {
        whitelist.system_config = config_id;
    }
    let ghost pre: Seq<u64> = whitelist.assets@;
    let mut found: bool = false;
    let mut index: usize = 0;
    let mut i: usize = 0;
    while i < whitelist.assets.len()
        invariant
            0 <= i <= whitelist.assets@.len(),
            whitelist.assets@ == pre,
            !found ==> forall|j: int| 0 <= j < i ==> pre[j] != asset,
            found ==> 0 <= index < i && pre[index as int] == asset && forall|j: int|
                0 <= j < index ==> pre[j] != asset,
        decreases whitelist.assets@.len() - i,
    {
        if !found && whitelist.assets[i] == asset {
            found = true;
            index = i;
        }
        i = i + 1;
    }
    if supported {
        if !found {
            whitelist.assets.push(asset);
            assert(whitelist.assets@.last() == asset);
        } else {
            assert(whitelist.assets@[index as int] == asset);
        }
    } else {
        if found {
            whitelist.assets.remove(index);
        }
    }
    Ok(AssetSupportUpdated { asset, supported, timestamp: now })
}

} // verus!
