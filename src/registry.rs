use vstd::prelude::*;

use crate::error::ErrorCode;
use crate::identity::Identity;

verus! {

/// Longest registry name, in characters.
pub const MAX_NAME_LEN: usize = 20;

/// Longest registry title, in characters.
pub const MAX_TITLE_LEN: usize = 64;

/// How a deployment charges for quota and for access to metered instances.
#[derive(Clone, Copy, Debug, PartialEq, Eq, Structural)]
pub enum MonetizationPolicy {
    /// Add-ons are free and metered instances expire at a fixed time.
    TimeBoxed,
    /// Add-ons cost `addon_price` and metered instances charge a price per claim.
    Monetized { addon_price: u64 },
}

/// The platform's singleton configuration record.
#[derive(Debug)]
pub struct Config {
    pub initialized: bool,
    pub manager: Identity,
    pub name: String,
    pub title: String,
    /// The id handed to the most recently created instance.
    pub instance_ids: u64,
    /// Quota granted to each newly claimed captainship.
    pub instance_limit: u16,
    /// Quota granted by each add-on.
    pub addon_limit: u16,
    pub policy: MonetizationPolicy,
}

impl Config {
    /// The record as it stands before `init_config`.
    pub fn uninitialized() -> (r: Config)
        ensures
            !r.initialized,
            r.manager.is_zero(),
            r.name@.len() == 0,
            r.title@.len() == 0,
            r.instance_ids == 0,
            r.instance_limit == 0,
            r.addon_limit == 0,
            r.policy == MonetizationPolicy::TimeBoxed,
    {
        Config {
            initialized: false,
            manager: Identity::zero(),
            name: String::new(),
            title: String::new(),
            instance_ids: 0,
            instance_limit: 0,
            addon_limit: 0,
            policy: MonetizationPolicy::TimeBoxed,
        }
    }
}

/// The error `init_config` gives on these arguments, if any.
pub open spec fn init_config_error(config: Config, name: Seq<char>, title: Seq<char>) -> Option<
    ErrorCode,
> {
    if config.initialized {
        Some(ErrorCode::AlreadyInitialized)
    } else if name.len() > MAX_NAME_LEN || title.len() > MAX_TITLE_LEN {
        Some(ErrorCode::LimitExceeded)
    } else {
        None
    }
}

/// Sets up the registry once: `manager` becomes its manager and the id counter starts at 0.
pub fn init_config(
    config: &mut Config,
    manager: Identity,
    name: String,
    title: String,
    instance_limit: u16,
    addon_limit: u16,
    policy: MonetizationPolicy,
) -> (r: Result<(), ErrorCode>)
    ensures
        match init_config_error(*old(config), name@, title@) {
            Some(e) => r == Err::<(), ErrorCode>(e) && *final(config) == *old(config),
            None => r is Ok && *final(config) == (Config {
                initialized: true,
                manager,
                name,
                title,
                instance_ids: 0,
                instance_limit,
                addon_limit,
                policy,
            }),
        },
{
    if config.initialized {
        return Err(ErrorCode::AlreadyInitialized);
    }
    if name.as_str().unicode_len() > MAX_NAME_LEN || title.as_str().unicode_len() > MAX_TITLE_LEN {
        return Err(ErrorCode::LimitExceeded);
    }
    *config = Config {
        initialized: true,
        manager,
        name,
        title,
        instance_ids: 0,
        instance_limit,
        addon_limit,
        policy,
    };
    Ok(())
}

/// Succeeds exactly when `caller` is the registry's manager.
pub fn is_manager(config: &Config, caller: &Identity) -> (r: Result<(), ErrorCode>)
    ensures
        r == (if config.manager == *caller {
            Ok::<(), ErrorCode>(())
        } else {
            Err(ErrorCode::NotManager)
        }),
{
    if config.manager == *caller {
        Ok(())
    } else {
        Err(ErrorCode::NotManager)
    }
}

/// Hands the manager role to `new_manager`. Naming the current manager again is refused
/// first; a caller other than the manager is then not authorized.
pub fn set_manager(config: &mut Config, caller: Identity, new_manager: Identity) -> (r: Result<
    (),
    ErrorCode,
>)
    ensures
        old(config).manager == new_manager ==> r == Err::<(), ErrorCode>(ErrorCode::ExistingValue),
        old(config).manager != new_manager && old(config).manager != caller ==> r == Err::<
            (),
            ErrorCode,
        >(ErrorCode::NotAuthorized),
        r is Err ==> *final(config) == *old(config),
        r is Ok <==> (old(config).manager != new_manager && old(config).manager == caller),
        r is Ok ==> *final(config) == (Config { manager: new_manager, ..*old(config) }),
{
    if config.manager == new_manager {
        return Err(ErrorCode::ExistingValue);
    }
    if config.manager != caller {
        return Err(ErrorCode::NotAuthorized);
    }
    config.manager = new_manager;
    Ok(())
}

/// Sets the quota that future captainships start with; existing grants keep theirs.
pub fn set_instance_limit(config: &mut Config, caller: Identity, instance_limit: u16) -> (r: Result<
    (),
    ErrorCode,
>)
    ensures
        r is Ok <==> old(config).manager == caller,
        r is Err ==> r == Err::<(), ErrorCode>(ErrorCode::NotManager) && *final(config) == *old(
            config,
        ),
        r is Ok ==> *final(config) == (Config { instance_limit, ..*old(config) }),
{
    is_manager(config, &caller)?;
    config.instance_limit = instance_limit;
    Ok(())
}

/// Sets the quota that future add-ons grant; add-ons already bought keep theirs.
pub fn set_addon_limit(config: &mut Config, caller: Identity, addon_limit: u16) -> (r: Result<
    (),
    ErrorCode,
>)
    ensures
        r is Ok <==> old(config).manager == caller,
        r is Err ==> r == Err::<(), ErrorCode>(ErrorCode::NotManager) && *final(config) == *old(
            config,
        ),
        r is Ok ==> *final(config) == (Config { addon_limit, ..*old(config) }),
{
    is_manager(config, &caller)?;
    config.addon_limit = addon_limit;
    Ok(())
}

/// The error `withdraw_global_treasury` gives on these arguments, if any.
pub open spec fn withdraw_global_error(
    config: Config,
    caller: Identity,
    amount: u64,
    treasury_balance: u64,
) -> Option<ErrorCode> {
    if config.policy == MonetizationPolicy::TimeBoxed {
        Some(ErrorCode::NotAuthorized)
    } else if config.manager != caller {
        Some(ErrorCode::NotManager)
    } else if amount > treasury_balance {
        Some(ErrorCode::InsufficientFunds)
    } else {
        None
    }
}

/// Under a monetized policy the manager takes `amount` out of the platform treasury, which
/// holds `treasury_balance`; the result is what the treasury holds afterwards.
pub fn withdraw_global_treasury(
    config: &Config,
    caller: Identity,
    amount: u64,
    treasury_balance: u64,
) -> (r: Result<u64, ErrorCode>)
    ensures
        r == (match withdraw_global_error(*config, caller, amount, treasury_balance) {
            Some(e) => Err(e),
            None => Ok::<u64, ErrorCode>((treasury_balance - amount) as u64),
        }),
{
    if config.policy == MonetizationPolicy::TimeBoxed {
        return Err(ErrorCode::NotAuthorized);
    }
    is_manager(config, &caller)?;
    if amount > treasury_balance {
        return Err(ErrorCode::InsufficientFunds);
    }
    Ok(treasury_balance - amount)
}

} // verus!
