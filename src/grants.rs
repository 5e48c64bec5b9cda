use vstd::prelude::*;

use crate::error::ErrorCode;
use crate::identity::Identity;
use crate::registry::{is_manager, Config, MonetizationPolicy};
use crate::requests::{has_request, removes_request, AdminRequestQueue};

verus! {

/// Most instances an admin or a captain may own.
pub const MAX_OWNED_INSTANCES: usize = 200;

/// A manager-approved admin: may create metered instances free of quota while active.
#[derive(Debug)]
pub struct Admin {
    pub active: bool,
    pub wallet: Identity,
    /// Keys of the instances this admin created.
    pub instance_list: Vec<Identity>,
}

/// A self-issued captainship holding a consumable creation quota.
#[derive(Debug)]
pub struct Captain {
    pub wallet: Identity,
    /// Keys of the instances this captain created.
    pub instance_list: Vec<Identity>,
    pub remaining_limit: u16,
    pub addon_count: u16,
}

/// The record of one add-on purchase, fixed at the time it was bought.
#[derive(Clone, Copy, Debug, PartialEq, Eq)]
pub struct AddOn {
    pub captain: Identity,
    /// Quota this add-on granted.
    pub limit: u16,
    /// What it cost.
    pub price: u64,
}

/// An owned-instance list within its bound, with no key twice.
pub open spec fn owned_list_wf(list: Seq<Identity>) -> bool {
    list.len() <= MAX_OWNED_INSTANCES && list.no_duplicates()
}

impl Admin {
    pub open spec fn wf(&self) -> bool {
        owned_list_wf(self.instance_list@)
    }
}

impl Captain {
    pub open spec fn wf(&self) -> bool {
        owned_list_wf(self.instance_list@)
    }
}

/// What a purchase of an add-on costs under `policy`.
pub open spec fn addon_price(policy: MonetizationPolicy) -> u64 {
    match policy {
        MonetizationPolicy::TimeBoxed => 0,
        MonetizationPolicy::Monetized { addon_price } => addon_price,
    }
}

/// Approves `wallet` as an admin, whether or not it had filed a request.
/// Its pending request, if any, leaves the queue; the new grant is active and owns nothing.
pub fn approve_admin(
    config: &Config,
    queue: &mut AdminRequestQueue,
    caller: Identity,
    wallet: Identity,
) -> (r: Result<Admin, ErrorCode>)
    requires
        old(queue).wf(),
    ensures
        final(queue).wf(),
        r is Ok <==> config.manager == caller,
        r is Err ==> r == Err::<Admin, ErrorCode>(ErrorCode::NotManager) && *final(queue) == *old(
            queue,
        ),
        r matches Ok(admin) ==> {
            &&& admin.active
            &&& admin.wallet == wallet
            &&& admin.instance_list@.len() == 0
            &&& admin.wf()
            &&& removes_request(old(queue).requests@, final(queue).requests@, wallet)
            &&& !has_request(final(queue).requests@, wallet)
        },
{
    is_manager(config, &caller)?;
    let ghost before = queue.requests@;
    let _ = queue.take(&wallet);
    proof {
        if has_request(before, wallet) {
            let p = choose|p: int|
                0 <= p < before.len() && #[trigger] before[p].wallet == wallet
                    && queue.requests@ == before.remove(p);
            assert forall|i: int| 0 <= i < queue.requests@.len() implies #[trigger] queue.requests@[
                i
            ].wallet != wallet by {
                let k = if i < p { i } else { i + 1 };
                assert(queue.requests@[i] == before[k]);
            }
        }
    }
    Ok(Admin { active: true, wallet, instance_list: Vec::new() })
}

/// Turns an admin's grant on or off; the instances it owns stay recorded.
pub fn set_admin_status(config: &Config, admin: &mut Admin, caller: Identity, status: bool) -> (r:
    Result<(), ErrorCode>)
    ensures
        r is Ok <==> config.manager == caller,
        r is Err ==> r == Err::<(), ErrorCode>(ErrorCode::NotManager) && *final(admin) == *old(
            admin,
        ),
        r is Ok ==> *final(admin) == (Admin { active: status, ..*old(admin) }),
{
    is_manager(config, &caller)?;
    admin.active = status;
    Ok(())
}

/// Issues `caller` a captainship holding the registry's current instance quota.
pub fn claim_captainship(config: &Config, caller: Identity) -> (r: Captain)
    ensures
        r.wallet == caller,
        r.instance_list@.len() == 0,
        r.remaining_limit == config.instance_limit,
        r.addon_count == 0,
        r.wf(),
{
    Captain {
        wallet: caller,
        instance_list: Vec::new(),
        remaining_limit: config.instance_limit,
        addon_count: 0,
    }
}

/// The captainship after one add-on: quota raised by the registry's add-on limit and the
/// add-on count by one, both saturating.
pub open spec fn after_addon(config: Config, captain: Captain) -> Captain {
    Captain {
        remaining_limit: captain.remaining_limit.saturating_add(config.addon_limit),
        addon_count: captain.addon_count.saturating_add(1),
        ..captain
    }
}

/// The error `claim_addon` gives on these arguments, if any.
pub open spec fn claim_addon_error(
    config: Config,
    captain: Captain,
    caller: Identity,
    balance: u64,
) -> Option<ErrorCode> {
    if captain.wallet != caller {
        Some(ErrorCode::NotAuthorized)
    } else if balance < addon_price(config.policy) {
        Some(ErrorCode::InsufficientFunds)
    } else {
        None
    }
}

/// Buys an add-on for `caller`'s captainship: its quota grows by the registry's add-on limit
/// (saturating) and its add-on count by one. Under a monetized policy the payer's `balance`
/// must cover the add-on price, which the returned record says to charge.
pub fn claim_addon(config: &Config, captain: &mut Captain, caller: Identity, balance: u64) -> (r:
    Result<AddOn, ErrorCode>)
    ensures
        match claim_addon_error(*config, *old(captain), caller, balance) {
            Some(e) => r == Err::<AddOn, ErrorCode>(e) && *final(captain) == *old(captain),
            None => {
                &&& r == Ok::<AddOn, ErrorCode>(
                    AddOn {
                        captain: caller,
                        limit: config.addon_limit,
                        price: addon_price(config.policy),
                    },
                )
                &&& *final(captain) == after_addon(*config, *old(captain))
            },
        },
{
    if captain.wallet != caller {
        return Err(ErrorCode::NotAuthorized);
    }
    let price: u64 = match config.policy {
        MonetizationPolicy::TimeBoxed => 0,
        MonetizationPolicy::Monetized { addon_price } => addon_price,
    };
    if balance < price {
        return Err(ErrorCode::InsufficientFunds);
    }
    captain.remaining_limit = captain.remaining_limit.saturating_add(config.addon_limit);
    captain.addon_count = captain.addon_count.saturating_add(1);
    Ok(AddOn { captain: caller, limit: config.addon_limit, price })
}

} // verus!
