use vstd::prelude::*;

use crate::error::ErrorCode;
use crate::grants::{owned_list_wf, Admin, Captain, MAX_OWNED_INSTANCES};
use crate::identity::{all_distinct, contains_identity, Identity};
use crate::registry::{is_manager, Config, MonetizationPolicy};

verus! {

/// Most members of an instance's consumer list, and of its whitelist.
pub const MAX_MEMBERS: usize = 200;

/// Longest instance name, in characters.
pub const MAX_INSTANCE_NAME_LEN: usize = 30;

/// Length of a day, in seconds of unix time.
pub const SECONDS_PER_DAY: i64 = 86400;

/// The access policy of an instance.
#[derive(Clone, Copy, Debug, PartialEq, Eq, Structural)]
pub enum InstanceType {
    /// Members only by the manager's grant.
    Private,
    /// Claimable by the wallets on its whitelist.
    Whitelisted,
    /// Claimable until it expires, or for a price, depending on the deployment's policy.
    Metered,
    /// Claimable by anyone.
    Public,
}

/// What claiming an instance is subject to, fixed when it is created.
#[derive(Clone, Copy, Debug, PartialEq, Eq, Structural)]
pub enum MonetizationTerm {
    Unmetered,
    /// Claims succeed up to and including this unix time.
    ExpiresAt(i64),
    /// Each claim costs this much.
    Price(u64),
}

/// A named shared resource and its memberships.
#[derive(Debug)]
pub struct Instance {
    pub owner: Identity,
    pub name: String,
    pub instance_id: u64,
    pub instance_type: InstanceType,
    pub term: MonetizationTerm,
    pub consumers: Vec<Identity>,
    pub whitelist: Vec<Identity>,
}

/// A membership list within its bound, with no wallet twice.
pub open spec fn member_list_wf(list: Seq<Identity>) -> bool {
    list.len() <= MAX_MEMBERS && list.no_duplicates()
}

impl Instance {
    pub open spec fn wf(&self) -> bool {
        &&& member_list_wf(self.consumers@)
        &&& member_list_wf(self.whitelist@)
        &&& (self.instance_type == InstanceType::Metered <==> self.term != MonetizationTerm::Unmetered)
    }

    /// Tests `wf`, for records that come from outside verified code.
    pub fn is_wf(&self) -> (r: bool)
        ensures
            r == self.wf(),
    {
        let metered = self.instance_type == InstanceType::Metered;
        let unmetered = match self.term {
            MonetizationTerm::Unmetered => true,
            _ => false,
        };
        self.consumers.len() <= MAX_MEMBERS && all_distinct(&self.consumers)
            && self.whitelist.len() <= MAX_MEMBERS && all_distinct(&self.whitelist) && metered
            != unmetered
    }
}

/// `after` differs from `before` at most in its consumer list.
pub open spec fn same_but_consumers(before: Instance, after: Instance) -> bool {
    &&& after.owner == before.owner
    &&& after.name == before.name
    &&& after.instance_id == before.instance_id
    &&& after.instance_type == before.instance_type
    &&& after.term == before.term
    &&& after.whitelist == before.whitelist
}

/// `after` differs from `before` at most in its whitelist.
pub open spec fn same_but_whitelist(before: Instance, after: Instance) -> bool {
    &&& after.owner == before.owner
    &&& after.name == before.name
    &&& after.instance_id == before.instance_id
    &&& after.instance_type == before.instance_type
    &&& after.term == before.term
    &&& after.consumers == before.consumers
}

/// The grant, if any, a creator presents to create an instance.
#[derive(Debug)]
pub enum Capability {
    NoCapability,
    AdminProof(Admin),
    CaptainProof(Captain),
}

impl Capability {
    pub open spec fn wf(&self) -> bool {
        match *self {
            Capability::NoCapability => true,
            Capability::AdminProof(a) => a.wf(),
            Capability::CaptainProof(c) => c.wf(),
        }
    }

    /// Tests `wf`, for grants that come from outside verified code.
    pub fn is_wf(&self) -> (r: bool)
        ensures
            r == self.wf(),
    {
        match self {
            Capability::NoCapability => true,
            Capability::AdminProof(a) => a.instance_list.len() <= MAX_OWNED_INSTANCES
                && all_distinct(&a.instance_list),
            Capability::CaptainProof(c) => c.instance_list.len() <= MAX_OWNED_INSTANCES
                && all_distinct(&c.instance_list),
        }
    }
}

/// The grant a creator presents out of the records it holds: its own active admin grant
/// if it has one, else its captainship, else whatever admin grant was given.
pub open spec fn selected_capability(
    admin: Option<Admin>,
    captain: Option<Captain>,
    caller: Identity,
) -> Capability {
    match admin {
        Some(a) if a.active && a.wallet == caller => Capability::AdminProof(a),
        _ => match captain {
            Some(c) => Capability::CaptainProof(c),
            None => match admin {
                Some(a) => Capability::AdminProof(a),
                None => Capability::NoCapability,
            },
        },
    }
}

/// Picks the grant `caller` presents to `create_instance`, as `selected_capability` says.
pub fn select_capability(admin: Option<Admin>, captain: Option<Captain>, caller: Identity) -> (r:
    Capability)
    ensures
        r == selected_capability(admin, captain, caller),
{
    match admin {
        Some(a) => {
            if a.active && a.wallet == caller {
                Capability::AdminProof(a)
            } else {
                match captain {
                    Some(c) => Capability::CaptainProof(c),
                    None => Capability::AdminProof(a),
                }
            }
        },
        None => match captain {
            Some(c) => Capability::CaptainProof(c),
            None => Capability::NoCapability,
        },
    }
}

/// Whether `cap` lets `caller` create a metered instance: an active admin grant of its
/// own, or a captainship of its own with quota left.
pub open spec fn metered_authorized(cap: Capability, caller: Identity) -> bool {
    match cap {
        Capability::NoCapability => false,
        Capability::AdminProof(a) => a.active && a.wallet == caller,
        Capability::CaptainProof(c) => c.wallet == caller && c.remaining_limit > 0,
    }
}

/// Whether creating an instance of type `ty` with `cap` costs `caller` one unit of quota.
pub open spec fn charges_quota(cap: Capability, caller: Identity, ty: InstanceType) -> bool {
    ty == InstanceType::Metered && (cap matches Capability::CaptainProof(c) && c.wallet == caller)
}

/// Whether `cap` is a grant of `caller`'s own, whose owned list records the new instance.
pub open spec fn tracks(cap: Capability, caller: Identity) -> bool {
    match cap {
        Capability::NoCapability => false,
        Capability::AdminProof(a) => a.wallet == caller,
        Capability::CaptainProof(c) => c.wallet == caller,
    }
}

/// The owned-instance list of the grant in `cap`.
pub open spec fn owned_list(cap: Capability) -> Seq<Identity> {
    match cap {
        Capability::NoCapability => Seq::empty(),
        Capability::AdminProof(a) => a.instance_list@,
        Capability::CaptainProof(c) => c.instance_list@,
    }
}

/// Whether `v` is a value of `i64`.
pub open spec fn fits_i64(v: int) -> bool {
    i64::MIN <= v <= i64::MAX
}

/// Whether `now + days` days, counted in seconds, leaves `i64`.
pub open spec fn expiry_overflows(now: i64, days: i64) -> bool {
    !fits_i64(days * SECONDS_PER_DAY) || !fits_i64(now + days * SECONDS_PER_DAY)
}

/// The term a new instance of type `ty` gets under `policy`.
pub open spec fn term_for(
    policy: MonetizationPolicy,
    ty: InstanceType,
    now: i64,
    days: i64,
    price: u64,
) -> MonetizationTerm {
    if ty != InstanceType::Metered {
        MonetizationTerm::Unmetered
    } else {
        match policy {
            MonetizationPolicy::TimeBoxed => MonetizationTerm::ExpiresAt(
                (now + days * SECONDS_PER_DAY) as i64,
            ),
            MonetizationPolicy::Monetized { .. } => MonetizationTerm::Price(price),
        }
    }
}

/// The error `create_instance` gives on these arguments, if any.
pub open spec fn create_instance_error(
    config: Config,
    cap: Capability,
    caller: Identity,
    ty: InstanceType,
    name: Seq<char>,
    days: i64,
    now: i64,
    consumers: Seq<Identity>,
    whitelist: Seq<Identity>,
    key: Identity,
) -> Option<ErrorCode> {
    if name.len() > MAX_INSTANCE_NAME_LEN || consumers.len() > MAX_MEMBERS || whitelist.len()
        > MAX_MEMBERS {
        Some(ErrorCode::LimitExceeded)
    } else if !consumers.no_duplicates() || !whitelist.no_duplicates() {
        Some(ErrorCode::ExistingValue)
    } else if (ty == InstanceType::Private || ty == InstanceType::Whitelisted) && caller
        != config.manager {
        Some(ErrorCode::NotManager)
    } else if ty == InstanceType::Metered && !metered_authorized(cap, caller) {
        Some(ErrorCode::NotAuthorized)
    } else if ty == InstanceType::Metered && config.policy == MonetizationPolicy::TimeBoxed
        && expiry_overflows(now, days) {
        Some(ErrorCode::Overflow)
    } else if tracks(cap, caller) && owned_list(cap).len() >= MAX_OWNED_INSTANCES {
        Some(ErrorCode::ListIsFull)
    } else if tracks(cap, caller) && owned_list(cap).contains(key) {
        Some(ErrorCode::ExistingValue)
    } else {
        None
    }
}

/// How a successful creation changes the presented grant: an own grant records `key`, and a
/// captainship that paid for the instance loses one unit of quota.
pub open spec fn grant_after_creation(
    before: Capability,
    after: Capability,
    caller: Identity,
    ty: InstanceType,
    key: Identity,
) -> bool {
    let list = if tracks(before, caller) {
        owned_list(before).push(key)
    } else {
        owned_list(before)
    };
    match (before, after) {
        (Capability::NoCapability, Capability::NoCapability) => true,
        (Capability::AdminProof(a), Capability::AdminProof(b)) => {
            &&& b.active == a.active
            &&& b.wallet == a.wallet
            &&& b.instance_list@ == list
        },
        (Capability::CaptainProof(a), Capability::CaptainProof(b)) => {
            &&& b.wallet == a.wallet
            &&& b.addon_count == a.addon_count
            &&& b.remaining_limit == (if charges_quota(before, caller, ty) {
                (a.remaining_limit - 1) as u16
            } else {
                a.remaining_limit
            })
            &&& b.instance_list@ == list
        },
        _ => false,
    }
}

fn is_metered_authorized(cap: &Capability, caller: &Identity) -> (r: bool)
    ensures
        r == metered_authorized(*cap, *caller),
{
    match cap {
        Capability::NoCapability => false,
        Capability::AdminProof(a) => a.active && a.wallet == *caller,
        Capability::CaptainProof(c) => c.wallet == *caller && c.remaining_limit > 0,
    }
}

/// The error that recording `key` in `caller`'s own grant would give, if any.
fn tracking_error(cap: &Capability, caller: &Identity, key: &Identity) -> (r: Option<ErrorCode>)
    ensures
        r == (if tracks(*cap, *caller) && owned_list(*cap).len() >= MAX_OWNED_INSTANCES {
            Some(ErrorCode::ListIsFull)
        } else if tracks(*cap, *caller) && owned_list(*cap).contains(*key) {
            Some(ErrorCode::ExistingValue)
        } else {
            None
        }),
{
    match cap {
        Capability::NoCapability => None,
        Capability::AdminProof(a) => {
            if a.wallet == *caller {
                list_error(&a.instance_list, key)
            } else {
                None
            }
        },
        Capability::CaptainProof(c) => {
            if c.wallet == *caller {
                list_error(&c.instance_list, key)
            } else {
                None
            }
        },
    }
}

fn list_error(list: &Vec<Identity>, key: &Identity) -> (r: Option<ErrorCode>)
    ensures
        r == (if list@.len() >= MAX_OWNED_INSTANCES {
            Some(ErrorCode::ListIsFull)
        } else if list@.contains(*key) {
            Some(ErrorCode::ExistingValue)
        } else {
            None
        }),
{
    if list.len() >= MAX_OWNED_INSTANCES {
        Some(ErrorCode::ListIsFull)
    } else if contains_identity(list, key) {
        Some(ErrorCode::ExistingValue)
    } else {
        None
    }
}

/// Records a new instance in `caller`'s own grant and charges quota where it is owed.
fn record_creation(cap: &mut Capability, caller: &Identity, ty: InstanceType, key: Identity)
    requires
        old(cap).wf(),
        ty == InstanceType::Metered ==> metered_authorized(*old(cap), *caller),
        tracks(*old(cap), *caller) ==> owned_list(*old(cap)).len() < MAX_OWNED_INSTANCES
            && !owned_list(*old(cap)).contains(key),
    ensures
        final(cap).wf(),
        grant_after_creation(*old(cap), *final(cap), *caller, ty, key),
{
    match cap {
        Capability::NoCapability => {},
        Capability::AdminProof(a) => {
            if a.wallet == *caller {
                a.instance_list.push(key);
            }
        },
        Capability::CaptainProof(c) => {
            if c.wallet == *caller {
                if ty == InstanceType::Metered {
                    c.remaining_limit = c.remaining_limit - 1;
                }
                c.instance_list.push(key);
            }
        },
    }
}

/// The unix time `days` days after `now`, if it is a value of `i64`.
fn expiry_after_days(now: i64, days: i64) -> (r: Option<i64>)
    ensures
        r == (if expiry_overflows(now, days) {
            None
        } else {
            Some((now + days * SECONDS_PER_DAY) as i64)
        }),
{
    match days.checked_mul(SECONDS_PER_DAY) {
        None => None,
        Some(ttl) => now.checked_add(ttl),
    }
}

/// Creates the instance `name` of type `ty`, owned by `caller`, under the key `key` that the
/// record store assigned to it.
///
/// Private and whitelisted instances are the manager's to create; a metered one needs the
/// caller's own active admin grant, free of charge, or its own captainship with quota left,
/// which then pays one unit. A metered instance expires `days` days after `now` under a
/// time-boxed policy and costs `price` per claim under a monetized one. The instance takes
/// the next id, and `key` joins the owned list of the caller's own grant in `cap`.
pub fn create_instance(
    config: &mut Config,
    cap: &mut Capability,
    caller: Identity,
    ty: InstanceType,
    name: String,
    days: i64,
    price: u64,
    now: i64,
    consumers: Vec<Identity>,
    whitelist: Vec<Identity>,
    key: Identity,
) -> (r: Result<Instance, ErrorCode>)
    requires
        old(cap).wf(),
    ensures
        final(cap).wf(),
        match create_instance_error(
            *old(config),
            *old(cap),
            caller,
            ty,
            name@,
            days,
            now,
            consumers@,
            whitelist@,
            key,
        ) {
            Some(e) => r == Err::<Instance, ErrorCode>(e) && *final(config) == *old(config)
                && *final(cap) == *old(cap),
            None => {
                &&& r == Ok::<Instance, ErrorCode>(
                    Instance {
                        owner: caller,
                        name,
                        instance_id: old(config).instance_ids.saturating_add(1),
                        instance_type: ty,
                        term: term_for(old(config).policy, ty, now, days, price),
                        consumers,
                        whitelist,
                    },
                )
                &&& *final(config) == (Config {
                    instance_ids: old(config).instance_ids.saturating_add(1),
                    ..*old(config)
                })
                &&& grant_after_creation(*old(cap), *final(cap), caller, ty, key)
            },
        },
        r matches Ok(inst) ==> inst.wf(),
{
    if name.as_str().unicode_len() > MAX_INSTANCE_NAME_LEN || consumers.len() > MAX_MEMBERS
        || whitelist.len() > MAX_MEMBERS {
        return Err(ErrorCode::LimitExceeded);
    }
    if !all_distinct(&consumers) || !all_distinct(&whitelist) {
        return Err(ErrorCode::ExistingValue);
    }
    if ty == InstanceType::Private || ty == InstanceType::Whitelisted {
        is_manager(config, &caller)?;
    }
    if ty == InstanceType::Metered && !is_metered_authorized(cap, &caller) {
        return Err(ErrorCode::NotAuthorized);
    }
    let term = if ty != InstanceType::Metered {
        MonetizationTerm::Unmetered
    } else {
        match config.policy {
            MonetizationPolicy::TimeBoxed => match expiry_after_days(now, days) {
                Some(expiry) => MonetizationTerm::ExpiresAt(expiry),
                None => {
                    return Err(ErrorCode::Overflow);
                },
            },
            MonetizationPolicy::Monetized { .. } => MonetizationTerm::Price(price),
        }
    };
    if let Some(e) = tracking_error(cap, &caller, &key) {
        return Err(e);
    }
    record_creation(cap, &caller, ty, key);
    config.instance_ids = config.instance_ids.saturating_add(1);
    Ok(
        Instance {
            owner: caller,
            name,
            instance_id: config.instance_ids,
            instance_type: ty,
            term,
            consumers,
            whitelist,
        },
    )
}

/// `s` with `who` appended unless it is already there.
pub open spec fn with_member(s: Seq<Identity>, who: Identity) -> Seq<Identity> {
    if s.contains(who) {
        s
    } else {
        s.push(who)
    }
}

/// What `claim_instance` returns on these arguments: the amount to charge the caller, or
/// why the claim is refused. A full consumer list refuses every claim, a repeated one too.
pub open spec fn claim_outcome(inst: Instance, caller: Identity, now: i64, balance: u64) -> Result<
    u64,
    ErrorCode,
> {
    if inst.consumers@.len() >= MAX_MEMBERS {
        Err(ErrorCode::LimitExceeded)
    } else {
        match inst.instance_type {
            InstanceType::Public => Ok(0),
            InstanceType::Private => Err(ErrorCode::NotAuthorized),
            InstanceType::Whitelisted => if inst.whitelist@.contains(caller) {
                Ok(0)
            } else {
                Err(ErrorCode::NotAuthorized)
            },
            InstanceType::Metered => match inst.term {
                MonetizationTerm::ExpiresAt(expiry) => if now <= expiry {
                    Ok(0)
                } else {
                    Err(ErrorCode::Expired)
                },
                MonetizationTerm::Price(price) => if balance >= price {
                    Ok(price)
                } else {
                    Err(ErrorCode::InsufficientFunds)
                },
                MonetizationTerm::Unmetered => Ok(0),
            },
        }
    }
}

/// Claims membership of `inst` for `caller` at unix time `now`; `balance` is what the caller
/// can pay. On success the caller is a consumer, added once however often it claims, and
/// the result is the price to charge it.
pub fn claim_instance(inst: &mut Instance, caller: Identity, now: i64, balance: u64) -> (r: Result<
    u64,
    ErrorCode,
>)
    requires
        old(inst).wf(),
    ensures
        final(inst).wf(),
        r == claim_outcome(*old(inst), caller, now, balance),
        r is Err ==> *final(inst) == *old(inst),
        r is Ok ==> same_but_consumers(*old(inst), *final(inst)) && final(inst).consumers@
            == with_member(old(inst).consumers@, caller),
{
    if inst.consumers.len() >= MAX_MEMBERS {
        return Err(ErrorCode::LimitExceeded);
    }
    let charge: u64 = match inst.instance_type {
        InstanceType::Public => 0,
        InstanceType::Private => {
            return Err(ErrorCode::NotAuthorized);
        },
        InstanceType::Whitelisted => {
            if !contains_identity(&inst.whitelist, &caller) {
                return Err(ErrorCode::NotAuthorized);
            }
            0
        },
        InstanceType::Metered => match inst.term {
            MonetizationTerm::ExpiresAt(expiry) => {
                if now > expiry {
                    return Err(ErrorCode::Expired);
                }
                0
            },
            MonetizationTerm::Price(price) => {
                if balance < price {
                    return Err(ErrorCode::InsufficientFunds);
                }
                price
            },
            MonetizationTerm::Unmetered => 0,
        },
    };
    if !contains_identity(&inst.consumers, &caller) {
        push_new_member(&mut inst.consumers, caller);
    }
    Ok(charge)
}

/// The error `grant_private_instance` gives on these arguments, if any.
pub open spec fn grant_private_error(
    config: Config,
    inst: Instance,
    caller: Identity,
    wallet: Identity,
) -> Option<ErrorCode> {
    if config.manager != caller {
        Some(ErrorCode::NotManager)
    } else if inst.instance_type != InstanceType::Private {
        Some(ErrorCode::NotAuthorized)
    } else if inst.consumers@.len() >= MAX_MEMBERS {
        Some(ErrorCode::LimitExceeded)
    } else if inst.consumers@.contains(wallet) {
        Some(ErrorCode::ExistingValue)
    } else {
        None
    }
}

/// The manager admits `wallet` to the private instance `inst`.
pub fn grant_private_instance(
    config: &Config,
    inst: &mut Instance,
    caller: Identity,
    wallet: Identity,
) -> (r: Result<(), ErrorCode>)
    requires
        old(inst).wf(),
    ensures
        final(inst).wf(),
        match grant_private_error(*config, *old(inst), caller, wallet) {
            Some(e) => r == Err::<(), ErrorCode>(e) && *final(inst) == *old(inst),
            None => r is Ok && same_but_consumers(*old(inst), *final(inst))
                && final(inst).consumers@ == old(inst).consumers@.push(wallet),
        },
{
    is_manager(config, &caller)?;
    if inst.instance_type != InstanceType::Private {
        return Err(ErrorCode::NotAuthorized);
    }
    if inst.consumers.len() >= MAX_MEMBERS {
        return Err(ErrorCode::LimitExceeded);
    }
    if contains_identity(&inst.consumers, &wallet) {
        return Err(ErrorCode::ExistingValue);
    }
    push_new_member(&mut inst.consumers, wallet);
    Ok(())
}

/// The error `add_whitelist` gives on these arguments, if any.
pub open spec fn add_whitelist_error(
    config: Config,
    inst: Instance,
    caller: Identity,
    wallet: Identity,
) -> Option<ErrorCode> {
    if config.manager != caller {
        Some(ErrorCode::NotManager)
    } else if inst.instance_type != InstanceType::Whitelisted {
        Some(ErrorCode::NotAuthorized)
    } else if inst.whitelist@.len() >= MAX_MEMBERS {
        Some(ErrorCode::LimitExceeded)
    } else if inst.whitelist@.contains(wallet) || inst.consumers@.contains(wallet) {
        Some(ErrorCode::ExistingValue)
    } else {
        None
    }
}

/// The manager puts `wallet` on the whitelist of the whitelisted instance `inst`.
/// A wallet already on the whitelist, or already a consumer, is refused.
pub fn add_whitelist(config: &Config, inst: &mut Instance, caller: Identity, wallet: Identity) -> (r:
    Result<(), ErrorCode>)
    requires
        old(inst).wf(),
    ensures
        final(inst).wf(),
        match add_whitelist_error(*config, *old(inst), caller, wallet) {
            Some(e) => r == Err::<(), ErrorCode>(e) && *final(inst) == *old(inst),
            None => r is Ok && same_but_whitelist(*old(inst), *final(inst))
                && final(inst).whitelist@ == old(inst).whitelist@.push(wallet),
        },
{
    is_manager(config, &caller)?;
    if inst.instance_type != InstanceType::Whitelisted {
        return Err(ErrorCode::NotAuthorized);
    }
    if inst.whitelist.len() >= MAX_MEMBERS {
        return Err(ErrorCode::LimitExceeded);
    }
    if contains_identity(&inst.whitelist, &wallet) || contains_identity(&inst.consumers, &wallet) {
        return Err(ErrorCode::ExistingValue);
    }
    push_new_member(&mut inst.whitelist, wallet);
    Ok(())
}

/// Appends a wallet that `list` does not hold yet.
fn push_new_member(list: &mut Vec<Identity>, who: Identity)
    requires
        member_list_wf(old(list)@),
        old(list)@.len() < MAX_MEMBERS,
        !old(list)@.contains(who),
    ensures
        member_list_wf(final(list)@),
        final(list)@ == old(list)@.push(who),
{
    let ghost before = list@;
    list.push(who);
    assert(list@.no_duplicates()) by {
        assert forall|i: int, j: int|
            0 <= i < list@.len() && 0 <= j < list@.len() && i != j implies list@[i] != list@[j] by {
            if i == before.len() {
                assert(list@[j] == before[j]);
            } else if j == before.len() {
                assert(list@[i] == before[i]);
            }
        }
    }
}

/// The error `withdraw_instance_treasury` gives on these arguments, if any.
pub open spec fn withdraw_instance_error(
    inst: Instance,
    caller: Identity,
    amount: u64,
    treasury_balance: u64,
) -> Option<ErrorCode> {
    if !(inst.term is Price) || inst.owner != caller {
        Some(ErrorCode::NotAuthorized)
    } else if amount > treasury_balance {
        Some(ErrorCode::InsufficientFunds)
    } else {
        None
    }
}

/// The owner of a priced instance takes `amount` out of the treasury its claims paid into,
/// which holds `treasury_balance`; the result is what that treasury holds afterwards.
pub fn withdraw_instance_treasury(
    inst: &Instance,
    caller: Identity,
    amount: u64,
    treasury_balance: u64,
) -> (r: Result<u64, ErrorCode>)
    ensures
        r == (match withdraw_instance_error(*inst, caller, amount, treasury_balance) {
            Some(e) => Err(e),
            None => Ok::<u64, ErrorCode>((treasury_balance - amount) as u64),
        }),
{
    let priced = match inst.term {
        MonetizationTerm::Price(_) => true,
        _ => false,
    };
    if !priced || inst.owner != caller {
        return Err(ErrorCode::NotAuthorized);
    }
    if amount > treasury_balance {
        return Err(ErrorCode::InsufficientFunds);
    }
    Ok(treasury_balance - amount)
}

} // verus!
