use vstd::prelude::*;

use crate::error::ErrorCode;
use crate::grants::{after_addon, claim_addon_error, Captain};
use crate::identity::Identity;
use crate::instance::{
    charges_quota,
    claim_outcome,
    create_instance_error,
    grant_after_creation,
    member_list_wf,
    metered_authorized,
    same_but_consumers,
    with_member,
    Capability,
    Instance,
    InstanceType,
    MAX_INSTANCE_NAME_LEN,
    MAX_MEMBERS,
};
use crate::registry::Config;
use crate::requests::{request_admin_error, AdminRequest, AdminRequestQueue, MAX_REQUESTS};

verus! {

/// Every request the queue accepts keeps it within `MAX_REQUESTS` entries and free of a
/// repeated requester; as a new queue starts empty, this holds after any sequence of requests.
pub proof fn accepted_request_keeps_queue_bounded(
    queue: AdminRequestQueue,
    entry: AdminRequest,
    after: AdminRequestQueue,
)
    requires
        queue.wf(),
        request_admin_error(queue.requests@, entry.wallet, entry.uri@) is None,
        after.requests@ == queue.requests@.push(entry),
    ensures
        after.wf(),
        after.requests@.len() <= MAX_REQUESTS,
{
    assert forall|i: int, j: int|
        0 <= i < j < after.requests@.len() implies #[trigger] after.requests@[i].wallet
        != #[trigger] after.requests@[j].wallet by {
        if j == queue.requests@.len() {
            assert(queue.requests@[i].wallet != entry.wallet);
        } else {
            assert(after.requests@[i] == queue.requests@[i]);
            assert(after.requests@[j] == queue.requests@[j]);
        }
    }
}

/// A private instance with room for another consumer refuses a claim from every caller,
/// its owner included: access to it is only ever granted by the manager.
pub proof fn private_claims_refused(inst: Instance, caller: Identity, now: i64, balance: u64)
    requires
        inst.wf(),
        inst.instance_type == InstanceType::Private,
        inst.consumers@.len() < MAX_MEMBERS,
    ensures
        claim_outcome(inst, caller, now, balance) == Err::<u64, ErrorCode>(ErrorCode::NotAuthorized),
{
}

/// An add-on that `claim_addon` accepts, with a positive limit, strictly raises a quota that
/// is not already at its maximum, and counts one more add-on unless that count is saturated.
pub proof fn addon_raises_quota(config: Config, captain: Captain, caller: Identity, balance: u64)
    requires
        claim_addon_error(config, captain, caller, balance) is None,
        config.addon_limit > 0,
        captain.remaining_limit < u16::MAX,
    ensures
        after_addon(config, captain).remaining_limit > captain.remaining_limit,
        after_addon(config, captain).wallet == captain.wallet,
        after_addon(config, captain).instance_list == captain.instance_list,
{
}

/// A metered creation by a caller whose presented grant does not authorize it (no own active
/// admin grant, and no own captainship with quota left, so in particular a captainship at
/// quota 0) is refused with `NotAuthorized` once the name and the initial lists are within
/// bounds, and changes nothing.
pub proof fn unauthorized_metered_creation_refused(
    config: Config,
    cap: Capability,
    caller: Identity,
    name: Seq<char>,
    days: i64,
    now: i64,
    consumers: Seq<Identity>,
    whitelist: Seq<Identity>,
    key: Identity,
)
    requires
        !metered_authorized(cap, caller),
        name.len() <= MAX_INSTANCE_NAME_LEN,
        member_list_wf(consumers),
        member_list_wf(whitelist),
    ensures
        create_instance_error(
            config,
            cap,
            caller,
            InstanceType::Metered,
            name,
            days,
            now,
            consumers,
            whitelist,
            key,
        ) == Some(ErrorCode::NotAuthorized),
{
}

/// A creation that charges a captain's quota is refused while that quota is 0, and when it
/// succeeds it lowers the quota by exactly 1.
pub proof fn quota_charge_is_one(
    config: Config,
    cap: Capability,
    after: Capability,
    caller: Identity,
    ty: InstanceType,
    name: Seq<char>,
    days: i64,
    now: i64,
    consumers: Seq<Identity>,
    whitelist: Seq<Identity>,
    key: Identity,
)
    requires
        cap.wf(),
        charges_quota(cap, caller, ty),
    ensures
        cap matches Capability::CaptainProof(c) && c.remaining_limit == 0 ==> create_instance_error(
            config,
            cap,
            caller,
            ty,
            name,
            days,
            now,
            consumers,
            whitelist,
            key,
        ) is Some,
        create_instance_error(config, cap, caller, ty, name, days, now, consumers, whitelist, key)
            is None && grant_after_creation(cap, after, caller, ty, key) ==> {
            &&& cap matches Capability::CaptainProof(c)
            &&& after matches Capability::CaptainProof(d)
            &&& c.remaining_limit > 0
            &&& d.remaining_limit == c.remaining_limit - 1
        },
{
}

/// Claiming a public instance with room for another consumer succeeds, and claiming it
/// again as the same caller leaves the consumer list as the first claim left it.
pub proof fn claim_is_idempotent(
    inst: Instance,
    after: Instance,
    caller: Identity,
    now: i64,
    balance: u64,
)
    requires
        inst.wf(),
        inst.instance_type == InstanceType::Public,
        inst.consumers@.len() < MAX_MEMBERS,
        same_but_consumers(inst, after),
        after.consumers@ == with_member(inst.consumers@, caller),
    ensures
        claim_outcome(inst, caller, now, balance) == Ok::<u64, ErrorCode>(0),
        after.consumers@.contains(caller),
        with_member(after.consumers@, caller) == after.consumers@,
{
    if !inst.consumers@.contains(caller) {
        assert(after.consumers@[inst.consumers@.len() as int] == caller);
    }
}

} // verus!
