use open_club::error::ErrorCode;
use open_club::grants::{approve_admin, claim_addon, claim_captainship, set_admin_status, AddOn};
use open_club::identity::Identity;
use open_club::instance::{
    add_whitelist, claim_instance, create_instance, grant_private_instance, select_capability,
    withdraw_instance_treasury, Capability, Instance, InstanceType, MonetizationTerm,
};
use open_club::registry::{init_config, Config, MonetizationPolicy};
use open_club::requests::AdminRequestQueue;

const DAY: i64 = 86400;
const NOW: i64 = 1_700_000_000;

fn id(n: u8) -> Identity {
    Identity::new([n; 32])
}

fn key(n: u16) -> Identity {
    let mut b = [0xAAu8; 32];
    b[0] = (n >> 8) as u8;
    b[1] = n as u8;
    Identity::new(b)
}

fn config_with(policy: MonetizationPolicy, instance_limit: u16, addon_limit: u16) -> Config {
    let mut cfg = Config::uninitialized();
    init_config(&mut cfg, id(1), "club".to_string(), "title".to_string(), instance_limit, addon_limit, policy)
        .unwrap();
    cfg
}

fn config() -> Config {
    config_with(MonetizationPolicy::TimeBoxed, 5, 3)
}

fn create(
    cfg: &mut Config,
    cap: &mut Capability,
    caller: Identity,
    ty: InstanceType,
    name: &str,
    k: Identity,
) -> Result<Instance, ErrorCode> {
    create_instance(cfg, cap, caller, ty, name.to_string(), 1, 0, NOW, Vec::new(), Vec::new(), k)
}

fn manager_instance(ty: InstanceType) -> Instance {
    let mut cfg = config();
    let mut cap = Capability::NoCapability;
    create(&mut cfg, &mut cap, id(1), ty, "room1", key(1)).unwrap()
}

fn captain_remaining(cap: &Capability) -> u16 {
    match cap {
        Capability::CaptainProof(c) => c.remaining_limit,
        _ => panic!("not a captainship"),
    }
}

#[test]
fn captain_quota_runs_out_after_instance_limit() {
    let mut cfg = config_with(MonetizationPolicy::TimeBoxed, 5, 3);
    let mut cap = Capability::CaptainProof(claim_captainship(&cfg, id(4)));
    for n in 0..5u16 {
        let name = format!("inst{}", n);
        let inst = create(&mut cfg, &mut cap, id(4), InstanceType::Metered, &name, key(n)).unwrap();
        assert_eq!(inst.instance_id, (n + 1) as u64);
        assert_eq!(captain_remaining(&cap), 4 - n);
    }
    assert_eq!(captain_remaining(&cap), 0);
    let r = create(&mut cfg, &mut cap, id(4), InstanceType::Metered, "inst5", key(5));
    assert!(matches!(r, Err(ErrorCode::NotAuthorized)));
    assert_eq!(captain_remaining(&cap), 0);
    assert_eq!(cfg.instance_ids, 5);
    match &cap {
        Capability::CaptainProof(c) => assert_eq!(c.instance_list.len(), 5),
        _ => unreachable!(),
    }
}

#[test]
fn claim_addon_replenishes_quota() {
    let cfg = config_with(MonetizationPolicy::TimeBoxed, 0, 3);
    let mut captain = claim_captainship(&cfg, id(4));
    assert_eq!(captain.remaining_limit, 0);
    let addon = claim_addon(&cfg, &mut captain, id(4), 0).unwrap();
    assert_eq!(addon, AddOn { captain: id(4), limit: 3, price: 0 });
    assert_eq!(captain.remaining_limit, 3);
    assert_eq!(captain.addon_count, 1);
    let mut cap = Capability::CaptainProof(captain);
    let mut cfg2 = config_with(MonetizationPolicy::TimeBoxed, 0, 3);
    assert!(create(&mut cfg2, &mut cap, id(4), InstanceType::Metered, "m", key(1)).is_ok());
    assert_eq!(captain_remaining(&cap), 2);
}

#[test]
fn claim_addon_saturates() {
    let cfg = config_with(MonetizationPolicy::TimeBoxed, u16::MAX - 1, 3);
    let mut captain = claim_captainship(&cfg, id(4));
    claim_addon(&cfg, &mut captain, id(4), 0).unwrap();
    assert_eq!(captain.remaining_limit, u16::MAX);
    assert_eq!(captain.addon_count, 1);
}

#[test]
fn claim_addon_errors() {
    let cfg = config_with(MonetizationPolicy::Monetized { addon_price: 100 }, 1, 2);
    let mut captain = claim_captainship(&cfg, id(4));
    assert_eq!(claim_addon(&cfg, &mut captain, id(5), 1000), Err(ErrorCode::NotAuthorized));
    assert_eq!(claim_addon(&cfg, &mut captain, id(4), 99), Err(ErrorCode::InsufficientFunds));
    assert_eq!(captain.remaining_limit, 1);
    assert_eq!(captain.addon_count, 0);
    let addon = claim_addon(&cfg, &mut captain, id(4), 100).unwrap();
    assert_eq!(addon, AddOn { captain: id(4), limit: 2, price: 100 });
    assert_eq!(captain.remaining_limit, 3);
}

#[test]
fn admin_path_is_free_and_tracked() {
    let mut cfg = config();
    let mut q = AdminRequestQueue::new();
    let admin = approve_admin(&cfg, &mut q, id(1), id(3)).unwrap();
    let mut cap = Capability::AdminProof(admin);
    let inst = create(&mut cfg, &mut cap, id(3), InstanceType::Metered, "a", key(7)).unwrap();
    assert_eq!(inst.owner, id(3));
    assert_eq!(inst.instance_type, InstanceType::Metered);
    assert_eq!(inst.term, MonetizationTerm::ExpiresAt(NOW + DAY));
    match &cap {
        Capability::AdminProof(a) => assert_eq!(a.instance_list, vec![key(7)]),
        _ => unreachable!(),
    }
}

#[test]
fn inactive_admin_cannot_create_metered() {
    let mut cfg = config();
    let mut q = AdminRequestQueue::new();
    let mut admin = approve_admin(&cfg, &mut q, id(1), id(3)).unwrap();
    set_admin_status(&cfg, &mut admin, id(1), false).unwrap();
    let mut cap = Capability::AdminProof(admin);
    let r = create(&mut cfg, &mut cap, id(3), InstanceType::Metered, "a", key(7));
    assert!(matches!(r, Err(ErrorCode::NotAuthorized)));
    assert_eq!(cfg.instance_ids, 0);
}

#[test]
fn someone_elses_grant_does_not_authorize() {
    let mut cfg = config();
    let mut cap = Capability::CaptainProof(claim_captainship(&cfg, id(4)));
    let r = create(&mut cfg, &mut cap, id(5), InstanceType::Metered, "a", key(7));
    assert!(matches!(r, Err(ErrorCode::NotAuthorized)));
    let mut none = Capability::NoCapability;
    let r = create(&mut cfg, &mut none, id(5), InstanceType::Metered, "a", key(7));
    assert!(matches!(r, Err(ErrorCode::NotAuthorized)));
}

#[test]
fn private_and_whitelisted_are_manager_only() {
    let mut cfg = config();
    let mut cap = Capability::NoCapability;
    let r = create(&mut cfg, &mut cap, id(2), InstanceType::Private, "p", key(1));
    assert!(matches!(r, Err(ErrorCode::NotManager)));
    let r = create(&mut cfg, &mut cap, id(2), InstanceType::Whitelisted, "w", key(1));
    assert!(matches!(r, Err(ErrorCode::NotManager)));
    let inst = create(&mut cfg, &mut cap, id(1), InstanceType::Private, "p", key(1)).unwrap();
    assert_eq!(inst.term, MonetizationTerm::Unmetered);
    assert_eq!(inst.instance_id, 1);
}

#[test]
fn public_creation_by_captain_is_tracked_but_free() {
    let mut cfg = config();
    let mut cap = Capability::CaptainProof(claim_captainship(&cfg, id(4)));
    let inst = create(&mut cfg, &mut cap, id(4), InstanceType::Public, "pub", key(2)).unwrap();
    assert_eq!(inst.instance_type, InstanceType::Public);
    match &cap {
        Capability::CaptainProof(c) => {
            assert_eq!(c.remaining_limit, 5);
            assert_eq!(c.instance_list, vec![key(2)]);
        }
        _ => unreachable!(),
    }
}

#[test]
fn create_instance_overflow() {
    let mut cfg = config();
    let mut q = AdminRequestQueue::new();
    let mut cap = Capability::AdminProof(approve_admin(&cfg, &mut q, id(1), id(3)).unwrap());
    let r = create_instance(&mut cfg, &mut cap, id(3), InstanceType::Metered, "a".to_string(), i64::MAX / 1000, 0, NOW, Vec::new(), Vec::new(), key(1));
    assert!(matches!(r, Err(ErrorCode::Overflow)));
    let r = create_instance(&mut cfg, &mut cap, id(3), InstanceType::Metered, "a".to_string(), (i64::MAX - NOW) / DAY + 1, 0, NOW, Vec::new(), Vec::new(), key(1));
    assert!(matches!(r, Err(ErrorCode::Overflow)));
    match &cap {
        Capability::AdminProof(a) => assert!(a.instance_list.is_empty()),
        _ => unreachable!(),
    }
    let inst = create_instance(&mut cfg, &mut cap, id(3), InstanceType::Metered, "a".to_string(), -2, 0, NOW, Vec::new(), Vec::new(), key(1)).unwrap();
    assert_eq!(inst.term, MonetizationTerm::ExpiresAt(NOW - 2 * DAY));
}

#[test]
fn create_instance_owned_list_full() {
    let mut cfg = config();
    let mut q = AdminRequestQueue::new();
    let mut cap = Capability::AdminProof(approve_admin(&cfg, &mut q, id(1), id(3)).unwrap());
    for n in 0..200u16 {
        create(&mut cfg, &mut cap, id(3), InstanceType::Public, "x", key(n)).unwrap();
    }
    let r = create(&mut cfg, &mut cap, id(3), InstanceType::Public, "x", key(200));
    assert!(matches!(r, Err(ErrorCode::ListIsFull)));
    assert_eq!(cfg.instance_ids, 200);
}

#[test]
fn create_instance_failure_keeps_quota() {
    let mut cfg = config();
    let mut cap = Capability::CaptainProof(claim_captainship(&cfg, id(4)));
    create(&mut cfg, &mut cap, id(4), InstanceType::Metered, "a", key(1)).unwrap();
    let r = create(&mut cfg, &mut cap, id(4), InstanceType::Metered, "b", key(1));
    assert!(matches!(r, Err(ErrorCode::ExistingValue)));
    assert_eq!(captain_remaining(&cap), 4);
    assert_eq!(cfg.instance_ids, 1);
}

#[test]
fn create_instance_bounds_and_duplicates() {
    let mut cfg = config();
    let mut cap = Capability::NoCapability;
    let r = create(&mut cfg, &mut cap, id(1), InstanceType::Public, &"n".repeat(31), key(1));
    assert!(matches!(r, Err(ErrorCode::LimitExceeded)));
    assert!(create(&mut cfg, &mut cap, id(1), InstanceType::Public, &"n".repeat(30), key(1)).is_ok());
    let many: Vec<Identity> = (0..201u16).map(key).collect();
    let r = create_instance(&mut cfg, &mut cap, id(1), InstanceType::Whitelisted, "w".to_string(), 0, 0, NOW, Vec::new(), many, key(2));
    assert!(matches!(r, Err(ErrorCode::LimitExceeded)));
    let r = create_instance(&mut cfg, &mut cap, id(1), InstanceType::Private, "p".to_string(), 0, 0, NOW, vec![id(5), id(6), id(5)], Vec::new(), key(2));
    assert!(matches!(r, Err(ErrorCode::ExistingValue)));
    let inst = create_instance(&mut cfg, &mut cap, id(1), InstanceType::Whitelisted, "w".to_string(), 0, 0, NOW, vec![id(5)], vec![id(6), id(7)], key(2)).unwrap();
    assert_eq!(inst.consumers, vec![id(5)]);
    assert_eq!(inst.whitelist, vec![id(6), id(7)]);
    assert_eq!(inst.instance_id, 2);
}

#[test]
fn monetized_metered_instance_has_a_price() {
    let mut cfg = config_with(MonetizationPolicy::Monetized { addon_price: 10 }, 2, 2);
    let mut cap = Capability::CaptainProof(claim_captainship(&cfg, id(4)));
    let mut inst = create_instance(&mut cfg, &mut cap, id(4), InstanceType::Metered, "paid".to_string(), 1, 25, NOW, Vec::new(), Vec::new(), key(1)).unwrap();
    assert_eq!(inst.term, MonetizationTerm::Price(25));
    assert_eq!(claim_instance(&mut inst, id(8), NOW, 24), Err(ErrorCode::InsufficientFunds));
    assert!(inst.consumers.is_empty());
    assert_eq!(claim_instance(&mut inst, id(8), NOW, 25), Ok(25));
    assert_eq!(inst.consumers, vec![id(8)]);
    assert_eq!(withdraw_instance_treasury(&inst, id(8), 10, 25), Err(ErrorCode::NotAuthorized));
    assert_eq!(withdraw_instance_treasury(&inst, id(4), 30, 25), Err(ErrorCode::InsufficientFunds));
    assert_eq!(withdraw_instance_treasury(&inst, id(4), 10, 25), Ok(15));
}

#[test]
fn unpriced_instance_treasury_refuses_withdrawal() {
    let inst = manager_instance(InstanceType::Public);
    assert_eq!(withdraw_instance_treasury(&inst, id(1), 0, 10), Err(ErrorCode::NotAuthorized));
}

#[test]
fn claim_public_twice_keeps_one_entry() {
    let mut inst = manager_instance(InstanceType::Public);
    assert_eq!(claim_instance(&mut inst, id(8), NOW, 0), Ok(0));
    assert_eq!(inst.consumers, vec![id(8)]);
    assert_eq!(claim_instance(&mut inst, id(8), NOW, 0), Ok(0));
    assert_eq!(inst.consumers, vec![id(8)]);
}

#[test]
fn claim_private_refused_even_for_owner() {
    let mut inst = manager_instance(InstanceType::Private);
    assert_eq!(inst.owner, id(1));
    assert_eq!(claim_instance(&mut inst, id(1), NOW, 0), Err(ErrorCode::NotAuthorized));
    assert_eq!(claim_instance(&mut inst, id(8), NOW, u64::MAX), Err(ErrorCode::NotAuthorized));
    assert!(inst.consumers.is_empty());
}

#[test]
fn claim_whitelisted_needs_whitelist() {
    let cfg = config();
    let mut inst = manager_instance(InstanceType::Whitelisted);
    assert_eq!(claim_instance(&mut inst, id(8), NOW, 0), Err(ErrorCode::NotAuthorized));
    add_whitelist(&cfg, &mut inst, id(1), id(8)).unwrap();
    assert_eq!(claim_instance(&mut inst, id(8), NOW, 0), Ok(0));
    assert_eq!(inst.consumers, vec![id(8)]);
}

#[test]
fn metered_claim_at_and_after_expiry() {
    let mut cfg = config();
    let mut cap = Capability::CaptainProof(claim_captainship(&cfg, id(4)));
    let mut inst = create(&mut cfg, &mut cap, id(4), InstanceType::Metered, "t", key(1)).unwrap();
    assert_eq!(inst.term, MonetizationTerm::ExpiresAt(NOW + 86400));
    assert_eq!(claim_instance(&mut inst, id(8), NOW + 86401, 0), Err(ErrorCode::Expired));
    assert!(inst.consumers.is_empty());
    assert_eq!(claim_instance(&mut inst, id(8), NOW + 86400, 0), Ok(0));
    assert_eq!(inst.consumers, vec![id(8)]);
    assert_eq!(claim_instance(&mut inst, id(9), NOW + 86401, 0), Err(ErrorCode::Expired));
}

#[test]
fn full_consumer_list_refuses_repeat_claim() {
    let mut inst = manager_instance(InstanceType::Public);
    for n in 0..200u16 {
        assert_eq!(claim_instance(&mut inst, key(n), NOW, 0), Ok(0));
    }
    assert_eq!(inst.consumers.len(), 200);
    assert_eq!(claim_instance(&mut inst, key(0), NOW, 0), Err(ErrorCode::LimitExceeded));
    assert_eq!(claim_instance(&mut inst, key(500), NOW, 0), Err(ErrorCode::LimitExceeded));
}

#[test]
fn add_whitelist_twice_fails_existing_value() {
    let cfg = config();
    let mut inst = manager_instance(InstanceType::Whitelisted);
    assert_eq!(inst.name, "room1");
    assert_eq!(add_whitelist(&cfg, &mut inst, id(1), id(8)), Ok(()));
    assert_eq!(add_whitelist(&cfg, &mut inst, id(1), id(8)), Err(ErrorCode::ExistingValue));
    assert_eq!(inst.whitelist, vec![id(8)]);
}

#[test]
fn add_whitelist_rules() {
    let cfg = config();
    let mut inst = manager_instance(InstanceType::Whitelisted);
    assert_eq!(add_whitelist(&cfg, &mut inst, id(2), id(8)), Err(ErrorCode::NotManager));
    let mut public = manager_instance(InstanceType::Public);
    assert_eq!(add_whitelist(&cfg, &mut public, id(1), id(8)), Err(ErrorCode::NotAuthorized));
    for n in 0..200u16 {
        assert_eq!(add_whitelist(&cfg, &mut inst, id(1), key(n)), Ok(()));
    }
    assert_eq!(add_whitelist(&cfg, &mut inst, id(1), id(8)), Err(ErrorCode::LimitExceeded));
}

#[test]
fn add_whitelist_refuses_existing_consumer() {
    let mut cfg = config();
    let mut cap = Capability::NoCapability;
    let mut inst = create_instance(&mut cfg, &mut cap, id(1), InstanceType::Whitelisted, "w".to_string(), 0, 0, NOW, vec![id(8)], Vec::new(), key(1)).unwrap();
    assert_eq!(add_whitelist(&cfg, &mut inst, id(1), id(8)), Err(ErrorCode::ExistingValue));
    assert!(inst.whitelist.is_empty());
}

#[test]
fn grant_private_instance_rules() {
    let cfg = config();
    let mut inst = manager_instance(InstanceType::Private);
    assert_eq!(grant_private_instance(&cfg, &mut inst, id(2), id(8)), Err(ErrorCode::NotManager));
    assert_eq!(grant_private_instance(&cfg, &mut inst, id(1), id(8)), Ok(()));
    assert_eq!(inst.consumers, vec![id(8)]);
    assert_eq!(grant_private_instance(&cfg, &mut inst, id(1), id(8)), Err(ErrorCode::ExistingValue));
    let mut public = manager_instance(InstanceType::Public);
    assert_eq!(grant_private_instance(&cfg, &mut public, id(1), id(8)), Err(ErrorCode::NotAuthorized));
    for n in 0..199u16 {
        assert_eq!(grant_private_instance(&cfg, &mut inst, id(1), key(n)), Ok(()));
    }
    assert_eq!(grant_private_instance(&cfg, &mut inst, id(1), id(9)), Err(ErrorCode::LimitExceeded));
    assert_eq!(inst.consumers.len(), 200);
}

#[test]
fn select_capability_prefers_own_active_admin() {
    let cfg = config();
    let mut q = AdminRequestQueue::new();
    let admin = approve_admin(&cfg, &mut q, id(1), id(3)).unwrap();
    let captain = claim_captainship(&cfg, id(3));
    assert!(matches!(select_capability(Some(admin), Some(captain), id(3)), Capability::AdminProof(_)));
}

#[test]
fn select_capability_falls_back_to_captain() {
    let mut cfg = config();
    let mut q = AdminRequestQueue::new();
    let mut admin = approve_admin(&cfg, &mut q, id(1), id(3)).unwrap();
    set_admin_status(&cfg, &mut admin, id(1), false).unwrap();
    let captain = claim_captainship(&cfg, id(3));
    let mut cap = select_capability(Some(admin), Some(captain), id(3));
    assert!(matches!(cap, Capability::CaptainProof(_)));
    assert!(create(&mut cfg, &mut cap, id(3), InstanceType::Metered, "m", key(1)).is_ok());
    assert_eq!(captain_remaining(&cap), 4);
    let other = approve_admin(&cfg, &mut q, id(1), id(9)).unwrap();
    let captain = claim_captainship(&cfg, id(3));
    assert!(matches!(select_capability(Some(other), Some(captain), id(3)), Capability::CaptainProof(_)));
}

#[test]
fn select_capability_without_captain() {
    let cfg = config();
    let mut q = AdminRequestQueue::new();
    let mut admin = approve_admin(&cfg, &mut q, id(1), id(3)).unwrap();
    set_admin_status(&cfg, &mut admin, id(1), false).unwrap();
    assert!(matches!(select_capability(Some(admin), None, id(3)), Capability::AdminProof(_)));
    assert!(matches!(select_capability(None, None, id(3)), Capability::NoCapability));
}
