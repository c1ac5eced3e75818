use std::collections::HashMap;

use safrimba::answers::{CycleStatus, QueryAnswer};
use safrimba::contract::{
    cycle_info_keys, execute, execute_faults, instantiate, member_info_keys, payout_keys, query,
    query_keys, query_overflows, try_execute, try_query,
};
use safrimba::error::ContractError;
use safrimba::msg::{Action, CallContext, Coin, ExecuteMsg, InstantiateMsg, Query, QueryMsg};
use safrimba::response::{Label, Outcome};
use safrimba::state::{DistributionMode, MemberProfile, StartConditionAuto, StartMode, TontineState};
use safrimba::storage::{contribution_key, decode_contribution, encode_contribution};

const GENESIS: u64 = 1_571_797_419_879_305_533;
const HEIGHT: u64 = 12345;
const SECOND: u64 = 1_000_000_000;

/// A host that keeps the stored payment records and validates every address.
struct Host {
    records: HashMap<Vec<u8>, Vec<u8>>,
}

impl Host {
    fn new() -> Host {
        Host { records: HashMap::new() }
    }

    fn run(&mut self, state: &mut TontineState, ctx: &CallContext, action: Action) -> Result<Outcome, ContractError> {
        let checks: Vec<Option<String>> = action.addresses().into_iter().map(Some).collect();
        self.run_checked(state, ctx, action, checks)
    }

    fn run_checked(
        &mut self,
        state: &mut TontineState,
        ctx: &CallContext,
        action: Action,
        checks: Vec<Option<String>>,
    ) -> Result<Outcome, ContractError> {
        let stored: Vec<Option<Vec<u8>>> = match action {
            Action::TriggerPayout {} => payout_keys(state).iter().map(|k| self.records.get(k).cloned()).collect(),
            _ => Vec::new(),
        };
        let msg = ExecuteMsg { action };
        assert!(!execute_faults(state, ctx, &msg, &checks, &stored));
        let r = execute(state, ctx, &msg, &checks, &stored);
        if let Ok(o) = &r {
            if let Some((k, v)) = &o.record {
                self.records.insert(k.clone(), v.clone());
            }
        }
        r
    }
}

fn ctx(sender: &str, usaf: u128, time: u64) -> CallContext {
    let funds = if usaf == 0 { vec![] } else { vec![Coin { denom: "usaf".to_string(), amount: usaf }] };
    CallContext { sender: sender.to_string(), funds, block_time: time, block_height: HEIGHT }
}

fn group(admin: &str, members: &[&str], caution: u128) -> InstantiateMsg {
    InstantiateMsg {
        name: "Test Group".to_string(),
        symbol: "TST".to_string(),
        admin: admin.to_string(),
        members: members.iter().map(|m| m.to_string()).collect(),
        member_profiles: None,
        contribution_amount: 100,
        total_cycles: 5,
        cycle_duration: 30 * 24 * 60 * 60,
        distribution_mode: DistributionMode::Fifo,
        start_mode: StartMode::Manual,
        start_condition_auto: None,
        deposit_deadline: 24 * 60 * 60,
        grace_seconds: 3600,
        late_penalty_percent: 10,
        late_strike_limit: 3,
        distribution_calendar: vec![admin.to_string()],
        allow_member_exit: true,
        allow_member_add: true,
        early_withdrawal_penalty: 5,
        forbid_overpay: true,
        forbid_underpay: true,
        max_members: 10,
        caution_deposit: caution,
    }
}

#[test]
fn test_instantiate_add_member_and_deposit() {
    let admin = "addr_safro1admin";
    let member = "addr_safro1member";
    let (mut state, outcome) = instantiate(group(admin, &[admin], 50)).unwrap();
    assert_eq!(outcome.label, Label::Instantiate);
    assert_eq!(outcome.label.attribute_key(), "method");
    assert_eq!(outcome.label.attribute_value(), "instantiate");
    let mut host = Host::new();
    // No funds go along with the request, so the caution deposit of 50 is missing.
    let r = host.run(
        &mut state,
        &ctx(admin, 0, GENESIS),
        Action::AddMember { addr: member.to_string(), pseudo: Some("Member1".to_string()) },
    );
    assert_eq!(r.err(), Some(ContractError::InsufficientCautionDeposit));
    // Starting works as written.
    let r = host.run(&mut state, &ctx(admin, 0, GENESIS), Action::InitiateStart {});
    assert!(r.is_ok());
    // The member was never added, so its deposit is refused.
    let r = host.run(&mut state, &ctx(member, 0, GENESIS), Action::Deposit { cycle: 1 });
    assert_eq!(r.err(), Some(ContractError::NotAMember));
}

#[test]
fn test_add_member_and_deposit_with_funds() {
    let admin = "addr_safro1admin";
    let member = "addr_safro1member";
    let (mut state, _) = instantiate(group(admin, &[admin], 50)).unwrap();
    let mut host = Host::new();
    let o = host
        .run(
            &mut state,
            &ctx(admin, 50, GENESIS),
            Action::AddMember { addr: member.to_string(), pseudo: Some("Member1".to_string()) },
        )
        .unwrap();
    assert_eq!(o.label.attribute_value(), "add_member");
    assert_eq!(state.members, vec![admin.to_string(), member.to_string()]);
    assert_eq!(state.locked_caution, 50);
    let p = state.member_profiles.get(&member.to_string()).unwrap();
    assert_eq!(p.pseudo, Some("Member1".to_string()));
    host.run(&mut state, &ctx(admin, 0, GENESIS), Action::InitiateStart {}).unwrap();
    assert_eq!(state.current_cycle, 1);
    assert_eq!(state.current_cycle_start, Some(GENESIS));
    assert!(state.calendar_locked);
    let o = host.run(&mut state, &ctx(member, 100, GENESIS), Action::Deposit { cycle: 1 }).unwrap();
    let (key, value) = o.record.unwrap();
    assert_eq!(key, contribution_key(&member.to_string(), 1));
    assert_eq!(value, b"\"100\"".to_vec());
    assert_eq!(decode_contribution(&value), Some(100));
}

#[test]
fn test_fifo_example_workflow() {
    let names = ["a", "b", "c", "d", "e"];
    let mut msg = group("a", &names, 0);
    msg.distribution_calendar = vec![];
    let (mut state, _) = instantiate(msg).unwrap();
    let mut host = Host::new();
    host.run(&mut state, &ctx("a", 0, GENESIS), Action::ComputeDistributionCalendar {}).unwrap();
    assert_eq!(state.distribution_calendar, state.members);
    host.run(&mut state, &ctx("a", 0, GENESIS), Action::InitiateStart {}).unwrap();
    for cycle in 1..=5u32 {
        let now = GENESIS + (cycle as u64) * SECOND;
        for n in names.iter() {
            host.run(&mut state, &ctx(n, 100, now), Action::Deposit { cycle }).unwrap();
        }
        let o = host.run(&mut state, &ctx("a", 0, now), Action::TriggerPayout {}).unwrap();
        let p = o.payout.unwrap();
        assert_eq!(p.recipient, names[(cycle - 1) as usize]);
        assert_eq!(p.amount, 500);
        assert_eq!(state.current_cycle, cycle + 1);
        assert_eq!(state.completed, cycle == 5);
    }
}

#[test]
fn test_payout_requires_every_contribution() {
    let (mut state, _) = instantiate(group("a", &["a", "b"], 0)).unwrap();
    state.distribution_calendar = vec!["a".to_string(), "b".to_string()];
    let mut host = Host::new();
    host.run(&mut state, &ctx("a", 0, GENESIS), Action::InitiateStart {}).unwrap();
    host.run(&mut state, &ctx("a", 100, GENESIS), Action::Deposit { cycle: 1 }).unwrap();
    let r = host.run(&mut state, &ctx("a", 0, GENESIS), Action::TriggerPayout {});
    assert_eq!(r.err(), Some(ContractError::MissingContribution));
    assert_eq!(state.current_cycle, 1);
    let r = host.run(&mut state, &ctx("b", 0, GENESIS), Action::TriggerPayout {});
    assert_eq!(r.err(), Some(ContractError::OnlyAdminTriggerPayout));
}

#[test]
fn test_payout_with_unreadable_record() {
    let (mut state, _) = instantiate(group("a", &["a"], 0)).unwrap();
    let mut host = Host::new();
    host.run(&mut state, &ctx("a", 0, GENESIS), Action::InitiateStart {}).unwrap();
    host.records.insert(contribution_key(&"a".to_string(), 1), b"oops".to_vec());
    let r = host.run(&mut state, &ctx("a", 0, GENESIS), Action::TriggerPayout {});
    assert_eq!(r.err(), Some(ContractError::UnreadableContribution));
}

#[test]
fn test_payout_calendar_incomplete_and_recipient_missing() {
    let (mut state, _) = instantiate(group("a", &["a", "b"], 0)).unwrap();
    let mut host = Host::new();
    host.run(&mut state, &ctx("a", 0, GENESIS), Action::InitiateStart {}).unwrap();
    let r = host.run(&mut state, &ctx("a", 0, GENESIS), Action::TriggerPayout {});
    assert_eq!(r.err(), Some(ContractError::CalendarIncomplete));

    let (mut state, _) = instantiate(group("a", &[], 0)).unwrap();
    state.distribution_calendar = vec![];
    host.run(&mut state, &ctx("a", 0, GENESIS), Action::InitiateStart {}).unwrap();
    let r = host.run(&mut state, &ctx("a", 0, GENESIS), Action::TriggerPayout {});
    assert_eq!(r.err(), Some(ContractError::RecipientNotFound));
}

#[test]
fn test_payout_includes_penalties() {
    let (mut state, _) = instantiate(group("a", &["a"], 0)).unwrap();
    let mut host = Host::new();
    host.run(&mut state, &ctx("a", 0, GENESIS), Action::InitiateStart {}).unwrap();
    host.run(&mut state, &ctx("a", 0, GENESIS), Action::ApplyPenalty { addr: "a".to_string() }).unwrap();
    assert_eq!(state.penalties_reserve, 10);
    host.run(&mut state, &ctx("a", 0, GENESIS), Action::DistributePenalties {}).unwrap();
    assert_eq!(state.penalties_reserve, 0);
    assert_eq!(state.penalties_carry_over, 10);
    host.run(&mut state, &ctx("a", 0, GENESIS), Action::ApplyPenalty { addr: "a".to_string() }).unwrap();
    host.run(&mut state, &ctx("a", 100, GENESIS), Action::Deposit { cycle: 1 }).unwrap();
    let o = host.run(&mut state, &ctx("a", 0, GENESIS + SECOND), Action::TriggerPayout {}).unwrap();
    assert_eq!(o.payout.unwrap().amount, 120);
    assert_eq!(state.penalties_reserve, 0);
    assert_eq!(state.penalties_carry_over, 0);
    assert_eq!(state.current_cycle_start, Some(GENESIS + SECOND));
}

#[test]
fn test_deposit_rules() {
    let (mut state, _) = instantiate(group("a", &["a", "b"], 0)).unwrap();
    let mut host = Host::new();
    let r = host.run(&mut state, &ctx("a", 100, GENESIS), Action::Deposit { cycle: 0 });
    assert_eq!(r.err(), Some(ContractError::NotStarted));
    let r = host.run(&mut state, &ctx("z", 100, GENESIS), Action::Deposit { cycle: 0 });
    assert_eq!(r.err(), Some(ContractError::NotAMember));
    host.run(&mut state, &ctx("a", 0, GENESIS), Action::InitiateStart {}).unwrap();
    let r = host.run(&mut state, &ctx("a", 100, GENESIS), Action::Deposit { cycle: 2 });
    assert_eq!(r.err(), Some(ContractError::InvalidCycle));
    let r = host.run(&mut state, &ctx("a", 101, GENESIS), Action::Deposit { cycle: 1 });
    assert_eq!(r.err(), Some(ContractError::OverpaymentNotAllowed));
    let r = host.run(&mut state, &ctx("a", 99, GENESIS), Action::Deposit { cycle: 1 });
    assert_eq!(r.err(), Some(ContractError::UnderpaymentNotAllowed));
    let closed = GENESIS + (24 * 60 * 60 + 3600 + 1) * SECOND;
    let r = host.run(&mut state, &ctx("a", 100, closed), Action::Deposit { cycle: 1 });
    assert_eq!(r.err(), Some(ContractError::DepositWindowClosed));
    // Coins of another denomination do not count.
    let c = CallContext {
        sender: "a".to_string(),
        funds: vec![
            Coin { denom: "other".to_string(), amount: 100 },
            Coin { denom: "usaf".to_string(), amount: 100 },
        ],
        block_time: GENESIS,
        block_height: HEIGHT,
    };
    assert_eq!(c.native_sent(), 100);
    assert!(host.run(&mut state, &c, Action::Deposit { cycle: 1 }).is_ok());
    let mut lax = group("a", &["a"], 0);
    lax.forbid_overpay = false;
    lax.forbid_underpay = false;
    let (mut state, _) = instantiate(lax).unwrap();
    host.run(&mut state, &ctx("a", 0, GENESIS), Action::InitiateStart {}).unwrap();
    assert!(host.run(&mut state, &ctx("a", 7, GENESIS), Action::Deposit { cycle: 1 }).is_ok());
}

#[test]
fn test_late_deposit_strikes_and_exclusion() {
    let mut msg = group("a", &["a", "b"], 0);
    msg.late_strike_limit = 1;
    let (mut state, _) = instantiate(msg).unwrap();
    let mut host = Host::new();
    host.run(&mut state, &ctx("a", 0, GENESIS), Action::InitiateStart {}).unwrap();
    let late = GENESIS + (24 * 60 * 60 + 10) * SECOND;
    host.run(&mut state, &ctx("b", 100, late), Action::Deposit { cycle: 1 }).unwrap();
    assert_eq!(state.member_strikes.get(&"b".to_string()), Some(&1));
    assert_eq!(state.penalties_reserve, 10);
    assert!(state.members.contains(&"b".to_string()));
    host.run(&mut state, &ctx("b", 100, late), Action::Deposit { cycle: 1 }).unwrap();
    assert_eq!(state.member_strikes.get(&"b".to_string()), Some(&2));
    assert_eq!(state.penalties_reserve, 20);
    assert_eq!(state.members, vec!["a".to_string()]);
    // An on-time deposit costs nothing.
    host.run(&mut state, &ctx("a", 100, GENESIS), Action::Deposit { cycle: 1 }).unwrap();
    assert_eq!(state.member_strikes.get(&"a".to_string()), None);
}

#[test]
fn test_record_late_payment() {
    let mut msg = group("a", &["a", "b"], 0);
    msg.late_strike_limit = 0;
    let (mut state, _) = instantiate(msg).unwrap();
    let mut host = Host::new();
    host.run(&mut state, &ctx("b", 0, GENESIS), Action::RecordLatePayment { addr: "b".to_string() }).unwrap();
    assert_eq!(state.member_strikes.get(&"b".to_string()), Some(&1));
    assert_eq!(state.members, vec!["a".to_string()]);
    assert_eq!(state.penalties_reserve, 10);
    let r = host.run_checked(&mut state, &ctx("b", 0, GENESIS), Action::RecordLatePayment { addr: "B".to_string() }, vec![None]);
    assert_eq!(r.err(), Some(ContractError::InvalidAddress { index: 0 }));
}

#[test]
fn test_strike_overflow_is_a_fault() {
    let (mut state, _) = instantiate(group("a", &["a"], 0)).unwrap();
    state.member_strikes.insert("a".to_string(), 255);
    let msg = ExecuteMsg { action: Action::RecordLatePayment { addr: "a".to_string() } };
    let checks = vec![Some("a".to_string())];
    assert!(execute_faults(&state, &ctx("a", 0, GENESIS), &msg, &checks, &vec![]));
    state.penalties_reserve = u128::MAX;
    let msg = ExecuteMsg { action: Action::ApplyPenalty { addr: "a".to_string() } };
    assert!(execute_faults(&state, &ctx("a", 0, GENESIS), &msg, &checks, &vec![]));
    assert!(try_execute(&mut state, &ctx("a", 0, GENESIS), &msg, &checks, &vec![]).is_none());
    assert_eq!(state.penalties_reserve, u128::MAX);
    state.penalties_reserve = 0;
    assert!(!execute_faults(&state, &ctx("a", 0, GENESIS), &msg, &checks, &vec![]));
    let r = try_execute(&mut state, &ctx("a", 0, GENESIS), &msg, &checks, &vec![]);
    assert!(matches!(r, Some(Ok(_))));
    assert_eq!(state.penalties_reserve, 10);
}

#[test]
fn test_late_deposit_time_overflow_is_a_fault() {
    let mut msg = group("a", &["a"], 0);
    msg.deposit_deadline = u64::MAX / 1_000_000_000 + 1;
    let (mut state, _) = instantiate(msg).unwrap();
    let mut host = Host::new();
    host.run(&mut state, &ctx("a", 0, GENESIS), Action::InitiateStart {}).unwrap();
    let m = ExecuteMsg { action: Action::Deposit { cycle: 1 } };
    assert!(execute_faults(&state, &ctx("a", 100, GENESIS), &m, &vec![], &vec![]));
    // Checks that come before the window arithmetic still refuse.
    assert!(!execute_faults(&state, &ctx("z", 100, GENESIS), &m, &vec![], &vec![]));
}

#[test]
fn test_add_member_rules() {
    let mut msg = group("a", &["a"], 50);
    msg.max_members = 2;
    let (mut state, _) = instantiate(msg).unwrap();
    let mut host = Host::new();
    let r = host.run(&mut state, &ctx("x", 50, GENESIS), Action::AddMember { addr: "a".to_string(), pseudo: None });
    assert_eq!(r.err(), Some(ContractError::MemberAlreadyExists));
    let r = host.run_checked(&mut state, &ctx("x", 50, GENESIS), Action::AddMember { addr: "BAD".to_string(), pseudo: None }, vec![None]);
    assert_eq!(r.err(), Some(ContractError::InvalidAddress { index: 0 }));
    host.run(&mut state, &ctx("x", 60, GENESIS), Action::AddMember { addr: "b".to_string(), pseudo: None }).unwrap();
    let r = host.run(&mut state, &ctx("x", 50, GENESIS), Action::AddMember { addr: "c".to_string(), pseudo: None });
    assert_eq!(r.err(), Some(ContractError::MaxMembersReached));
    assert_eq!(state.members.len(), 2);
    state.max_members = 10;
    host.run(&mut state, &ctx("a", 0, GENESIS), Action::InitiateStart {}).unwrap();
    let r = host.run(&mut state, &ctx("x", 50, GENESIS), Action::AddMember { addr: "c".to_string(), pseudo: None });
    assert_eq!(r.err(), Some(ContractError::AddAfterStart));
    let mut closed = group("a", &["a"], 0);
    closed.allow_member_add = false;
    let (mut state, _) = instantiate(closed).unwrap();
    let r = host.run(&mut state, &ctx("x", 0, GENESIS), Action::AddMember { addr: "c".to_string(), pseudo: None });
    assert_eq!(r.err(), Some(ContractError::MemberAddNotAllowed));
    assert_eq!(ContractError::MemberAddNotAllowed.message(), "Member addition not allowed");
}

#[test]
fn test_remove_update_and_replace_members() {
    let (mut state, _) = instantiate(group("a", &["a", "b", "c"], 0)).unwrap();
    let mut host = Host::new();
    host.run(&mut state, &ctx("a", 0, GENESIS), Action::UpdateProfile { addr: "b".to_string(), pseudo: Some("Bee".to_string()) }).unwrap();
    assert_eq!(state.member_profiles.get(&"b".to_string()).unwrap().pseudo, Some("Bee".to_string()));
    let r = host.run(&mut state, &ctx("a", 0, GENESIS), Action::UpdateProfile { addr: "z".to_string(), pseudo: None });
    assert_eq!(r.err(), Some(ContractError::MemberNotFound));
    let r = host.run(&mut state, &ctx("b", 0, GENESIS), Action::UpdateProfile { addr: "b".to_string(), pseudo: None });
    assert_eq!(r.err(), Some(ContractError::OnlyAdminUpdateProfiles));
    let r = host.run(&mut state, &ctx("b", 0, GENESIS), Action::RemoveMember { addr: "c".to_string() });
    assert_eq!(r.err(), Some(ContractError::OnlyAdminRemoveMembers));
    host.run(&mut state, &ctx("a", 0, GENESIS), Action::RemoveMember { addr: "b".to_string() }).unwrap();
    assert_eq!(state.members, vec!["a".to_string(), "c".to_string()]);
    assert!(state.member_profiles.get(&"b".to_string()).is_none());
    host.run(&mut state, &ctx("a", 0, GENESIS), Action::ReplaceMember { old_addr: "a".to_string(), new_addr: "d".to_string() }).unwrap();
    assert_eq!(state.members, vec!["c".to_string(), "d".to_string()]);
    let r = host.run_checked(
        &mut state,
        &ctx("a", 0, GENESIS),
        Action::ReplaceMember { old_addr: "c".to_string(), new_addr: "??".to_string() },
        vec![Some("c".to_string()), None],
    );
    assert_eq!(r.err(), Some(ContractError::InvalidAddress { index: 1 }));
    let r = host.run(&mut state, &ctx("c", 0, GENESIS), Action::ReplaceMember { old_addr: "c".to_string(), new_addr: "e".to_string() });
    assert_eq!(r.err(), Some(ContractError::OnlyAdminReplaceMember));
    host.run(&mut state, &ctx("a", 0, GENESIS), Action::InitiateStart {}).unwrap();
    let r = host.run(&mut state, &ctx("a", 0, GENESIS), Action::UpdateProfile { addr: "c".to_string(), pseudo: None });
    assert_eq!(r.err(), Some(ContractError::ProfileUpdateAfterStart));
}

#[test]
fn test_start_rules() {
    let (mut state, _) = instantiate(group("a", &["a"], 0)).unwrap();
    let mut host = Host::new();
    let r = host.run(&mut state, &ctx("b", 0, GENESIS), Action::InitiateStart {});
    assert_eq!(r.err(), Some(ContractError::OnlyAdminStart));
    let r = host.run(&mut state, &ctx("a", 0, GENESIS), Action::AutoStart {});
    assert_eq!(r.err(), Some(ContractError::AutoStartNotAllowed));
    host.run(&mut state, &ctx("a", 0, GENESIS), Action::InitiateStart {}).unwrap();
    let r = host.run(&mut state, &ctx("a", 0, GENESIS), Action::InitiateStart {});
    assert_eq!(r.err(), Some(ContractError::AlreadyStarted));

    let mut auto = group("a", &["a"], 0);
    auto.start_mode = StartMode::Auto;
    auto.start_condition_auto = Some(StartConditionAuto::MembersReached(2));
    let (mut state, _) = instantiate(auto).unwrap();
    let r = host.run(&mut state, &ctx("a", 0, GENESIS), Action::InitiateStart {});
    assert_eq!(r.err(), Some(ContractError::ManualStartNotAllowed));
    let r = host.run(&mut state, &ctx("x", 0, GENESIS), Action::AutoStart {});
    assert_eq!(r.err(), Some(ContractError::AutoStartConditionsNotMet));
    host.run(&mut state, &ctx("x", 0, GENESIS), Action::AddMember { addr: "b".to_string(), pseudo: None }).unwrap();
    host.run(&mut state, &ctx("x", 0, GENESIS), Action::AutoStart {}).unwrap();
    assert_eq!(state.current_cycle, 1);

    let mut dated = group("a", &["a"], 0);
    dated.start_mode = StartMode::Auto;
    dated.start_condition_auto = Some(StartConditionAuto::StartDate(GENESIS + 5));
    let (mut state, _) = instantiate(dated).unwrap();
    let r = host.run(&mut state, &ctx("x", 0, GENESIS), Action::AutoStart {});
    assert_eq!(r.err(), Some(ContractError::AutoStartConditionsNotMet));
    host.run(&mut state, &ctx("x", 0, GENESIS + 5), Action::AutoStart {}).unwrap();
    assert_eq!(state.current_cycle_start, Some(GENESIS + 5));

    let mut never = group("a", &["a"], 0);
    never.start_mode = StartMode::Auto;
    let (mut state, _) = instantiate(never).unwrap();
    let r = host.run(&mut state, &ctx("x", 0, GENESIS), Action::AutoStart {});
    assert_eq!(r.err(), Some(ContractError::AutoStartConditionsNotMet));
}

#[test]
fn test_calendar_modes_and_lock() {
    let mut msg = group("a", &["a", "b", "c"], 0);
    msg.distribution_mode = DistributionMode::Random;
    let (mut state, _) = instantiate(msg).unwrap();
    let mut host = Host::new();
    let mut c = ctx("a", 0, GENESIS);
    c.block_height = 12345;
    host.run(&mut state, &c, Action::ComputeDistributionCalendar {}).unwrap();
    // 12345 % 3 == 0: no rotation.
    assert_eq!(state.distribution_calendar, vec!["a".to_string(), "b".to_string(), "c".to_string()]);
    c.block_height = 7;
    host.run(&mut state, &c, Action::ComputeDistributionCalendar {}).unwrap();
    assert_eq!(state.distribution_calendar, vec!["b".to_string(), "c".to_string(), "a".to_string()]);
    let r = host.run(&mut state, &ctx("b", 0, GENESIS), Action::ComputeDistributionCalendar {});
    assert_eq!(r.err(), Some(ContractError::OnlyAdminComputeCalendar));
    host.run(&mut state, &ctx("a", 0, GENESIS), Action::InitiateStart {}).unwrap();
    let r = host.run(&mut state, &c, Action::ComputeDistributionCalendar {});
    assert_eq!(r.err(), Some(ContractError::CalendarLocked));
    let o = host.run(&mut state, &ctx("z", 0, GENESIS), Action::ViewCalendar {}).unwrap();
    assert!(!o.persist);
    assert_eq!(o.label.attribute_key(), "calendar");
    assert_eq!(o.calendar.unwrap(), vec!["b".to_string(), "c".to_string(), "a".to_string()]);

    let mut custom = group("a", &["a", "b"], 0);
    custom.distribution_mode = DistributionMode::Custom;
    custom.distribution_calendar = vec!["b".to_string(), "a".to_string()];
    let (mut state, _) = instantiate(custom).unwrap();
    host.run(&mut state, &ctx("a", 0, GENESIS), Action::ComputeDistributionCalendar {}).unwrap();
    assert_eq!(state.distribution_calendar, vec!["b".to_string(), "a".to_string()]);
}

#[test]
fn test_exit_flow() {
    let (mut state, _) = instantiate(group("a", &["a", "b", "c"], 0)).unwrap();
    let mut host = Host::new();
    host.run(&mut state, &ctx("b", 0, GENESIS), Action::RequestExit {}).unwrap();
    let r = host.run(&mut state, &ctx("b", 0, GENESIS), Action::RequestExit {});
    assert_eq!(r.err(), Some(ContractError::ExitAlreadyRequested));
    let r = host.run(&mut state, &ctx("z", 0, GENESIS), Action::RequestExit {});
    assert_eq!(r.err(), Some(ContractError::NotAMember));
    host.run(&mut state, &ctx("c", 0, GENESIS), Action::RequestExit {}).unwrap();
    assert_eq!(state.pending_exits, vec!["b".to_string(), "c".to_string()]);
    let r = host.run(&mut state, &ctx("b", 0, GENESIS), Action::ProcessExit {});
    assert_eq!(r.err(), Some(ContractError::OnlyAdminProcessExit));
    host.run(&mut state, &ctx("a", 0, GENESIS), Action::ProcessExit {}).unwrap();
    assert_eq!(state.members, vec!["a".to_string()]);
    assert!(state.pending_exits.is_empty());
    // Two exits at 5% of 100 each.
    assert_eq!(state.penalties_reserve, 10);
    let mut stay = group("a", &["a"], 0);
    stay.allow_member_exit = false;
    let (mut state, _) = instantiate(stay).unwrap();
    let r = host.run(&mut state, &ctx("a", 0, GENESIS), Action::RequestExit {});
    assert_eq!(r.err(), Some(ContractError::MemberExitNotAllowed));
}

#[test]
fn test_distribute_penalties_rules() {
    let (mut state, _) = instantiate(group("a", &[], 0)).unwrap();
    state.penalties_reserve = 30;
    let mut host = Host::new();
    let r = host.run(&mut state, &ctx("b", 0, GENESIS), Action::DistributePenalties {});
    assert_eq!(r.err(), Some(ContractError::OnlyAdminDistributePenalties));
    host.run(&mut state, &ctx("a", 0, GENESIS), Action::DistributePenalties {}).unwrap();
    // With no members the reserve stays where it is.
    assert_eq!(state.penalties_reserve, 30);
    assert_eq!(state.penalties_carry_over, 0);
}

#[test]
fn test_refusal_changes_nothing() {
    let (mut state, _) = instantiate(group("a", &["a"], 0)).unwrap();
    let before = state.duplicate();
    let mut host = Host::new();
    let r = host.run(&mut state, &ctx("b", 0, GENESIS), Action::ProcessExit {});
    assert!(r.is_err());
    assert_eq!(state.members, before.members);
    assert_eq!(state.current_cycle, before.current_cycle);
    assert_eq!(state.penalties_reserve, before.penalties_reserve);
}

fn ask(host: &Host, state: &TontineState, q: Query, checks: Vec<Option<String>>) -> Result<QueryAnswer, ContractError> {
    let m = QueryMsg { query: q };
    let stored: Vec<Option<Vec<u8>>> =
        query_keys(state, &m, &checks).iter().map(|k| host.records.get(k).cloned()).collect();
    assert!(!query_overflows(state, &m, &stored));
    query(state, &m, &checks, &stored)
}

#[test]
fn test_queries() {
    let mut msg = group("a", &["a", "b"], 0);
    msg.member_profiles = Some(vec![
        ("b".to_string(), MemberProfile { pseudo: Some("first".to_string()) }),
        ("b".to_string(), MemberProfile { pseudo: Some("second".to_string()) }),
    ]);
    let (mut state, _) = instantiate(msg).unwrap();
    let mut host = Host::new();
    host.records.insert(contribution_key(&"b".to_string(), 1), encode_contribution(40));
    host.records.insert(contribution_key(&"a".to_string(), 1), encode_contribution(60));
    state.member_strikes.insert("b".to_string(), 2);
    state.penalties_reserve = 3;
    state.penalties_carry_over = 4;
    match ask(&host, &state, Query::GetGroupInfo {}, vec![]).unwrap() {
        QueryAnswer::GroupInfo(g) => {
            assert_eq!(g.name, "Test Group");
            assert_eq!(g.members, vec!["a".to_string(), "b".to_string()]);
            assert_eq!(g.member_profiles.len(), 1);
            assert_eq!(g.member_profiles[0].1.pseudo, Some("second".to_string()));
            assert_eq!(g.strikes, vec![("b".to_string(), 2)]);
            assert_eq!(g.penalties_reserve, 3);
        }
        _ => panic!("wrong answer"),
    }
    match ask(&host, &state, Query::GetMemberInfo { addr: "b".to_string() }, vec![Some("b".to_string())]).unwrap() {
        QueryAnswer::MemberInfo(m) => {
            assert_eq!(m.addr, "b");
            assert_eq!(m.profile.unwrap().pseudo, Some("second".to_string()));
            assert_eq!(m.strikes, 2);
            assert_eq!(m.contributions, vec![(1, 40)]);
        }
        _ => panic!("wrong answer"),
    }
    let r = ask(&host, &state, Query::GetMemberInfo { addr: "B".to_string() }, vec![None]);
    assert_eq!(r.err(), Some(ContractError::InvalidAddress { index: 0 }));
    match ask(&host, &state, Query::GetCycleInfo { cycle: 1 }, vec![]).unwrap() {
        QueryAnswer::CycleInfo(c) => {
            assert_eq!(c.status, CycleStatus::Future);
            assert_eq!(c.status.as_str(), "future");
            assert_eq!(c.recipient, Some("a".to_string()));
            assert_eq!(c.total_contributions, 100);
            assert_eq!(c.penalties, 7);
        }
        _ => panic!("wrong answer"),
    }
    match ask(&host, &state, Query::GetCycleInfo { cycle: 0 }, vec![]).unwrap() {
        QueryAnswer::CycleInfo(c) => {
            assert_eq!(c.status, CycleStatus::Open);
            assert_eq!(c.recipient, Some("a".to_string()));
            assert_eq!(c.total_contributions, 0);
        }
        _ => panic!("wrong answer"),
    }
    match ask(&host, &state, Query::GetCycleInfo { cycle: 9 }, vec![]).unwrap() {
        QueryAnswer::CycleInfo(c) => assert_eq!(c.recipient, None),
        _ => panic!("wrong answer"),
    }
    match ask(&host, &state, Query::GetDistributionCalendar {}, vec![]).unwrap() {
        QueryAnswer::DistributionCalendar(c) => assert_eq!(c, vec!["a".to_string()]),
        _ => panic!("wrong answer"),
    }
    host.records.insert(contribution_key(&"a".to_string(), 1), b"junk".to_vec());
    let r = ask(&host, &state, Query::GetCycleInfo { cycle: 1 }, vec![]);
    assert_eq!(r.err(), Some(ContractError::UnreadableContribution));
    let r = ask(&host, &state, Query::GetMemberInfo { addr: "a".to_string() }, vec![Some("a".to_string())]);
    assert_eq!(r.err(), Some(ContractError::UnreadableContribution));
    host.records.insert(contribution_key(&"a".to_string(), 1), encode_contribution(60));
    state.penalties_reserve = u128::MAX;
    let cycle_query = QueryMsg { query: Query::GetCycleInfo { cycle: 1 } };
    let stored: Vec<Option<Vec<u8>>> =
        query_keys(&state, &cycle_query, &vec![]).iter().map(|k| host.records.get(k).cloned()).collect();
    assert!(query_overflows(&state, &cycle_query, &stored));
    assert!(try_query(&state, &cycle_query, &vec![], &stored).is_none());
    let calendar_query = QueryMsg { query: Query::GetDistributionCalendar {} };
    assert!(matches!(try_query(&state, &calendar_query, &vec![], &vec![]), Some(Ok(_))));
}

#[test]
fn test_member_report_lists_payments() {
    let (mut state, _) = instantiate(group("a", &["a", "b"], 0)).unwrap();
    state.distribution_calendar = vec!["a".to_string(), "b".to_string()];
    let mut host = Host::new();
    host.run(&mut state, &ctx("a", 0, GENESIS), Action::InitiateStart {}).unwrap();
    host.run(&mut state, &ctx("b", 100, GENESIS), Action::Deposit { cycle: 1 }).unwrap();
    host.run(&mut state, &ctx("a", 100, GENESIS), Action::Deposit { cycle: 1 }).unwrap();
    host.run(&mut state, &ctx("a", 0, GENESIS + SECOND), Action::TriggerPayout {}).unwrap();
    host.run(&mut state, &ctx("b", 100, GENESIS + SECOND), Action::Deposit { cycle: 2 }).unwrap();
    let checks = vec![Some("b".to_string())];
    let m = QueryMsg { query: Query::GetMemberInfo { addr: "b".to_string() } };
    assert_eq!(
        member_info_keys(&state, &"b".to_string()),
        vec![contribution_key(&"b".to_string(), 1), contribution_key(&"b".to_string(), 2)]
    );
    assert_eq!(query_keys(&state, &m, &checks), member_info_keys(&state, &"b".to_string()));
    match ask(&host, &state, Query::GetMemberInfo { addr: "b".to_string() }, checks).unwrap() {
        QueryAnswer::MemberInfo(info) => assert_eq!(info.contributions, vec![(1, 100), (2, 100)]),
        _ => panic!("wrong answer"),
    }
    match ask(&host, &state, Query::GetCycleInfo { cycle: 2 }, vec![]).unwrap() {
        QueryAnswer::CycleInfo(c) => {
            assert_eq!(c.total_contributions, 100);
            assert_eq!(c.status, CycleStatus::Open);
            assert_eq!(c.recipient, Some("b".to_string()));
        }
        _ => panic!("wrong answer"),
    }
    assert_eq!(cycle_info_keys(&state, 2), vec![contribution_key(&"a".to_string(), 2), contribution_key(&"b".to_string(), 2)]);
}

#[test]
fn test_too_many_initial_members() {
    let mut msg = group("a", &["a", "b", "c"], 0);
    msg.max_members = 2;
    assert_eq!(instantiate(msg).err(), Some(ContractError::TooManyMembers));
    assert_eq!(ContractError::TooManyMembers.message(), "Initial members exceed max members");
    let mut msg = group("a", &["a", "b"], 0);
    msg.max_members = 2;
    assert!(instantiate(msg).is_ok());
}

#[test]
fn test_action_addresses() {
    let a = Action::ReplaceMember { old_addr: "x".to_string(), new_addr: "y".to_string() };
    assert_eq!(a.addresses(), vec!["x".to_string(), "y".to_string()]);
    assert!(Action::TriggerPayout {}.addresses().is_empty());
}

#[test]
fn test_cycle_start_not_set_and_payout_before_start() {
    let (mut state, _) = instantiate(group("a", &["a"], 0)).unwrap();
    state.current_cycle = 1;
    let mut host = Host::new();
    let r = host.run(&mut state, &ctx("a", 100, GENESIS), Action::Deposit { cycle: 1 });
    assert_eq!(r.err(), Some(ContractError::CycleStartNotSet));
    // Before the start a payout with nobody to pay for reaches cycle 0 - 1.
    let (state, _) = instantiate(group("a", &[], 0)).unwrap();
    let m = ExecuteMsg { action: Action::TriggerPayout {} };
    assert!(execute_faults(&state, &ctx("a", 0, GENESIS), &m, &vec![], &vec![]));
    assert!(!execute_faults(&state, &ctx("b", 0, GENESIS), &m, &vec![], &vec![]));
}

#[test]
fn test_error_messages() {
    assert_eq!(ContractError::AddAfterStart.message(), "Cannot add members after start");
    assert_eq!(ContractError::InsufficientCautionDeposit.message(), "Insufficient caution deposit");
    assert_eq!(ContractError::DepositWindowClosed.message(), "Deposit window closed");
    assert_eq!(ContractError::CalendarIncomplete.message(), "Distribution calendar incomplete");
    assert_eq!(ContractError::OnlyAdminDistributePenalties.message(), "Only admin can distribute penalties");
    assert_eq!(Label::ComputeDistributionCalendar.attribute_value(), "compute_distribution_calendar");
    assert_eq!(Label::TriggerPayout.attribute_key(), "action");
    assert_eq!(CycleStatus::Closed.as_str(), "closed");
}

#[test]
fn test_cycle_report_matches_payout_and_next_cycle_opens() {
    let (mut state, _) = instantiate(group("a", &["a", "b"], 0)).unwrap();
    state.distribution_calendar = vec!["a".to_string(), "b".to_string()];
    let mut host = Host::new();
    host.run(&mut state, &ctx("a", 0, GENESIS), Action::InitiateStart {}).unwrap();
    host.run(&mut state, &ctx("a", 0, GENESIS), Action::ApplyPenalty { addr: "b".to_string() }).unwrap();
    host.run(&mut state, &ctx("a", 100, GENESIS), Action::Deposit { cycle: 1 }).unwrap();
    host.run(&mut state, &ctx("b", 100, GENESIS), Action::Deposit { cycle: 1 }).unwrap();
    let (total, penalties) = match ask(&host, &state, Query::GetCycleInfo { cycle: 1 }, vec![]).unwrap() {
        QueryAnswer::CycleInfo(c) => (c.total_contributions, c.penalties),
        _ => panic!("wrong answer"),
    };
    let o = host.run(&mut state, &ctx("a", 0, GENESIS + SECOND), Action::TriggerPayout {}).unwrap();
    assert_eq!(o.payout.unwrap().amount, total + penalties);
    assert_eq!(total + penalties, 210);
    match ask(&host, &state, Query::GetCycleInfo { cycle: 1 }, vec![]).unwrap() {
        QueryAnswer::CycleInfo(c) => assert_eq!(c.status, CycleStatus::Closed),
        _ => panic!("wrong answer"),
    }
    match ask(&host, &state, Query::GetCycleInfo { cycle: 2 }, vec![]).unwrap() {
        QueryAnswer::CycleInfo(c) => {
            assert_eq!(c.status, CycleStatus::Open);
            assert_eq!(c.recipient, Some("b".to_string()));
            assert_eq!(c.penalties, 0);
        }
        _ => panic!("wrong answer"),
    }
}
