use vstd::prelude::*;

use crate::keyed_map::{KeyedMap, Replica};

verus! {

/// Optional metadata kept for a member.
#[derive(Debug)]
pub struct MemberProfile {
    pub pseudo: Option<String>,
}

/// An optional text by view.
pub open spec fn text_view(t: Option<String>) -> Option<Seq<char>> {
    match t {
        Some(p) => Some(p@),
        None => None,
    }
}

impl MemberProfile {
    /// The profile as a spec value: the pseudonym's characters, if any.
    pub open spec fn view_pseudo(&self) -> Option<Seq<char>> {
        text_view(self.pseudo)
    }

    /// A field-for-field copy.
    pub fn duplicate(&self) -> (r: MemberProfile)
        ensures
            r.view_pseudo() == self.view_pseudo(),
    {
        match &self.pseudo {
            Some(p) => MemberProfile { pseudo: Some(p.clone()) },
            None => MemberProfile { pseudo: None },
        }
    }
}

impl DeepView for MemberProfile {
    type V = Option<Seq<char>>;

    open spec fn deep_view(&self) -> Option<Seq<char>> {
        self.view_pseudo()
    }
}

impl Replica for MemberProfile {
    fn replica(&self) -> (r: Self) {
        self.duplicate()
    }
}

/// How the payout order is built.
#[derive(Clone, Copy, Debug, PartialEq, Eq, Structural)]
pub enum DistributionMode {
    Fifo,
    Random,
    Custom,
}

/// What starts the first cycle.
#[derive(Clone, Copy, Debug, PartialEq, Eq, Structural)]
pub enum StartMode {
    Manual,
    Auto,
}

/// The condition under which an automatic start may happen. A start date is
/// a block time in nanoseconds.
#[derive(Clone, Copy, Debug, PartialEq, Eq, Structural)]
pub enum StartConditionAuto {
    MembersReached(u32),
    StartDate(u64),
}

/// Everything the group keeps between calls. Block times are nanoseconds;
/// amounts are in the native token's smallest unit.
pub struct TontineState {
    pub name: String,
    pub symbol: String,
    pub admin: String,
    pub members: Vec<String>,
    pub member_profiles: KeyedMap<String, MemberProfile>,
    pub contribution_amount: u128,
    pub total_cycles: u32,
    pub cycle_duration: u64,
    pub distribution_mode: DistributionMode,
    pub start_mode: StartMode,
    pub start_condition_auto: Option<StartConditionAuto>,
    pub deposit_deadline: u64,
    pub grace_seconds: u32,
    pub late_penalty_percent: u8,
    pub late_strike_limit: u8,
    pub distribution_calendar: Vec<String>,
    pub allow_member_exit: bool,
    pub allow_member_add: bool,
    pub early_withdrawal_penalty: u8,
    pub forbid_overpay: bool,
    pub forbid_underpay: bool,
    pub current_cycle: u32,
    pub completed: bool,
    pub penalties_reserve: u128,
    pub member_strikes: KeyedMap<String, u8>,
    pub member_contributions: KeyedMap<(String, u32), u128>,
    pub calendar_locked: bool,
    pub current_cycle_start: Option<u64>,
    pub pending_exits: Vec<String>,
    pub penalties_carry_over: u128,
    pub max_members: u32,
    pub caution_deposit: u128,
    pub locked_caution: u128,
}

#[verifier::ext_equal]
/// The state as a mathematical value: text as character sequences, lists as
/// sequences, and each keyed collection as its pairs in stored order.
pub struct TontineView {
    pub name: Seq<char>,
    pub symbol: Seq<char>,
    pub admin: Seq<char>,
    pub members: Seq<Seq<char>>,
    pub member_profiles: Seq<(Seq<char>, Option<Seq<char>>)>,
    pub contribution_amount: u128,
    pub total_cycles: u32,
    pub cycle_duration: u64,
    pub distribution_mode: DistributionMode,
    pub start_mode: StartMode,
    pub start_condition_auto: Option<StartConditionAuto>,
    pub deposit_deadline: u64,
    pub grace_seconds: u32,
    pub late_penalty_percent: u8,
    pub late_strike_limit: u8,
    pub distribution_calendar: Seq<Seq<char>>,
    pub allow_member_exit: bool,
    pub allow_member_add: bool,
    pub early_withdrawal_penalty: u8,
    pub forbid_overpay: bool,
    pub forbid_underpay: bool,
    pub current_cycle: u32,
    pub completed: bool,
    pub penalties_reserve: u128,
    pub member_strikes: Seq<(Seq<char>, u8)>,
    pub member_contributions: Seq<((Seq<char>, u32), u128)>,
    pub calendar_locked: bool,
    pub current_cycle_start: Option<u64>,
    pub pending_exits: Seq<Seq<char>>,
    pub penalties_carry_over: u128,
    pub max_members: u32,
    pub caution_deposit: u128,
    pub locked_caution: u128,
}

/// A list of addresses by view.
pub open spec fn addrs(v: Seq<String>) -> Seq<Seq<char>> {
    v.map_values(|a: String| a@)
}

impl View for TontineState {
    type V = TontineView;

    open spec fn view(&self) -> TontineView {
        TontineView {
            name: self.name@,
            symbol: self.symbol@,
            admin: self.admin@,
            members: addrs(self.members@),
            member_profiles: self.member_profiles.pairs(),
            contribution_amount: self.contribution_amount,
            total_cycles: self.total_cycles,
            cycle_duration: self.cycle_duration,
            distribution_mode: self.distribution_mode,
            start_mode: self.start_mode,
            start_condition_auto: self.start_condition_auto,
            deposit_deadline: self.deposit_deadline,
            grace_seconds: self.grace_seconds,
            late_penalty_percent: self.late_penalty_percent,
            late_strike_limit: self.late_strike_limit,
            distribution_calendar: addrs(self.distribution_calendar@),
            allow_member_exit: self.allow_member_exit,
            allow_member_add: self.allow_member_add,
            early_withdrawal_penalty: self.early_withdrawal_penalty,
            forbid_overpay: self.forbid_overpay,
            forbid_underpay: self.forbid_underpay,
            current_cycle: self.current_cycle,
            completed: self.completed,
            penalties_reserve: self.penalties_reserve,
            member_strikes: self.member_strikes.pairs(),
            member_contributions: self.member_contributions.pairs(),
            calendar_locked: self.calendar_locked,
            current_cycle_start: self.current_cycle_start,
            pending_exits: addrs(self.pending_exits@),
            penalties_carry_over: self.penalties_carry_over,
            max_members: self.max_members,
            caution_deposit: self.caution_deposit,
            locked_caution: self.locked_caution,
        }
    }
}

} // verus!
