use vstd::prelude::*;

use crate::keyed_map::{entries_view, pairs_to_map};
use crate::lists::copy_addrs;
use crate::storage::{decode_contribution, decoded_u128};
use crate::error::ContractError;
use crate::model::{stored_at, stored_view, strikes_of};
use crate::msg::Query;
use crate::state::{
    addrs, text_view, DistributionMode, MemberProfile, StartConditionAuto, StartMode,
    TontineState, TontineView,
};

verus! {

/// Where a cycle stands relative to the current one.
#[derive(Clone, Copy, Debug, PartialEq, Eq, Structural)]
pub enum CycleStatus {
    Closed,
    Open,
    Future,
}

/// The text each cycle status is reported with.
pub open spec fn status_text(v: CycleStatus) -> Seq<char> {
    match v {
        CycleStatus::Closed => "closed"@,
        CycleStatus::Open => "open"@,
        CycleStatus::Future => "future"@,
    }
}

impl CycleStatus {
    /// The status as reported.
    pub fn as_str(&self) -> (r: &'static str)
        ensures
            r@ == status_text(*self),
    {
        match self {
            CycleStatus::Closed => "closed",
            CycleStatus::Open => "open",
            CycleStatus::Future => "future",
        }
    }
}

/// The group's parameters and standing.
pub struct GroupInfo {
    pub name: String,
    pub symbol: String,
    pub admin: String,
    pub members: Vec<String>,
    pub member_profiles: Vec<(String, MemberProfile)>,
    pub contribution_amount: u128,
    pub total_cycles: u32,
    pub cycle_duration: u64,
    pub distribution_mode: DistributionMode,
    pub start_mode: StartMode,
    pub start_condition_auto: Option<StartConditionAuto>,
    pub deposit_deadline: u64,
    pub grace_seconds: u32,
    pub late_penalty_percent: u8,
    pub late_strike_limit: u8,
    pub distribution_calendar: Vec<String>,
    pub allow_member_exit: bool,
    pub allow_member_add: bool,
    pub early_withdrawal_penalty: u8,
    pub forbid_overpay: bool,
    pub forbid_underpay: bool,
    pub current_cycle: u32,
    pub completed: bool,
    pub penalties_reserve: u128,
    pub strikes: Vec<(String, u8)>,
    pub calendar_locked: bool,
    pub current_cycle_start: Option<u64>,
    pub max_members: u32,
    pub caution_deposit: u128,
    pub locked_caution: u128,
}

/// A member's profile, strikes and recorded payments.
pub struct MemberInfo {
    pub addr: String,
    pub profile: Option<MemberProfile>,
    pub strikes: u8,
    pub contributions: Vec<(u32, u128)>,
}

/// A cycle's standing, recipient and pot.
pub struct CycleInfo {
    pub cycle: u32,
    pub status: CycleStatus,
    pub recipient: Option<String>,
    pub total_contributions: u128,
    pub penalties: u128,
}

/// The answer to a query.
pub enum QueryAnswer {
    GroupInfo(GroupInfo),
    MemberInfo(MemberInfo),
    CycleInfo(CycleInfo),
    DistributionCalendar(Vec<String>),
}

/// `g` reports the state's parameters and standing.
pub open spec fn group_info_is(g: GroupInfo, s: TontineView) -> bool {
    &&& g.name@ == s.name
    &&& g.symbol@ == s.symbol
    &&& g.admin@ == s.admin
    &&& addrs(g.members@) == s.members
    &&& entries_view(g.member_profiles@) == s.member_profiles
    &&& g.contribution_amount == s.contribution_amount
    &&& g.total_cycles == s.total_cycles
    &&& g.cycle_duration == s.cycle_duration
    &&& g.distribution_mode == s.distribution_mode
    &&& g.start_mode == s.start_mode
    &&& g.start_condition_auto == s.start_condition_auto
    &&& g.deposit_deadline == s.deposit_deadline
    &&& g.grace_seconds == s.grace_seconds
    &&& g.late_penalty_percent == s.late_penalty_percent
    &&& g.late_strike_limit == s.late_strike_limit
    &&& addrs(g.distribution_calendar@) == s.distribution_calendar
    &&& g.allow_member_exit == s.allow_member_exit
    &&& g.allow_member_add == s.allow_member_add
    &&& g.early_withdrawal_penalty == s.early_withdrawal_penalty
    &&& g.forbid_overpay == s.forbid_overpay
    &&& g.forbid_underpay == s.forbid_underpay
    &&& g.current_cycle == s.current_cycle
    &&& g.completed == s.completed
    &&& g.penalties_reserve == s.penalties_reserve
    &&& entries_view(g.strikes@) == s.member_strikes
    &&& g.calendar_locked == s.calendar_locked
    &&& g.current_cycle_start == s.current_cycle_start
    &&& g.max_members == s.max_members
    &&& g.caution_deposit == s.caution_deposit
    &&& g.locked_caution == s.locked_caution
}

/// The payments read for cycles `1..=n` from the records handed in, record
/// `i` being the one stored for cycle `i + 1`; cycles without a record are
/// skipped. `None` when a record does not read back as a payment.
pub open spec fn payments_read(stored: Seq<Option<Seq<u8>>>, n: nat) -> Option<Seq<(u32, u128)>>
    decreases n,
{
    if n == 0 {
        Some(Seq::empty())
    } else {
        match payments_read(stored, (n - 1) as nat) {
            None => None,
            Some(earlier) => match stored_at(stored, n - 1) {
                None => Some(earlier),
                Some(b) => match decoded_u128(b) {
                    None => None,
                    Some(v) => Some(earlier.push((n as u32, v))),
                },
            },
        }
    }
}

/// The last cycle whose payments a member report lists.
pub open spec fn reported_cycles(s: TontineView) -> nat {
    if s.current_cycle == 0 {
        1
    } else {
        s.current_cycle as nat
    }
}

/// `m` reports member `a`: its profile, its strikes, and the payments `ps`.
pub open spec fn member_info_is(
    m: MemberInfo,
    s: TontineView,
    a: Seq<char>,
    ps: Seq<(u32, u128)>,
) -> bool {
    let profiles = pairs_to_map(s.member_profiles);
    &&& m.addr@ == a
    &&& match m.profile {
        Some(p) => profiles.contains_key(a) && profiles[a] == p.view_pseudo(),
        None => !profiles.contains_key(a),
    }
    &&& m.strikes == strikes_of(s.member_strikes, a)
    &&& m.contributions@ == ps
}

/// The sum of the first `n` records handed in, a missing record counting as
/// nothing; `None` when a record does not read back as a payment.
pub open spec fn stored_total(stored: Seq<Option<Seq<u8>>>, n: nat) -> Option<nat>
    decreases n,
{
    if n == 0 {
        Some(0)
    } else {
        match stored_total(stored, (n - 1) as nat) {
            None => None,
            Some(t) => match stored_at(stored, n - 1) {
                None => Some(t),
                Some(b) => match decoded_u128(b) {
                    None => None,
                    Some(v) => Some(t + v as nat),
                },
            },
        }
    }
}

/// Where `cycle` stands relative to the current cycle.
pub open spec fn status_of(s: TontineView, cycle: u32) -> CycleStatus {
    if cycle < s.current_cycle {
        CycleStatus::Closed
    } else if cycle == s.current_cycle {
        CycleStatus::Open
    } else {
        CycleStatus::Future
    }
}

/// The calendar entry of a cycle: the one at position `cycle - 1` (position
/// 0 for cycle 0), if the calendar is that long.
pub open spec fn recipient_of(s: TontineView, cycle: u32) -> Option<Seq<char>> {
    let i: int = if cycle == 0 {
        0
    } else {
        cycle - 1
    };
    if i < s.distribution_calendar.len() {
        Some(s.distribution_calendar[i])
    } else {
        None
    }
}

/// `c` reports `cycle`: its status, its recipient, the members' payments
/// `total` for it and the penalties held.
pub open spec fn cycle_info_is(c: CycleInfo, s: TontineView, cycle: u32, total: nat) -> bool {
    &&& c.cycle == cycle
    &&& c.status == status_of(s, cycle)
    &&& text_view(c.recipient) == recipient_of(s, cycle)
    &&& c.total_contributions == total
    &&& c.penalties == s.penalties_reserve + s.penalties_carry_over
}

/// Whether answering the query takes a sum out of the amount type.
/// `stored[i]` is what the store holds under `query_keys(..)[i]`.
pub open spec fn query_faults(s: TontineView, q: Query, stored: Seq<Option<Seq<u8>>>) -> bool {
    match q {
        Query::GetCycleInfo { cycle: _ } => match stored_total(stored, s.members.len()) {
            Some(t) => t > u128::MAX || s.penalties_reserve + s.penalties_carry_over > u128::MAX,
            None => false,
        },
        _ => false,
    }
}

impl TontineState {
    /// The group report.
    pub(crate) fn group_info(&self) -> (g: GroupInfo)
        ensures
            group_info_is(g, self@),
    {
        GroupInfo {
            name: self.name.clone(),
            symbol: self.symbol.clone(),
            admin: self.admin.clone(),
            members: copy_addrs(&self.members),
            member_profiles: self.member_profiles.to_vec(),
            contribution_amount: self.contribution_amount,
            total_cycles: self.total_cycles,
            cycle_duration: self.cycle_duration,
            distribution_mode: self.distribution_mode,
            start_mode: self.start_mode,
            start_condition_auto: self.start_condition_auto,
            deposit_deadline: self.deposit_deadline,
            grace_seconds: self.grace_seconds,
            late_penalty_percent: self.late_penalty_percent,
            late_strike_limit: self.late_strike_limit,
            distribution_calendar: copy_addrs(&self.distribution_calendar),
            allow_member_exit: self.allow_member_exit,
            allow_member_add: self.allow_member_add,
            early_withdrawal_penalty: self.early_withdrawal_penalty,
            forbid_overpay: self.forbid_overpay,
            forbid_underpay: self.forbid_underpay,
            current_cycle: self.current_cycle,
            completed: self.completed,
            penalties_reserve: self.penalties_reserve,
            strikes: self.member_strikes.to_vec(),
            calendar_locked: self.calendar_locked,
            current_cycle_start: self.current_cycle_start,
            max_members: self.max_members,
            caution_deposit: self.caution_deposit,
            locked_caution: self.locked_caution,
        }
    }

    /// The report on member `a`, its payments read from `stored`, record
    /// `i` being the one stored for cycle `i + 1`.
    pub(crate) fn member_info(&self, a: String, stored: &Vec<Option<Vec<u8>>>) -> (r: Result<
        MemberInfo,
        ContractError,
    >)
        ensures
            match payments_read(stored_view(stored@), reported_cycles(self@)) {
                None => r matches Err(e) && e == ContractError::UnreadableContribution,
                Some(ps) => r matches Ok(m) && member_info_is(m, self@, a@, ps),
            },
    {
        let ghost sv = stored_view(stored@);
        let profile = match self.member_profiles.get(&a) {
            Some(p) => Some(p.duplicate()),
            None => None,
        };
        let strikes: u8 = match self.member_strikes.get(&a) {
            Some(v) => *v,
            None => 0,
        };
        let last: u64 = if self.current_cycle == 0 {
            1
        } else {
            self.current_cycle as u64
        };
        let mut contributions: Vec<(u32, u128)> = Vec::new();
        let mut c: u64 = 1;
        while c <= last
            invariant
                1 <= c <= last + 1,
                last == reported_cycles(self@),
                last <= u32::MAX,
                sv == stored_view(stored@),
                payments_read(sv, (c - 1) as nat) == Some(contributions@),
            decreases last + 1 - c,
        {
            let i = (c - 1) as usize;
            if i < stored.len() {
                match &stored[i] {
                    Some(b) => match decode_contribution(b.as_slice()) {
                        Some(v) => {
                            contributions.push((c as u32, v));
                        },
                        None => {
                            proof {
                                lemma_payments_read_stuck(sv, c as nat, last as nat);
                            }
                            return Err(ContractError::UnreadableContribution);
                        },
                    },
                    None => {},
                }
            }
            c = c + 1;
        }
        Ok(MemberInfo { addr: a, profile, strikes, contributions })
    }

    /// The report on a cycle, the members' payments read from `stored`,
    /// record `i` being member `i`'s; `Ok(None)` when a sum leaves the amount
    /// type.
    pub(crate) fn cycle_info(&self, cycle: u32, stored: &Vec<Option<Vec<u8>>>) -> (r: Result<
        Option<CycleInfo>,
        ContractError,
    >)
        ensures
            match stored_total(stored_view(stored@), self@.members.len()) {
                None => r matches Err(e) && e == ContractError::UnreadableContribution,
                Some(t) => match r {
                    Ok(Some(c)) => cycle_info_is(c, self@, cycle, t) && !query_faults(
                        self@,
                        Query::GetCycleInfo { cycle },
                        stored_view(stored@),
                    ),
                    Ok(None) => query_faults(self@, Query::GetCycleInfo { cycle }, stored_view(stored@)),
                    Err(_) => false,
                },
            },
    {
        let ghost sv = stored_view(stored@);
        let i: usize = if cycle == 0 {
            0
        } else {
            (cycle - 1) as usize
        };
        let recipient = if i < self.distribution_calendar.len() {
            Some(self.distribution_calendar[i].clone())
        } else {
            None
        };
        let n = self.members.len();
        let mut total: u128 = 0;
        let mut over = false;
        let mut j: usize = 0;
        while j < n
            invariant
                n == self@.members.len(),
                sv == stored_view(stored@),
                j <= n,
                stored_total(sv, j as nat) matches Some(t) && (over ==> t > u128::MAX) && (!over
                    ==> t == total),
            decreases n - j,
        {
            if j < stored.len() {
                match &stored[j] {
                    Some(b) => match decode_contribution(b.as_slice()) {
                        Some(v) => {
                            if !over {
                                match total.checked_add(v) {
                                    Some(t) => {
                                        total = t;
                                    },
                                    None => {
                                        over = true;
                                    },
                                }
                            }
                        },
                        None => {
                            proof {
                                lemma_stored_total_stuck(sv, (j + 1) as nat, n as nat);
                            }
                            return Err(ContractError::UnreadableContribution);
                        },
                    },
                    None => {},
                }
            }
            j = j + 1;
        }
        if over {
            return Ok(None);
        }
        let penalties = match self.penalties_reserve.checked_add(self.penalties_carry_over) {
            Some(p) => p,
            None => {
                return Ok(None);
            },
        };
        let status = if cycle < self.current_cycle {
            CycleStatus::Closed
        } else if cycle == self.current_cycle {
            CycleStatus::Open
        } else {
            CycleStatus::Future
        };
        Ok(Some(CycleInfo { cycle, status, recipient, total_contributions: total, penalties }))
    }
}

/// Once a record has failed to read, reading further cycles fails too.
proof fn lemma_payments_read_stuck(stored: Seq<Option<Seq<u8>>>, i: nat, n: nat)
    requires
        i <= n,
        payments_read(stored, i) is None,
    ensures
        payments_read(stored, n) is None,
    decreases n - i,
{
    if i < n {
        lemma_payments_read_stuck(stored, i, (n - 1) as nat);
    }
}

/// Once a record has failed to read, summing further members fails too.
proof fn lemma_stored_total_stuck(stored: Seq<Option<Seq<u8>>>, i: nat, n: nat)
    requires
        i <= n,
        stored_total(stored, i) is None,
    ensures
        stored_total(stored, n) is None,
    decreases n - i,
{
    if i < n {
        lemma_stored_total_stuck(stored, i, (n - 1) as nat);
    }
}

} // verus!
