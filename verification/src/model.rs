use vstd::prelude::*;

use crate::error::ContractError;
use crate::keyed_map::{pairs_to_map, pairs_upsert, pairs_delete};
use crate::msg::{native_amount, Action, ContextView};
use crate::response::{saved, Label, OutcomeView};
use crate::state::{text_view, DistributionMode, StartConditionAuto, StartMode, TontineView};
use crate::storage::{contribution_key_bytes, json_u128_bytes, decoded_u128};

verus! {

/// What a request does to the group, as the rules define it: it is
/// accepted with a new state and an outcome, refused with an error (the
/// state staying as it was), or it faults on arithmetic that does not fit
/// the machine integers (the state staying as it was).
pub enum Transition {
    Accepted(TontineView, OutcomeView),
    Refused(ContractError),
    ArithmeticFault,
}

/// The host's answers on a request's addresses, by view.
pub open spec fn checks_view(checks: Seq<Option<String>>) -> Seq<Option<Seq<char>>> {
    checks.map_values(|o: Option<String>| text_view(o))
}

/// The stored records handed in, by view.
pub open spec fn stored_view(stored: Seq<Option<Vec<u8>>>) -> Seq<Option<Seq<u8>>> {
    stored.map_values(
        |o: Option<Vec<u8>>|
            match o {
                Some(b) => Some(b@),
                None => None,
            },
    )
}

/// The address at position `i` of a request as the host validated it;
/// `None` when the host refused it or gave no answer for it.
pub open spec fn checked(checks: Seq<Option<Seq<char>>>, i: int) -> Option<Seq<char>> {
    if 0 <= i < checks.len() {
        checks[i]
    } else {
        None
    }
}

/// The list without any occurrence of `x`, the others keeping their order.
pub open spec fn without(s: Seq<Seq<char>>, x: Seq<char>) -> Seq<Seq<char>>
    decreases s.len(),
{
    if s.len() == 0 {
        s
    } else {
        let r = without(s.drop_last(), x);
        if s.last() == x {
            r
        } else {
            r.push(s.last())
        }
    }
}

/// The list rotated left by `k` places.
pub open spec fn rotate_left(s: Seq<Seq<char>>, k: int) -> Seq<Seq<char>> {
    s.subrange(k, s.len() as int) + s.subrange(0, k)
}

/// `percent` percent of `amount`, rounded down.
pub open spec fn penalty(percent: u8, amount: u128) -> int {
    (percent as int * amount as int) / 100
}

/// Whether computing `percent * amount` exceeds the amount type.
pub open spec fn penalty_faults(percent: u8, amount: u128) -> bool {
    percent as int * amount as int > u128::MAX
}

/// A member's late-payment strikes; zero when none are recorded.
pub open spec fn strikes_of(strikes: Seq<(Seq<char>, u8)>, a: Seq<char>) -> int {
    if pairs_to_map(strikes).contains_key(a) {
        pairs_to_map(strikes)[a] as int
    } else {
        0
    }
}

/// The state after the first cycle has begun at `now`.
pub open spec fn started(s: TontineView, now: u64) -> TontineView {
    TontineView { current_cycle: 1, current_cycle_start: Some(now), calendar_locked: true, ..s }
}

pub open spec fn add_member_step(
    s: TontineView,
    c: ContextView,
    checks: Seq<Option<Seq<char>>>,
    pseudo: Option<Seq<char>>,
) -> Transition {
    if !s.allow_member_add {
        Transition::Refused(ContractError::MemberAddNotAllowed)
    } else if s.current_cycle != 0 {
        Transition::Refused(ContractError::AddAfterStart)
    } else if (s.members.len() as u32) >= s.max_members {
        Transition::Refused(ContractError::MaxMembersReached)
    } else if native_amount(c.funds) < s.caution_deposit {
        Transition::Refused(ContractError::InsufficientCautionDeposit)
    } else {
        match checked(checks, 0) {
            None => Transition::Refused(ContractError::InvalidAddress { index: 0 }),
            Some(a) => if s.members.contains(a) {
                Transition::Refused(ContractError::MemberAlreadyExists)
            } else if s.locked_caution + s.caution_deposit > u128::MAX {
                Transition::ArithmeticFault
            } else {
                Transition::Accepted(
                    TontineView {
                        members: s.members.push(a),
                        member_profiles: pairs_upsert(s.member_profiles, a, pseudo),
                        locked_caution: (s.locked_caution + s.caution_deposit) as u128,
                        ..s
                    },
                    saved(Label::AddMember),
                )
            },
        }
    }
}

pub open spec fn remove_member_step(
    s: TontineView,
    c: ContextView,
    checks: Seq<Option<Seq<char>>>,
) -> Transition {
    if c.sender != s.admin {
        Transition::Refused(ContractError::OnlyAdminRemoveMembers)
    } else {
        match checked(checks, 0) {
            None => Transition::Refused(ContractError::InvalidAddress { index: 0 }),
            Some(a) => Transition::Accepted(
                TontineView {
                    members: without(s.members, a),
                    member_profiles: pairs_delete(s.member_profiles, a),
                    ..s
                },
                saved(Label::RemoveMember),
            ),
        }
    }
}

pub open spec fn update_profile_step(
    s: TontineView,
    c: ContextView,
    checks: Seq<Option<Seq<char>>>,
    pseudo: Option<Seq<char>>,
) -> Transition {
    if c.sender != s.admin {
        Transition::Refused(ContractError::OnlyAdminUpdateProfiles)
    } else if s.current_cycle != 0 {
        Transition::Refused(ContractError::ProfileUpdateAfterStart)
    } else {
        match checked(checks, 0) {
            None => Transition::Refused(ContractError::InvalidAddress { index: 0 }),
            Some(a) => if !s.members.contains(a) {
                Transition::Refused(ContractError::MemberNotFound)
            } else {
                Transition::Accepted(
                    TontineView { member_profiles: pairs_upsert(s.member_profiles, a, pseudo), ..s },
                    saved(Label::UpdateProfile),
                )
            },
        }
    }
}

pub open spec fn initiate_start_step(s: TontineView, c: ContextView) -> Transition {
    if s.start_mode != StartMode::Manual {
        Transition::Refused(ContractError::ManualStartNotAllowed)
    } else if c.sender != s.admin {
        Transition::Refused(ContractError::OnlyAdminStart)
    } else if s.current_cycle != 0 {
        Transition::Refused(ContractError::AlreadyStarted)
    } else {
        Transition::Accepted(started(s, c.block_time), saved(Label::InitiateStart))
    }
}

/// Whether the automatic start condition holds.
pub open spec fn can_auto_start(s: TontineView, now: u64) -> bool {
    match s.start_condition_auto {
        Some(StartConditionAuto::MembersReached(n)) => (s.members.len() as u32) >= n,
        Some(StartConditionAuto::StartDate(ts)) => now >= ts,
        None => false,
    }
}

pub open spec fn auto_start_step(s: TontineView, c: ContextView) -> Transition {
    if s.start_mode != StartMode::Auto {
        Transition::Refused(ContractError::AutoStartNotAllowed)
    } else if s.current_cycle != 0 {
        Transition::Refused(ContractError::AlreadyStarted)
    } else if !can_auto_start(s, c.block_time) {
        Transition::Refused(ContractError::AutoStartConditionsNotMet)
    } else {
        Transition::Accepted(started(s, c.block_time), saved(Label::AutoStart))
    }
}

/// The payout order a distribution mode gives for the members at a block
/// height: join order, join order rotated by the height, or the order kept.
pub open spec fn computed_calendar(s: TontineView, height: u64) -> Seq<Seq<char>> {
    match s.distribution_mode {
        DistributionMode::Fifo => s.members,
        DistributionMode::Random => if s.members.len() == 0 {
            s.members
        } else {
            rotate_left(s.members, ((height as usize) as int) % (s.members.len() as int))
        },
        DistributionMode::Custom => s.distribution_calendar,
    }
}

pub open spec fn compute_calendar_step(s: TontineView, c: ContextView) -> Transition {
    if c.sender != s.admin {
        Transition::Refused(ContractError::OnlyAdminComputeCalendar)
    } else if s.calendar_locked {
        Transition::Refused(ContractError::CalendarLocked)
    } else {
        Transition::Accepted(
            TontineView { distribution_calendar: computed_calendar(s, c.block_height), ..s },
            saved(Label::ComputeDistributionCalendar),
        )
    }
}

/// The end of the on-time window of the current cycle, in nanoseconds.
pub open spec fn deadline_of(s: TontineView, start: u64) -> int {
    start as int + s.deposit_deadline as int * 1_000_000_000
}

/// The end of the grace window of the current cycle, in nanoseconds.
pub open spec fn grace_end_of(s: TontineView, start: u64) -> int {
    deadline_of(s, start) + s.grace_seconds as int * 1_000_000_000
}

/// Whether computing the windows of a cycle started at `start` exceeds the
/// time type.
pub open spec fn windows_fault(s: TontineView, start: u64) -> bool {
    s.deposit_deadline as int * 1_000_000_000 > u64::MAX || deadline_of(s, start) > u64::MAX
        || grace_end_of(s, start) > u64::MAX
}

/// The state after a late payment by `a`: one more strike, the penalty put
/// in reserve, and `a` excluded once the strikes pass the limit.
pub open spec fn late_payment(s: TontineView, a: Seq<char>) -> TontineView {
    let strikes = strikes_of(s.member_strikes, a) + 1;
    TontineView {
        member_strikes: pairs_upsert(s.member_strikes, a, strikes as u8),
        penalties_reserve: (s.penalties_reserve + penalty(
            s.late_penalty_percent,
            s.contribution_amount,
        )) as u128,
        members: if strikes > s.late_strike_limit {
            without(s.members, a)
        } else {
            s.members
        },
        ..s
    }
}

/// Whether recording a late payment by `a` exceeds the machine integers.
pub open spec fn late_payment_faults(s: TontineView, a: Seq<char>) -> bool {
    strikes_of(s.member_strikes, a) + 1 > u8::MAX || penalty_faults(
        s.late_penalty_percent,
        s.contribution_amount,
    ) || s.penalties_reserve + penalty(s.late_penalty_percent, s.contribution_amount)
        > u128::MAX
}

pub open spec fn deposit_step(s: TontineView, c: ContextView, cycle: u32) -> Transition {
    if !s.members.contains(c.sender) {
        Transition::Refused(ContractError::NotAMember)
    } else if cycle != s.current_cycle {
        Transition::Refused(ContractError::InvalidCycle)
    } else if s.current_cycle == 0 {
        Transition::Refused(ContractError::NotStarted)
    } else {
        match s.current_cycle_start {
            None => Transition::Refused(ContractError::CycleStartNotSet),
            Some(start) => if windows_fault(s, start) {
                Transition::ArithmeticFault
            } else {
                let sent = native_amount(c.funds);
                if s.forbid_overpay && sent > s.contribution_amount {
                    Transition::Refused(ContractError::OverpaymentNotAllowed)
                } else if s.forbid_underpay && sent < s.contribution_amount {
                    Transition::Refused(ContractError::UnderpaymentNotAllowed)
                } else if c.block_time > grace_end_of(s, start) {
                    Transition::Refused(ContractError::DepositWindowClosed)
                } else {
                    let out = OutcomeView {
                        label: Label::Deposit,
                        persist: true,
                        record: Some(
                            (contribution_key_bytes(c.sender, cycle), json_u128_bytes(sent)),
                        ),
                        payout: None,
                        calendar: None,
                    };
                    if c.block_time > deadline_of(s, start) {
                        if late_payment_faults(s, c.sender) {
                            Transition::ArithmeticFault
                        } else {
                            Transition::Accepted(late_payment(s, c.sender), out)
                        }
                    } else {
                        Transition::Accepted(s, out)
                    }
                }
            },
        }
    }
}

pub open spec fn record_late_payment_step(
    s: TontineView,
    checks: Seq<Option<Seq<char>>>,
) -> Transition {
    match checked(checks, 0) {
        None => Transition::Refused(ContractError::InvalidAddress { index: 0 }),
        Some(a) => if late_payment_faults(s, a) {
            Transition::ArithmeticFault
        } else {
            Transition::Accepted(late_payment(s, a), saved(Label::RecordLatePayment))
        },
    }
}

/// A penalty on a named, validated address: anyone may ask for it, and it
/// puts `late_penalty_percent` percent of the contribution in the reserve;
/// no member's recorded payment is reduced.
pub open spec fn apply_penalty_step(s: TontineView, checks: Seq<Option<Seq<char>>>) -> Transition {
    match checked(checks, 0) {
        None => Transition::Refused(ContractError::InvalidAddress { index: 0 }),
        Some(_a) => {
            let reserve = s.penalties_reserve + penalty(s.late_penalty_percent, s.contribution_amount);
            if penalty_faults(s.late_penalty_percent, s.contribution_amount) || reserve
                > u128::MAX {
                Transition::ArithmeticFault
            } else {
                Transition::Accepted(
                    TontineView { penalties_reserve: reserve as u128, ..s },
                    saved(Label::ApplyPenalty),
                )
            }
        },
    }
}

/// The result of reading the stored payments of the first `n` members: their
/// sum, or the first problem met.
pub enum Tally {
    Sum(nat),
    Missing,
    Unreadable,
}

/// What is stored for member `i` (nothing beyond the list).
pub open spec fn stored_at(stored: Seq<Option<Seq<u8>>>, i: int) -> Option<Seq<u8>> {
    if 0 <= i < stored.len() {
        stored[i]
    } else {
        None
    }
}

pub open spec fn tally(stored: Seq<Option<Seq<u8>>>, n: nat) -> Tally
    decreases n,
{
    if n == 0 {
        Tally::Sum(0)
    } else {
        match tally(stored, (n - 1) as nat) {
            Tally::Sum(t) => match stored_at(stored, n - 1) {
                None => Tally::Missing,
                Some(b) => match decoded_u128(b) {
                    None => Tally::Unreadable,
                    Some(v) => Tally::Sum(t + v as nat),
                },
            },
            other => other,
        }
    }
}

/// `stored[i]` is what the store holds under the key of member `i`'s payment
/// for the current cycle.
pub open spec fn trigger_payout_step(
    s: TontineView,
    c: ContextView,
    stored: Seq<Option<Seq<u8>>>,
) -> Transition {
    if c.sender != s.admin {
        Transition::Refused(ContractError::OnlyAdminTriggerPayout)
    } else if s.distribution_calendar.len() < s.members.len() {
        Transition::Refused(ContractError::CalendarIncomplete)
    } else {
        match tally(stored, s.members.len()) {
            Tally::Missing => Transition::Refused(ContractError::MissingContribution),
            Tally::Unreadable => Transition::Refused(ContractError::UnreadableContribution),
            Tally::Sum(t) => {
                let total = t + s.penalties_reserve + s.penalties_carry_over;
                if total > u128::MAX || s.current_cycle == 0 {
                    Transition::ArithmeticFault
                } else if s.current_cycle - 1 >= s.distribution_calendar.len() {
                    Transition::Refused(ContractError::RecipientNotFound)
                } else if s.current_cycle == u32::MAX {
                    Transition::ArithmeticFault
                } else {
                    let next = s.current_cycle + 1;
                    Transition::Accepted(
                        TontineView {
                            current_cycle: next as u32,
                            current_cycle_start: Some(c.block_time),
                            penalties_reserve: 0,
                            penalties_carry_over: 0,
                            completed: if next > s.total_cycles {
                                true
                            } else {
                                s.completed
                            },
                            ..s
                        },
                        OutcomeView {
                            label: Label::TriggerPayout,
                            persist: true,
                            record: None,
                            payout: Some(
                                (s.distribution_calendar[s.current_cycle - 1], total as u128),
                            ),
                            calendar: None,
                        },
                    )
                }
            },
        }
    }
}

pub open spec fn distribute_penalties_step(s: TontineView, c: ContextView) -> Transition {
    if c.sender != s.admin {
        Transition::Refused(ContractError::OnlyAdminDistributePenalties)
    } else if s.members.len() == 0 {
        Transition::Accepted(s, saved(Label::DistributePenalties))
    } else if s.penalties_carry_over + s.penalties_reserve > u128::MAX {
        Transition::ArithmeticFault
    } else {
        Transition::Accepted(
            TontineView {
                penalties_carry_over: (s.penalties_carry_over + s.penalties_reserve) as u128,
                penalties_reserve: 0,
                ..s
            },
            saved(Label::DistributePenalties),
        )
    }
}

pub open spec fn view_calendar_step(s: TontineView) -> Transition {
    Transition::Accepted(
        s,
        OutcomeView {
            label: Label::ViewCalendar,
            persist: false,
            record: None,
            payout: None,
            calendar: Some(s.distribution_calendar),
        },
    )
}

pub open spec fn request_exit_step(s: TontineView, c: ContextView) -> Transition {
    if !s.allow_member_exit {
        Transition::Refused(ContractError::MemberExitNotAllowed)
    } else if !s.members.contains(c.sender) {
        Transition::Refused(ContractError::NotAMember)
    } else if s.pending_exits.contains(c.sender) {
        Transition::Refused(ContractError::ExitAlreadyRequested)
    } else {
        Transition::Accepted(
            TontineView { pending_exits: s.pending_exits.push(c.sender), ..s },
            saved(Label::RequestExit),
        )
    }
}

/// The members left after the pending exits are taken in order, and how
/// many of the exits removed a member.
pub open spec fn exit_fold(members: Seq<Seq<char>>, pending: Seq<Seq<char>>) -> (
    Seq<Seq<char>>,
    nat,
)
    decreases pending.len(),
{
    if pending.len() == 0 {
        (members, 0)
    } else {
        let (m, k) = exit_fold(members, pending.drop_last());
        if m.contains(pending.last()) {
            (without(m, pending.last()), k + 1)
        } else {
            (m, k)
        }
    }
}

/// Processing exits, by the admin: each pending exit that is still a member
/// leaves and adds `early_withdrawal_penalty` percent of the contribution to
/// the reserve; the requests are cleared. Nothing is refunded to a leaving
/// member: no transfer is made and its stored payments stay as they are.
pub open spec fn process_exit_step(s: TontineView, c: ContextView) -> Transition {
    if c.sender != s.admin {
        Transition::Refused(ContractError::OnlyAdminProcessExit)
    } else {
        let (m, k) = exit_fold(s.members, s.pending_exits);
        let reserve = s.penalties_reserve + k * penalty(
            s.early_withdrawal_penalty,
            s.contribution_amount,
        );
        if k > 0 && (penalty_faults(s.early_withdrawal_penalty, s.contribution_amount) || reserve
            > u128::MAX) {
            Transition::ArithmeticFault
        } else {
            Transition::Accepted(
                TontineView {
                    members: m,
                    penalties_reserve: reserve as u128,
                    pending_exits: Seq::empty(),
                    ..s
                },
                saved(Label::ProcessExit),
            )
        }
    }
}

pub open spec fn replace_member_step(
    s: TontineView,
    c: ContextView,
    checks: Seq<Option<Seq<char>>>,
) -> Transition {
    if c.sender != s.admin {
        Transition::Refused(ContractError::OnlyAdminReplaceMember)
    } else {
        match checked(checks, 0) {
            None => Transition::Refused(ContractError::InvalidAddress { index: 0 }),
            Some(old_addr) => match checked(checks, 1) {
                None => Transition::Refused(ContractError::InvalidAddress { index: 1 }),
                Some(new_addr) => Transition::Accepted(
                    TontineView { members: without(s.members, old_addr).push(new_addr), ..s },
                    saved(Label::ReplaceMember),
                ),
            },
        }
    }
}

/// What a request does. `checks[i]` is the host's validation of the `i`-th
/// address the request names; `stored[i]` is what the store holds for the
/// `i`-th member's payment in the current cycle (read only by a payout).
pub open spec fn step(
    s: TontineView,
    c: ContextView,
    action: Action,
    checks: Seq<Option<Seq<char>>>,
    stored: Seq<Option<Seq<u8>>>,
) -> Transition {
    match action {
        Action::AddMember { addr: _, pseudo } => add_member_step(s, c, checks, text_view(pseudo)),
        Action::RemoveMember { addr: _ } => remove_member_step(s, c, checks),
        Action::UpdateProfile { addr: _, pseudo } => update_profile_step(
            s,
            c,
            checks,
            text_view(pseudo),
        ),
        Action::InitiateStart {  } => initiate_start_step(s, c),
        Action::AutoStart {  } => auto_start_step(s, c),
        Action::ComputeDistributionCalendar {  } => compute_calendar_step(s, c),
        Action::Deposit { cycle } => deposit_step(s, c, cycle),
        Action::RecordLatePayment { addr: _ } => record_late_payment_step(s, checks),
        Action::ApplyPenalty { addr: _ } => apply_penalty_step(s, checks),
        Action::TriggerPayout {  } => trigger_payout_step(s, c, stored),
        Action::DistributePenalties {  } => distribute_penalties_step(s, c),
        Action::ViewCalendar {  } => view_calendar_step(s),
        Action::RequestExit {  } => request_exit_step(s, c),
        Action::ProcessExit {  } => process_exit_step(s, c),
        Action::ReplaceMember { old_addr: _, new_addr: _ } => replace_member_step(s, c, checks),
    }
}

} // verus!
