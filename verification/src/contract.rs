use vstd::prelude::*;

use crate::answers::{
    cycle_info_is, group_info_is, member_info_is, payments_read, query_faults, reported_cycles,
    stored_total, QueryAnswer,
};
use crate::error::ContractError;
use crate::lists::{contains_addr, copy_addrs, copy_text, lemma_addrs_push, rotated, without_addr};
use crate::model::{
    add_member_step, apply_penalty_step, auto_start_step, checked, checks_view,
    compute_calendar_step, computed_calendar, deposit_step, distribute_penalties_step, exit_fold,
    initiate_start_step, late_payment, late_payment_faults, process_exit_step,
    record_late_payment_step, remove_member_step, replace_member_step, request_exit_step, started,
    step, stored_view, tally, trigger_payout_step, update_profile_step,
    view_calendar_step, without, Tally, Transition,
};
use crate::keyed_map::{KeyedMap, pairs_upsert};
use crate::msg::{Action, CallContext, ExecuteMsg, InstantiateMsg, Query, QueryMsg};
use crate::response::{saved, Label, Outcome, Payout};
use crate::state::{
    addrs, text_view, DistributionMode, MemberProfile, StartConditionAuto, StartMode,
    TontineState, TontineView,
};
use crate::storage::{contribution_key, contribution_key_bytes, decode_contribution, encode_contribution};

verus! {

/// What handling a request gave: acceptance with an outcome, refusal, or an
/// arithmetic fault.
pub enum Verdict {
    Accepted(Outcome),
    Refused(ContractError),
    ArithmeticFault,
}

/// A verdict, with the state before and after it, is the transition `t`:
/// the state changes only when the request is accepted.
pub open spec fn realizes(before: TontineView, after: TontineView, r: Verdict, t: Transition) -> bool {
    match r {
        Verdict::Accepted(o) => t == Transition::Accepted(after, o@),
        Verdict::Refused(e) => t == Transition::Refused(e) && after == before,
        Verdict::ArithmeticFault => t is ArithmeticFault && after == before,
    }
}

/// The host's answer on address `i`.
fn checked_addr(checks: &Vec<Option<String>>, i: usize) -> (r: Option<String>)
    ensures
        text_view(r) == checked(checks_view(checks@), i as int),
{
    if i < checks.len() {
        copy_text(&checks[i])
    } else {
        None
    }
}

/// Once reading the stored payments has met a problem, reading more of them
/// reports the same problem.
proof fn lemma_tally_stuck(stored: Seq<Option<Seq<u8>>>, i: nat, n: nat)
    requires
        i <= n,
        !(tally(stored, i) is Sum),
    ensures
        tally(stored, n) == tally(stored, i),
    decreases n - i,
{
    if i < n {
        lemma_tally_stuck(stored, i, (n - 1) as nat);
    }
}

impl TontineState {
    /// Admits a new member against the caution deposit, before the start.
    fn add_member(&mut self, ctx: &CallContext, checks: &Vec<Option<String>>, pseudo: &Option<String>) -> (r: Verdict)
        ensures
            realizes(
                old(self)@,
                final(self)@,
                r,
                add_member_step(old(self)@, ctx@, checks_view(checks@), text_view(*pseudo)),
            ),
    {
        if !self.allow_member_add {
            return Verdict::Refused(ContractError::MemberAddNotAllowed);
        }
        if self.current_cycle != 0 {
            return Verdict::Refused(ContractError::AddAfterStart);
        }
        if self.members.len() as u32 >= self.max_members {
            return Verdict::Refused(ContractError::MaxMembersReached);
        }
        let sent = ctx.native_sent();
        if sent < self.caution_deposit {
            return Verdict::Refused(ContractError::InsufficientCautionDeposit);
        }
        let a = match checked_addr(checks, 0) {
            None => {
                return Verdict::Refused(ContractError::InvalidAddress { index: 0 });
            },
            Some(a) => a,
        };
        if contains_addr(&self.members, &a) {
            return Verdict::Refused(ContractError::MemberAlreadyExists);
        }
        let locked = match self.locked_caution.checked_add(self.caution_deposit) {
            None => {
                return Verdict::ArithmeticFault;
            },
            Some(v) => v,
        };
        let ghost before = self@;
        let copy = a.clone();
        proof {
            lemma_addrs_push(self.members@, copy);
        }
        self.members.push(copy);
        self.member_profiles.insert(a, MemberProfile { pseudo: copy_text(pseudo) });
        self.locked_caution = locked;
        assert(self@ =~= TontineView {
            members: before.members.push(a@),
            member_profiles: crate::keyed_map::pairs_upsert(
                before.member_profiles,
                a@,
                text_view(*pseudo),
            ),
            locked_caution: locked,
            ..before
        });
        Verdict::Accepted(Outcome::saved(Label::AddMember))
    }

    /// Drops a member and its profile, by the admin.
    fn remove_member(&mut self, ctx: &CallContext, checks: &Vec<Option<String>>) -> (r: Verdict)
        ensures
            realizes(
                old(self)@,
                final(self)@,
                r,
                remove_member_step(old(self)@, ctx@, checks_view(checks@)),
            ),
    {
        if ctx.sender != self.admin {
            return Verdict::Refused(ContractError::OnlyAdminRemoveMembers);
        }
        let a = match checked_addr(checks, 0) {
            None => {
                return Verdict::Refused(ContractError::InvalidAddress { index: 0 });
            },
            Some(a) => a,
        };
        let ghost before = self@;
        self.members = without_addr(&self.members, &a);
        self.member_profiles.remove(&a);
        assert(self@ =~= TontineView {
            members: without(before.members, a@),
            member_profiles: crate::keyed_map::pairs_delete(before.member_profiles, a@),
            ..before
        });
        Verdict::Accepted(Outcome::saved(Label::RemoveMember))
    }

    /// Sets a member's pseudonym, by the admin, before the start.
    fn update_profile(&mut self, ctx: &CallContext, checks: &Vec<Option<String>>, pseudo: &Option<String>) -> (r: Verdict)
        ensures
            realizes(
                old(self)@,
                final(self)@,
                r,
                update_profile_step(old(self)@, ctx@, checks_view(checks@), text_view(*pseudo)),
            ),
    {
        if ctx.sender != self.admin {
            return Verdict::Refused(ContractError::OnlyAdminUpdateProfiles);
        }
        if self.current_cycle != 0 {
            return Verdict::Refused(ContractError::ProfileUpdateAfterStart);
        }
        let a = match checked_addr(checks, 0) {
            None => {
                return Verdict::Refused(ContractError::InvalidAddress { index: 0 });
            },
            Some(a) => a,
        };
        if !contains_addr(&self.members, &a) {
            return Verdict::Refused(ContractError::MemberNotFound);
        }
        let ghost before = self@;
        self.member_profiles.insert(a, MemberProfile { pseudo: copy_text(pseudo) });
        assert(self@ =~= TontineView {
            member_profiles: crate::keyed_map::pairs_upsert(
                before.member_profiles,
                a@,
                text_view(*pseudo),
            ),
            ..before
        });
        Verdict::Accepted(Outcome::saved(Label::UpdateProfile))
    }

    /// Opens cycle one at `now` and locks the calendar.
    fn begin_first_cycle(&mut self, now: u64)
        ensures
            final(self)@ == started(old(self)@, now),
    {
        let ghost before = self@;
        self.current_cycle = 1;
        self.current_cycle_start = Some(now);
        self.calendar_locked = true;
        assert(self@ =~= started(before, now));
    }

    /// Starts the group by the admin's hand.
    fn initiate_start(&mut self, ctx: &CallContext) -> (r: Verdict)
        ensures
            realizes(old(self)@, final(self)@, r, initiate_start_step(old(self)@, ctx@)),
    {
        if self.start_mode != StartMode::Manual {
            return Verdict::Refused(ContractError::ManualStartNotAllowed);
        }
        if ctx.sender != self.admin {
            return Verdict::Refused(ContractError::OnlyAdminStart);
        }
        if self.current_cycle != 0 {
            return Verdict::Refused(ContractError::AlreadyStarted);
        }
        self.begin_first_cycle(ctx.block_time);
        Verdict::Accepted(Outcome::saved(Label::InitiateStart))
    }

    /// Starts the group once its start condition holds.
    fn auto_start(&mut self, ctx: &CallContext) -> (r: Verdict)
        ensures
            realizes(old(self)@, final(self)@, r, auto_start_step(old(self)@, ctx@)),
    {
        if self.start_mode != StartMode::Auto {
            return Verdict::Refused(ContractError::AutoStartNotAllowed);
        }
        if self.current_cycle != 0 {
            return Verdict::Refused(ContractError::AlreadyStarted);
        }
        let can_start = match self.start_condition_auto {
            Some(StartConditionAuto::MembersReached(n)) => self.members.len() as u32 >= n,
            Some(StartConditionAuto::StartDate(ts)) => ctx.block_time >= ts,
            None => false,
        };
        if !can_start {
            return Verdict::Refused(ContractError::AutoStartConditionsNotMet);
        }
        self.begin_first_cycle(ctx.block_time);
        Verdict::Accepted(Outcome::saved(Label::AutoStart))
    }

    /// Builds the payout order from the distribution mode, while unlocked.
    fn compute_distribution_calendar(&mut self, ctx: &CallContext) -> (r: Verdict)
        ensures
            realizes(old(self)@, final(self)@, r, compute_calendar_step(old(self)@, ctx@)),
    {
        if ctx.sender != self.admin {
            return Verdict::Refused(ContractError::OnlyAdminComputeCalendar);
        }
        if self.calendar_locked {
            return Verdict::Refused(ContractError::CalendarLocked);
        }
        let ghost before = self@;
        match self.distribution_mode {
            DistributionMode::Fifo => {
                self.distribution_calendar = copy_addrs(&self.members);
            },
            DistributionMode::Random => {
                let n = self.members.len();
                if n == 0 {
                    self.distribution_calendar = copy_addrs(&self.members);
                } else {
                    let seed = (ctx.block_height as usize) % n;
                    self.distribution_calendar = rotated(&self.members, seed);
                }
            },
            DistributionMode::Custom => {},
        }
        assert(self@ =~= TontineView {
            distribution_calendar: computed_calendar(before, ctx.block_height),
            ..before
        });
        Verdict::Accepted(Outcome::saved(Label::ComputeDistributionCalendar))
    }

    /// Records a late payment by `a` when it fits the machine integers.
    fn record_late(&mut self, a: &String) -> (ok: bool)
        ensures
            ok == !late_payment_faults(old(self)@, a@),
            ok ==> final(self)@ == late_payment(old(self)@, a@),
            !ok ==> final(self)@ == old(self)@,
    {
        let current: u8 = match self.member_strikes.get(a) {
            Some(v) => *v,
            None => 0,
        };
        if current == 255 {
            return false;
        }
        let strikes = current + 1;
        let p = match (self.late_penalty_percent as u128).checked_mul(self.contribution_amount) {
            None => {
                return false;
            },
            Some(x) => x / 100,
        };
        let reserve = match self.penalties_reserve.checked_add(p) {
            None => {
                return false;
            },
            Some(x) => x,
        };
        let ghost before = self@;
        self.member_strikes.insert(a.clone(), strikes);
        self.penalties_reserve = reserve;
        if strikes > self.late_strike_limit {
            self.members = without_addr(&self.members, a);
        }
        assert(self@ =~= late_payment(before, a@));
        true
    }

    /// Takes a member's payment for the current cycle.
    fn deposit(&mut self, ctx: &CallContext, cycle: u32) -> (r: Verdict)
        ensures
            realizes(old(self)@, final(self)@, r, deposit_step(old(self)@, ctx@, cycle)),
    {
        if !contains_addr(&self.members, &ctx.sender) {
            return Verdict::Refused(ContractError::NotAMember);
        }
        if cycle != self.current_cycle {
            return Verdict::Refused(ContractError::InvalidCycle);
        }
        if self.current_cycle == 0 {
            return Verdict::Refused(ContractError::NotStarted);
        }
        let start = match self.current_cycle_start {
            None => {
                return Verdict::Refused(ContractError::CycleStartNotSet);
            },
            Some(t) => t,
        };
        let window = match self.deposit_deadline.checked_mul(1_000_000_000) {
            None => {
                return Verdict::ArithmeticFault;
            },
            Some(w) => w,
        };
        let deadline = match start.checked_add(window) {
            None => {
                return Verdict::ArithmeticFault;
            },
            Some(d) => d,
        };
        let grace = (self.grace_seconds as u64) * 1_000_000_000;
        let grace_end = match deadline.checked_add(grace) {
            None => {
                return Verdict::ArithmeticFault;
            },
            Some(g) => g,
        };
        let sent = ctx.native_sent();
        if self.forbid_overpay && sent > self.contribution_amount {
            return Verdict::Refused(ContractError::OverpaymentNotAllowed);
        }
        if self.forbid_underpay && sent < self.contribution_amount {
            return Verdict::Refused(ContractError::UnderpaymentNotAllowed);
        }
        if ctx.block_time > grace_end {
            return Verdict::Refused(ContractError::DepositWindowClosed);
        }
        let record = (contribution_key(&ctx.sender, cycle), encode_contribution(sent));
        if ctx.block_time > deadline {
            if !self.record_late(&ctx.sender) {
                return Verdict::ArithmeticFault;
            }
        }
        Verdict::Accepted(
            Outcome {
                label: Label::Deposit,
                persist: true,
                record: Some(record),
                payout: None,
                calendar: None,
            },
        )
    }

    /// Records a late payment by the named member.
    fn record_late_payment(&mut self, checks: &Vec<Option<String>>) -> (r: Verdict)
        ensures
            realizes(
                old(self)@,
                final(self)@,
                r,
                record_late_payment_step(old(self)@, checks_view(checks@)),
            ),
    {
        let a = match checked_addr(checks, 0) {
            None => {
                return Verdict::Refused(ContractError::InvalidAddress { index: 0 });
            },
            Some(a) => a,
        };
        if !self.record_late(&a) {
            return Verdict::ArithmeticFault;
        }
        Verdict::Accepted(Outcome::saved(Label::RecordLatePayment))
    }

    /// Puts one late penalty in the reserve.
    fn apply_penalty(&mut self, checks: &Vec<Option<String>>) -> (r: Verdict)
        ensures
            realizes(
                old(self)@,
                final(self)@,
                r,
                apply_penalty_step(old(self)@, checks_view(checks@)),
            ),
    {
        if checked_addr(checks, 0).is_none() {
            return Verdict::Refused(ContractError::InvalidAddress { index: 0 });
        }
        let p = match (self.late_penalty_percent as u128).checked_mul(self.contribution_amount) {
            None => {
                return Verdict::ArithmeticFault;
            },
            Some(x) => x / 100,
        };
        let reserve = match self.penalties_reserve.checked_add(p) {
            None => {
                return Verdict::ArithmeticFault;
            },
            Some(x) => x,
        };
        let ghost before = self@;
        self.penalties_reserve = reserve;
        assert(self@ =~= TontineView { penalties_reserve: reserve, ..before });
        Verdict::Accepted(Outcome::saved(Label::ApplyPenalty))
    }

    /// Pays the cycle's pot to its scheduled recipient and opens the next cycle.
    fn trigger_payout(&mut self, ctx: &CallContext, stored: &Vec<Option<Vec<u8>>>) -> (r: Verdict)
        ensures
            realizes(
                old(self)@,
                final(self)@,
                r,
                trigger_payout_step(old(self)@, ctx@, stored_view(stored@)),
            ),
    {
        if ctx.sender != self.admin {
            return Verdict::Refused(ContractError::OnlyAdminTriggerPayout);
        }
        if self.distribution_calendar.len() < self.members.len() {
            return Verdict::Refused(ContractError::CalendarIncomplete);
        }
        let ghost sv = stored_view(stored@);
        let n = self.members.len();
        let mut total: u128 = 0;
        let mut over = false;
        let mut i: usize = 0;
        while i < n
            invariant
                n == self.members@.len(),
                sv == stored_view(stored@),
                self@ == old(self)@,
                ctx@.sender == old(self)@.admin,
                old(self)@.distribution_calendar.len() >= old(self)@.members.len(),
                i <= n,
                tally(sv, i as nat) matches Tally::Sum(t) && (over ==> t > u128::MAX) && (!over
                    ==> t == total),
            decreases n - i,
        {
            if i >= stored.len() {
                proof {
                    lemma_tally_stuck(sv, (i + 1) as nat, n as nat);
                }
                return Verdict::Refused(ContractError::MissingContribution);
            }
            match &stored[i] {
                None => {
                    proof {
                        lemma_tally_stuck(sv, (i + 1) as nat, n as nat);
                    }
                    return Verdict::Refused(ContractError::MissingContribution);
                },
                Some(b) => {
                    match decode_contribution(b.as_slice()) {
                        None => {
                            proof {
                                lemma_tally_stuck(sv, (i + 1) as nat, n as nat);
                            }
                            return Verdict::Refused(ContractError::UnreadableContribution);
                        },
                        Some(v) => {
                            if !over {
                                match total.checked_add(v) {
                                    Some(t) => {
                                        total = t;
                                    },
                                    None => {
                                        over = true;
                                    },
                                }
                            }
                        },
                    }
                },
            }
            i = i + 1;
        }
        if over {
            return Verdict::ArithmeticFault;
        }
        let pool = match self.penalties_reserve.checked_add(self.penalties_carry_over) {
            None => {
                return Verdict::ArithmeticFault;
            },
            Some(p) => p,
        };
        let amount = match total.checked_add(pool) {
            None => {
                return Verdict::ArithmeticFault;
            },
            Some(a) => a,
        };
        if self.current_cycle == 0 {
            return Verdict::ArithmeticFault;
        }
        let idx = (self.current_cycle - 1) as usize;
        if idx >= self.distribution_calendar.len() {
            return Verdict::Refused(ContractError::RecipientNotFound);
        }
        if self.current_cycle == u32::MAX {
            return Verdict::ArithmeticFault;
        }
        let recipient = self.distribution_calendar[idx].clone();
        let ghost before = self@;
        let next = self.current_cycle + 1;
        self.current_cycle = next;
        self.current_cycle_start = Some(ctx.block_time);
        self.penalties_reserve = 0;
        self.penalties_carry_over = 0;
        if next > self.total_cycles {
            self.completed = true;
        }
        assert(self@ =~= TontineView {
            current_cycle: next,
            current_cycle_start: Some(ctx.block_time),
            penalties_reserve: 0,
            penalties_carry_over: 0,
            completed: if next > before.total_cycles {
                true
            } else {
                before.completed
            },
            ..before
        });
        Verdict::Accepted(
            Outcome {
                label: Label::TriggerPayout,
                persist: true,
                record: None,
                payout: Some(Payout { recipient, amount }),
                calendar: None,
            },
        )
    }

    /// Moves the reserve to the pool of the next payout.
    fn distribute_penalties(&mut self, ctx: &CallContext) -> (r: Verdict)
        ensures
            realizes(old(self)@, final(self)@, r, distribute_penalties_step(old(self)@, ctx@)),
    {
        if ctx.sender != self.admin {
            return Verdict::Refused(ContractError::OnlyAdminDistributePenalties);
        }
        if self.members.len() > 0 {
            let carry = match self.penalties_carry_over.checked_add(self.penalties_reserve) {
                None => {
                    return Verdict::ArithmeticFault;
                },
                Some(c) => c,
            };
            let ghost before = self@;
            self.penalties_carry_over = carry;
            self.penalties_reserve = 0;
            assert(self@ =~= TontineView {
                penalties_carry_over: carry,
                penalties_reserve: 0,
                ..before
            });
        }
        Verdict::Accepted(Outcome::saved(Label::DistributePenalties))
    }

    /// Shows the payout order.
    fn view_calendar(&self) -> (r: Verdict)
        ensures
            realizes(self@, self@, r, view_calendar_step(self@)),
    {
        Verdict::Accepted(
            Outcome {
                label: Label::ViewCalendar,
                persist: false,
                record: None,
                payout: None,
                calendar: Some(copy_addrs(&self.distribution_calendar)),
            },
        )
    }

    /// Files the sender's request to leave.
    fn request_exit(&mut self, ctx: &CallContext) -> (r: Verdict)
        ensures
            realizes(old(self)@, final(self)@, r, request_exit_step(old(self)@, ctx@)),
    {
        if !self.allow_member_exit {
            return Verdict::Refused(ContractError::MemberExitNotAllowed);
        }
        if !contains_addr(&self.members, &ctx.sender) {
            return Verdict::Refused(ContractError::NotAMember);
        }
        if contains_addr(&self.pending_exits, &ctx.sender) {
            return Verdict::Refused(ContractError::ExitAlreadyRequested);
        }
        let ghost before = self@;
        let a = ctx.sender.clone();
        proof {
            lemma_addrs_push(self.pending_exits@, a);
        }
        self.pending_exits.push(a);
        assert(self@ =~= TontineView { pending_exits: before.pending_exits.push(ctx@.sender), ..before });
        Verdict::Accepted(Outcome::saved(Label::RequestExit))
    }

    /// Removes every member that asked to leave, charging the exit penalty.
    fn process_exit(&mut self, ctx: &CallContext) -> (r: Verdict)
        ensures
            realizes(old(self)@, final(self)@, r, process_exit_step(old(self)@, ctx@)),
    {
        if ctx.sender != self.admin {
            return Verdict::Refused(ContractError::OnlyAdminProcessExit);
        }
        let ghost before = self@;
        let n = self.pending_exits.len();
        let mut members = copy_addrs(&self.members);
        let mut k: usize = 0;
        let mut i: usize = 0;
        assert(addrs(self.pending_exits@).take(0) =~= Seq::<Seq<char>>::empty());
        while i < n
            invariant
                n == self.pending_exits@.len(),
                before == self@,
                i <= n,
                k <= i,
                exit_fold(before.members, before.pending_exits.take(i as int)) == (
                    addrs(members@),
                    k as nat,
                ),
            decreases n - i,
        {
            assert(before.pending_exits.take(i + 1).drop_last() =~= before.pending_exits.take(
                i as int,
            ));
            assert(before.pending_exits.take(i + 1).last() == self.pending_exits@[i as int]@);
            if contains_addr(&members, &self.pending_exits[i]) {
                members = without_addr(&members, &self.pending_exits[i]);
                k = k + 1;
            }
            i = i + 1;
        }
        assert(before.pending_exits.take(n as int) =~= before.pending_exits);
        let ghost pen = crate::model::penalty(self.early_withdrawal_penalty, self.contribution_amount);
        assert(exit_fold(before.members, before.pending_exits) == (addrs(members@), k as nat));
        let mut reserve = self.penalties_reserve;
        if k == 0 {
            assert(k * pen == 0) by (nonlinear_arith)
                requires
                    k == 0,
            ;
        }
        if k > 0 {
            let p = match (self.early_withdrawal_penalty as u128).checked_mul(self.contribution_amount) {
                None => {
                    return Verdict::ArithmeticFault;
                },
                Some(x) => x / 100,
            };
            let all = match (k as u128).checked_mul(p) {
                None => {
                    return Verdict::ArithmeticFault;
                },
                Some(x) => x,
            };
            reserve = match reserve.checked_add(all) {
                None => {
                    return Verdict::ArithmeticFault;
                },
                Some(x) => x,
            };
        }
        self.members = members;
        self.penalties_reserve = reserve;
        self.pending_exits = Vec::new();
        assert(self@ =~= TontineView {
            members: exit_fold(before.members, before.pending_exits).0,
            penalties_reserve: reserve,
            pending_exits: Seq::empty(),
            ..before
        });
        Verdict::Accepted(Outcome::saved(Label::ProcessExit))
    }

    /// Replaces a member by another, by the admin.
    fn replace_member(&mut self, ctx: &CallContext, checks: &Vec<Option<String>>) -> (r: Verdict)
        ensures
            realizes(
                old(self)@,
                final(self)@,
                r,
                replace_member_step(old(self)@, ctx@, checks_view(checks@)),
            ),
    {
        if ctx.sender != self.admin {
            return Verdict::Refused(ContractError::OnlyAdminReplaceMember);
        }
        let old_addr = match checked_addr(checks, 0) {
            None => {
                return Verdict::Refused(ContractError::InvalidAddress { index: 0 });
            },
            Some(a) => a,
        };
        let new_addr = match checked_addr(checks, 1) {
            None => {
                return Verdict::Refused(ContractError::InvalidAddress { index: 1 });
            },
            Some(a) => a,
        };
        let ghost before = self@;
        let mut members = without_addr(&self.members, &old_addr);
        proof {
            lemma_addrs_push(members@, new_addr);
        }
        members.push(new_addr);
        self.members = members;
        assert(self@ =~= TontineView {
            members: without(before.members, old_addr@).push(new_addr@),
            ..before
        });
        Verdict::Accepted(Outcome::saved(Label::ReplaceMember))
    }

    /// A copy with the same view.
    pub fn duplicate(&self) -> (r: TontineState)
        ensures
            r@ == self@,
    {
        let r = TontineState {
            name: self.name.clone(),
            symbol: self.symbol.clone(),
            admin: self.admin.clone(),
            members: copy_addrs(&self.members),
            member_profiles: self.member_profiles.duplicate(),
            contribution_amount: self.contribution_amount,
            total_cycles: self.total_cycles,
            cycle_duration: self.cycle_duration,
            distribution_mode: self.distribution_mode,
            start_mode: self.start_mode,
            start_condition_auto: self.start_condition_auto,
            deposit_deadline: self.deposit_deadline,
            grace_seconds: self.grace_seconds,
            late_penalty_percent: self.late_penalty_percent,
            late_strike_limit: self.late_strike_limit,
            distribution_calendar: copy_addrs(&self.distribution_calendar),
            allow_member_exit: self.allow_member_exit,
            allow_member_add: self.allow_member_add,
            early_withdrawal_penalty: self.early_withdrawal_penalty,
            forbid_overpay: self.forbid_overpay,
            forbid_underpay: self.forbid_underpay,
            current_cycle: self.current_cycle,
            completed: self.completed,
            penalties_reserve: self.penalties_reserve,
            member_strikes: self.member_strikes.duplicate(),
            member_contributions: self.member_contributions.duplicate(),
            calendar_locked: self.calendar_locked,
            current_cycle_start: self.current_cycle_start,
            pending_exits: copy_addrs(&self.pending_exits),
            penalties_carry_over: self.penalties_carry_over,
            max_members: self.max_members,
            caution_deposit: self.caution_deposit,
            locked_caution: self.locked_caution,
        };
        assert(r@ =~= self@);
        r
    }

    /// Handles a request by its kind.
    fn apply(
        &mut self,
        ctx: &CallContext,
        action: &Action,
        checks: &Vec<Option<String>>,
        stored: &Vec<Option<Vec<u8>>>,
    ) -> (r: Verdict)
        ensures
            realizes(
                old(self)@,
                final(self)@,
                r,
                step(old(self)@, ctx@, *action, checks_view(checks@), stored_view(stored@)),
            ),
    {
        match action {
            Action::AddMember { addr: _, pseudo } => self.add_member(ctx, checks, pseudo),
            Action::RemoveMember { addr: _ } => self.remove_member(ctx, checks),
            Action::UpdateProfile { addr: _, pseudo } => self.update_profile(ctx, checks, pseudo),
            Action::InitiateStart {  } => self.initiate_start(ctx),
            Action::AutoStart {  } => self.auto_start(ctx),
            Action::ComputeDistributionCalendar {  } => self.compute_distribution_calendar(ctx),
            Action::Deposit { cycle } => self.deposit(ctx, *cycle),
            Action::RecordLatePayment { addr: _ } => self.record_late_payment(checks),
            Action::ApplyPenalty { addr: _ } => self.apply_penalty(checks),
            Action::TriggerPayout {  } => self.trigger_payout(ctx, stored),
            Action::DistributePenalties {  } => self.distribute_penalties(ctx),
            Action::ViewCalendar {  } => self.view_calendar(),
            Action::RequestExit {  } => self.request_exit(ctx),
            Action::ProcessExit {  } => self.process_exit(ctx),
            Action::ReplaceMember { old_addr: _, new_addr: _ } => self.replace_member(ctx, checks),
        }
    }
}

/// Handles a state-changing request on the stored state.
///
/// `checks[i]` is the host's validation of the `i`-th address that the
/// request names (`Action::addresses`), `None` when the host refused it.
/// For a payout, `stored[i]` is what the store holds under
/// `payout_keys(state)[i]`; other requests ignore it. On acceptance the state
/// becomes the new one and the outcome says what to save, store, send and
/// show; on refusal nothing changes. Inputs on which the rules' arithmetic
/// leaves the machine integers are excluded (see `execute_faults`).
pub fn execute(
    state: &mut TontineState,
    ctx: &CallContext,
    msg: &ExecuteMsg,
    checks: &Vec<Option<String>>,
    stored: &Vec<Option<Vec<u8>>>,
) -> (r: Result<Outcome, ContractError>)
    requires
        !(step(old(state)@, ctx@, msg.action, checks_view(checks@), stored_view(stored@)) is ArithmeticFault),
    ensures
        match r {
            Ok(o) => step(old(state)@, ctx@, msg.action, checks_view(checks@), stored_view(stored@))
                == Transition::Accepted(final(state)@, o@),
            Err(e) => step(old(state)@, ctx@, msg.action, checks_view(checks@), stored_view(stored@))
                == Transition::Refused(e) && final(state)@ == old(state)@,
        },
{
    match state.apply(ctx, &msg.action, checks, stored) {
        Verdict::Accepted(o) => Ok(o),
        Verdict::Refused(e) => Err(e),
        Verdict::ArithmeticFault => {
            // excluded by the precondition
            assert(false);
            Err(ContractError::InvalidCycle)
        },
    }
}

/// Whether handling the request would take the rules' arithmetic out of the
/// machine integers (an overflow or an underflow), on which the request is to
/// be aborted.
pub fn execute_faults(
    state: &TontineState,
    ctx: &CallContext,
    msg: &ExecuteMsg,
    checks: &Vec<Option<String>>,
    stored: &Vec<Option<Vec<u8>>>,
) -> (b: bool)
    ensures
        b == (step(state@, ctx@, msg.action, checks_view(checks@), stored_view(stored@)) is ArithmeticFault),
{
    let mut probe = state.duplicate();
    match probe.apply(ctx, &msg.action, checks, stored) {
        Verdict::ArithmeticFault => true,
        _ => false,
    }
}

/// The keys whose stored records a payout reads: each member's payment for
/// the current cycle, in member order.
pub fn payout_keys(state: &TontineState) -> (keys: Vec<Vec<u8>>)
    ensures
        keys@.len() == state@.members.len(),
        forall|i: int|
            0 <= i < keys@.len() ==> #[trigger] keys@[i]@ == contribution_key_bytes(
                state@.members[i],
                state.current_cycle,
            ),
{
    let n = state.members.len();
    let mut keys: Vec<Vec<u8>> = Vec::new();
    let mut i: usize = 0;
    while i < n
        invariant
            n == state.members@.len(),
            i <= n,
            keys@.len() == i,
            forall|j: int|
                0 <= j < i ==> #[trigger] keys@[j]@ == contribution_key_bytes(
                    state@.members[j],
                    state.current_cycle,
                ),
        decreases n - i,
    {
        keys.push(contribution_key(&state.members[i], state.current_cycle));
        i = i + 1;
    }
    keys
}

/// The profiles a creation message sets: each pair in order, a later pair of
/// the same address replacing an earlier one.
pub open spec fn profiles_from(list: Seq<(String, MemberProfile)>) -> Seq<(Seq<char>, Option<Seq<char>>)>
    decreases list.len(),
{
    if list.len() == 0 {
        Seq::empty()
    } else {
        pairs_upsert(profiles_from(list.drop_last()), list.last().0@, list.last().1.view_pseudo())
    }
}

/// The state a group is created in: the message's parameters, no cycle
/// started, nothing paid, penalised or locked.
pub open spec fn instantiated(msg: InstantiateMsg) -> TontineView {
    TontineView {
        name: msg.name@,
        symbol: msg.symbol@,
        admin: msg.admin@,
        members: addrs(msg.members@),
        member_profiles: match msg.member_profiles {
            Some(list) => profiles_from(list@),
            None => Seq::empty(),
        },
        contribution_amount: msg.contribution_amount,
        total_cycles: msg.total_cycles,
        cycle_duration: msg.cycle_duration,
        distribution_mode: msg.distribution_mode,
        start_mode: msg.start_mode,
        start_condition_auto: msg.start_condition_auto,
        deposit_deadline: msg.deposit_deadline,
        grace_seconds: msg.grace_seconds,
        late_penalty_percent: msg.late_penalty_percent,
        late_strike_limit: msg.late_strike_limit,
        distribution_calendar: addrs(msg.distribution_calendar@),
        allow_member_exit: msg.allow_member_exit,
        allow_member_add: msg.allow_member_add,
        early_withdrawal_penalty: msg.early_withdrawal_penalty,
        forbid_overpay: msg.forbid_overpay,
        forbid_underpay: msg.forbid_underpay,
        current_cycle: 0,
        completed: false,
        penalties_reserve: 0,
        member_strikes: Seq::empty(),
        member_contributions: Seq::empty(),
        calendar_locked: false,
        current_cycle_start: None,
        pending_exits: Seq::empty(),
        penalties_carry_over: 0,
        max_members: msg.max_members,
        caution_deposit: msg.caution_deposit,
        locked_caution: 0,
    }
}

/// The profiles of a creation message, later pairs replacing earlier ones.
fn profiles_of(list: &Vec<(String, MemberProfile)>) -> (m: KeyedMap<String, MemberProfile>)
    ensures
        m.pairs() == profiles_from(list@),
{
    let mut m: KeyedMap<String, MemberProfile> = KeyedMap::new();
    let n = list.len();
    let mut i: usize = 0;
    assert(list@.take(0) =~= Seq::<(String, MemberProfile)>::empty());
    while i < n
        invariant
            n == list@.len(),
            i <= n,
            m.pairs() == profiles_from(list@.take(i as int)),
        decreases n - i,
    {
        assert(list@.take(i + 1).drop_last() =~= list@.take(i as int));
        m.insert(list[i].0.clone(), list[i].1.duplicate());
        i = i + 1;
    }
    assert(list@.take(n as int) =~= list@);
    m
}

/// Creates a group from a message whose addresses the host has validated;
/// refuses one that lists more initial members than the group admits.
pub fn instantiate(msg: InstantiateMsg) -> (r: Result<(TontineState, Outcome), ContractError>)
    ensures
        r is Ok <==> msg.members@.len() <= msg.max_members,
        r matches Ok(p) ==> p.0@ == instantiated(msg) && p.1@ == saved(Label::Instantiate),
        r matches Err(e) ==> e == ContractError::TooManyMembers,
{
    let ghost m = msg;
    if msg.members.len() as u64 > msg.max_members as u64 {
        return Err(ContractError::TooManyMembers);
    }
    let member_profiles = match &msg.member_profiles {
        Some(list) => profiles_of(list),
        None => KeyedMap::new(),
    };
    let state = TontineState {
        name: msg.name,
        symbol: msg.symbol,
        admin: msg.admin,
        members: msg.members,
        member_profiles,
        contribution_amount: msg.contribution_amount,
        total_cycles: msg.total_cycles,
        cycle_duration: msg.cycle_duration,
        distribution_mode: msg.distribution_mode,
        start_mode: msg.start_mode,
        start_condition_auto: msg.start_condition_auto,
        deposit_deadline: msg.deposit_deadline,
        grace_seconds: msg.grace_seconds,
        late_penalty_percent: msg.late_penalty_percent,
        late_strike_limit: msg.late_strike_limit,
        distribution_calendar: msg.distribution_calendar,
        allow_member_exit: msg.allow_member_exit,
        allow_member_add: msg.allow_member_add,
        early_withdrawal_penalty: msg.early_withdrawal_penalty,
        forbid_overpay: msg.forbid_overpay,
        forbid_underpay: msg.forbid_underpay,
        current_cycle: 0,
        completed: false,
        penalties_reserve: 0,
        member_strikes: KeyedMap::new(),
        member_contributions: KeyedMap::new(),
        calendar_locked: false,
        current_cycle_start: None,
        pending_exits: Vec::new(),
        penalties_carry_over: 0,
        max_members: msg.max_members,
        caution_deposit: msg.caution_deposit,
        locked_caution: 0,
    };
    assert(state@ =~= instantiated(m));
    Ok((state, Outcome::saved(Label::Instantiate)))
}

/// Handles a state-changing request unless the rules' arithmetic would
/// leave the machine integers: then it answers `None` and leaves the state
/// as it was; otherwise it answers what `execute` answers.
pub fn try_execute(
    state: &mut TontineState,
    ctx: &CallContext,
    msg: &ExecuteMsg,
    checks: &Vec<Option<String>>,
    stored: &Vec<Option<Vec<u8>>>,
) -> (r: Option<Result<Outcome, ContractError>>)
    ensures
        match r {
            None => step(old(state)@, ctx@, msg.action, checks_view(checks@), stored_view(stored@)) is ArithmeticFault
                && final(state)@ == old(state)@,
            Some(Ok(o)) => step(old(state)@, ctx@, msg.action, checks_view(checks@), stored_view(stored@))
                == Transition::Accepted(final(state)@, o@),
            Some(Err(e)) => step(old(state)@, ctx@, msg.action, checks_view(checks@), stored_view(stored@))
                == Transition::Refused(e) && final(state)@ == old(state)@,
        },
{
    if execute_faults(state, ctx, msg, checks, stored) {
        None
    } else {
        Some(execute(state, ctx, msg, checks, stored))
    }
}

/// What a query answers, as the rules define it. For a member report
/// `stored[i]` is what the store holds for the member's payment in cycle
/// `i + 1`; for a cycle report, what it holds for member `i`'s payment in
/// that cycle (see `query_keys`).
pub open spec fn query_answers(
    s: TontineView,
    q: Query,
    checks: Seq<Option<Seq<char>>>,
    stored: Seq<Option<Seq<u8>>>,
    r: Result<QueryAnswer, ContractError>,
) -> bool {
    match q {
        Query::GetGroupInfo {  } => r matches Ok(QueryAnswer::GroupInfo(g)) && group_info_is(g, s),
        Query::GetMemberInfo { addr: _ } => match checked(checks, 0) {
            None => r matches Err(e) && e == ContractError::InvalidAddress { index: 0 },
            Some(a) => match payments_read(stored, reported_cycles(s)) {
                None => r matches Err(e) && e == ContractError::UnreadableContribution,
                Some(ps) => r matches Ok(QueryAnswer::MemberInfo(m)) && member_info_is(m, s, a, ps),
            },
        },
        Query::GetCycleInfo { cycle } => match stored_total(stored, s.members.len()) {
            None => r matches Err(e) && e == ContractError::UnreadableContribution,
            Some(t) => r matches Ok(QueryAnswer::CycleInfo(c)) && cycle_info_is(c, s, cycle, t),
        },
        Query::GetDistributionCalendar {  } => r matches Ok(QueryAnswer::DistributionCalendar(c))
            && addrs(c@) == s.distribution_calendar,
    }
}

/// The keys of the payment records a member report reads: the member's
/// payment for each cycle from the first to the current one (at least the
/// first).
pub fn member_info_keys(state: &TontineState, addr: &String) -> (keys: Vec<Vec<u8>>)
    ensures
        keys@.len() == reported_cycles(state@),
        forall|i: int|
            0 <= i < keys@.len() ==> #[trigger] keys@[i]@ == contribution_key_bytes(
                addr@,
                (i + 1) as u32,
            ),
{
    let last: u64 = if state.current_cycle == 0 {
        1
    } else {
        state.current_cycle as u64
    };
    let mut keys: Vec<Vec<u8>> = Vec::new();
    let mut c: u64 = 1;
    while c <= last
        invariant
            1 <= c <= last + 1,
            last == reported_cycles(state@),
            last <= u32::MAX,
            keys@.len() == c - 1,
            forall|i: int|
                0 <= i < keys@.len() ==> #[trigger] keys@[i]@ == contribution_key_bytes(
                    addr@,
                    (i + 1) as u32,
                ),
        decreases last + 1 - c,
    {
        keys.push(contribution_key(addr, c as u32));
        c = c + 1;
    }
    keys
}

/// The keys of the payment records a cycle report reads: each member's
/// payment for the cycle, in member order.
pub fn cycle_info_keys(state: &TontineState, cycle: u32) -> (keys: Vec<Vec<u8>>)
    ensures
        keys@.len() == state@.members.len(),
        forall|i: int|
            0 <= i < keys@.len() ==> #[trigger] keys@[i]@ == contribution_key_bytes(
                state@.members[i],
                cycle,
            ),
{
    let n = state.members.len();
    let mut keys: Vec<Vec<u8>> = Vec::new();
    let mut i: usize = 0;
    while i < n
        invariant
            n == state.members@.len(),
            i <= n,
            keys@.len() == i,
            forall|j: int|
                0 <= j < i ==> #[trigger] keys@[j]@ == contribution_key_bytes(
                    state@.members[j],
                    cycle,
                ),
        decreases n - i,
    {
        keys.push(contribution_key(&state.members[i], cycle));
        i = i + 1;
    }
    keys
}

/// The keys of the payment records a query reads: those of `member_info_keys`
/// for a member report on a validated address, those of `cycle_info_keys`
/// for a cycle report, none otherwise.
pub fn query_keys(state: &TontineState, msg: &QueryMsg, checks: &Vec<Option<String>>) -> (keys: Vec<
    Vec<u8>,
>)
    ensures
        match msg.query {
            Query::GetMemberInfo { addr: _ } => match checked(checks_view(checks@), 0) {
                Some(a) => keys@.len() == reported_cycles(state@) && forall|i: int|
                    0 <= i < keys@.len() ==> #[trigger] keys@[i]@ == contribution_key_bytes(
                        a,
                        (i + 1) as u32,
                    ),
                None => keys@.len() == 0,
            },
            Query::GetCycleInfo { cycle } => keys@.len() == state@.members.len() && forall|i: int|
                0 <= i < keys@.len() ==> #[trigger] keys@[i]@ == contribution_key_bytes(
                    state@.members[i],
                    cycle,
                ),
            _ => keys@.len() == 0,
        },
{
    match &msg.query {
        Query::GetMemberInfo { addr: _ } => match checked_addr(checks, 0) {
            Some(a) => member_info_keys(state, &a),
            None => Vec::new(),
        },
        Query::GetCycleInfo { cycle } => cycle_info_keys(state, *cycle),
        _ => Vec::new(),
    }
}

/// Answers a read-only query on the stored state.
///
/// `checks[0]` is the host's validation of the address a member query
/// names, `None` when the host refused it; `stored[i]` is what the store
/// holds under `query_keys(state, msg, checks)[i]`. Queries whose sums
/// leave the amount type are excluded (see `query_overflows`).
pub fn query(
    state: &TontineState,
    msg: &QueryMsg,
    checks: &Vec<Option<String>>,
    stored: &Vec<Option<Vec<u8>>>,
) -> (r: Result<QueryAnswer, ContractError>)
    requires
        !query_faults(state@, msg.query, stored_view(stored@)),
    ensures
        query_answers(state@, msg.query, checks_view(checks@), stored_view(stored@), r),
{
    match &msg.query {
        Query::GetGroupInfo {  } => Ok(QueryAnswer::GroupInfo(state.group_info())),
        Query::GetMemberInfo { addr: _ } => match checked_addr(checks, 0) {
            None => Err(ContractError::InvalidAddress { index: 0 }),
            Some(a) => match state.member_info(a, stored) {
                Ok(m) => Ok(QueryAnswer::MemberInfo(m)),
                Err(e) => Err(e),
            },
        },
        Query::GetCycleInfo { cycle } => match state.cycle_info(*cycle, stored) {
            Ok(Some(c)) => Ok(QueryAnswer::CycleInfo(c)),
            Ok(None) => {
                // excluded by the precondition
                assert(false);
                Err(ContractError::InvalidCycle)
            },
            Err(e) => Err(e),
        },
        Query::GetDistributionCalendar {  } => Ok(
            QueryAnswer::DistributionCalendar(copy_addrs(&state.distribution_calendar)),
        ),
    }
}

/// Whether answering the query takes a sum out of the amount type, on which
/// the query is to be aborted.
pub fn query_overflows(state: &TontineState, msg: &QueryMsg, stored: &Vec<Option<Vec<u8>>>) -> (b:
    bool)
    ensures
        b == query_faults(state@, msg.query, stored_view(stored@)),
{
    match &msg.query {
        Query::GetCycleInfo { cycle } => match state.cycle_info(*cycle, stored) {
            Ok(None) => true,
            _ => false,
        },
        _ => false,
    }
}

/// Answers a query unless one of its sums would leave the amount type: then
/// it answers `None`; otherwise it answers what `query` answers.
pub fn try_query(
    state: &TontineState,
    msg: &QueryMsg,
    checks: &Vec<Option<String>>,
    stored: &Vec<Option<Vec<u8>>>,
) -> (r: Option<Result<QueryAnswer, ContractError>>)
    ensures
        r is None <==> query_faults(state@, msg.query, stored_view(stored@)),
        r matches Some(a) ==> query_answers(
            state@,
            msg.query,
            checks_view(checks@),
            stored_view(stored@),
            a,
        ),
{
    if query_overflows(state, msg, stored) {
        None
    } else {
        Some(query(state, msg, checks, stored))
    }
}

} // verus!
