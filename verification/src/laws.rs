use vstd::prelude::*;

use crate::lists::lemma_without;
use crate::model::{
    checked, computed_calendar, without, deadline_of, exit_fold, grace_end_of, rotate_left, step,
    stored_at, strikes_of, tally, Tally, Transition,
};
use crate::answers::{
    payments_read, query_faults, recipient_of, reported_cycles, status_of, stored_total, CycleStatus,
};
use crate::msg::{native_amount, Action, ContextView, Query};
use crate::response::OutcomeView;
use crate::state::{DistributionMode, StartConditionAuto, StartMode, TontineView};
use crate::storage::{
    be_bytes_u32, contribution_key_bytes, decimal_digits, decoded_u128, decoded_u8, json_u128_bytes,
    json_u8_bytes, state_key_bytes, strikes_key_bytes,
};
use vstd::utf8::{encode_utf8, encode_utf8_decode_utf8, is_ascii_chars_encode_utf8};
use crate::keyed_map::{keys_distinct, pairs_to_map};
use crate::contract::query_answers;
use crate::answers::QueryAnswer;
use crate::error::ContractError;

verus! {

/// No address occurs twice in the list.
pub open spec fn no_duplicates(s: Seq<Seq<char>>) -> bool {
    forall|i: int, j: int| 0 <= i < s.len() && 0 <= j < s.len() && i != j ==> s[i] != s[j]
}

/// Once the calendar is locked, no accepted request changes the payout
/// order or unlocks it.
pub proof fn law_locked_calendar_is_kept(
    s: TontineView,
    c: ContextView,
    action: Action,
    checks: Seq<Option<Seq<char>>>,
    stored: Seq<Option<Seq<u8>>>,
)
    requires
        s.calendar_locked,
    ensures
        step(s, c, action, checks, stored) matches Transition::Accepted(t, _)
            ==> t.distribution_calendar == s.distribution_calendar && t.calendar_locked,
{
}

/// No accepted request moves the current cycle backwards.
pub proof fn law_cycle_never_decreases(
    s: TontineView,
    c: ContextView,
    action: Action,
    checks: Seq<Option<Seq<char>>>,
    stored: Seq<Option<Seq<u8>>>,
)
    ensures
        step(s, c, action, checks, stored) matches Transition::Accepted(t, _) ==> t.current_cycle
            >= s.current_cycle,
{
}

/// The group parameters fixed at creation never change.
pub proof fn law_parameters_are_fixed(
    s: TontineView,
    c: ContextView,
    action: Action,
    checks: Seq<Option<Seq<char>>>,
    stored: Seq<Option<Seq<u8>>>,
)
    ensures
        step(s, c, action, checks, stored) matches Transition::Accepted(t, _) ==> {
            &&& t.admin == s.admin
            &&& t.contribution_amount == s.contribution_amount
            &&& t.total_cycles == s.total_cycles
            &&& t.distribution_mode == s.distribution_mode
            &&& t.start_mode == s.start_mode
            &&& t.late_penalty_percent == s.late_penalty_percent
            &&& t.late_strike_limit == s.late_strike_limit
            &&& t.max_members == s.max_members
            &&& t.caution_deposit == s.caution_deposit
        },
{
    match action {
        Action::AddMember { .. } => {},
        Action::RemoveMember { .. } => {},
        Action::UpdateProfile { .. } => {},
        Action::InitiateStart {  } => {},
        Action::AutoStart {  } => {},
        Action::ComputeDistributionCalendar {  } => {},
        Action::Deposit { .. } => {},
        Action::RecordLatePayment { .. } => {},
        Action::ApplyPenalty { .. } => {},
        Action::TriggerPayout {  } => {},
        Action::DistributePenalties {  } => {},
        Action::ViewCalendar {  } => {},
        Action::RequestExit {  } => {},
        Action::ProcessExit {  } => {},
        Action::ReplaceMember { .. } => {},
    }
}

/// Only a member can pay in, only for the current started cycle, only within
/// the grace window, and never against the pay-exactly rules in force.
pub proof fn law_deposit_admission(
    s: TontineView,
    c: ContextView,
    cycle: u32,
    checks: Seq<Option<Seq<char>>>,
    stored: Seq<Option<Seq<u8>>>,
)
    ensures
        step(s, c, Action::Deposit { cycle }, checks, stored) is Accepted ==> {
            &&& s.members.contains(c.sender)
            &&& cycle == s.current_cycle
            &&& cycle != 0
            &&& s.current_cycle_start matches Some(start) && c.block_time <= grace_end_of(s, start)
            &&& s.forbid_overpay ==> native_amount(c.funds) <= s.contribution_amount
            &&& s.forbid_underpay ==> native_amount(c.funds) >= s.contribution_amount
        },
{
}

/// A late payment costs the payer one strike and adds the late penalty to
/// the reserve; a payer whose strikes pass the limit is no longer a member.
pub proof fn law_late_deposit_strikes(
    s: TontineView,
    c: ContextView,
    cycle: u32,
    checks: Seq<Option<Seq<char>>>,
    stored: Seq<Option<Seq<u8>>>,
)
    requires
        keys_distinct(s.member_strikes),
        s.current_cycle_start matches Some(start) && c.block_time > deadline_of(s, start),
    ensures
        step(s, c, Action::Deposit { cycle }, checks, stored) matches Transition::Accepted(t, _)
            ==> {
            &&& strikes_of(t.member_strikes, c.sender) == strikes_of(s.member_strikes, c.sender)
                + 1
            &&& t.penalties_reserve == s.penalties_reserve + (s.late_penalty_percent as int
                * s.contribution_amount as int) / 100
            &&& strikes_of(t.member_strikes, c.sender) > s.late_strike_limit ==> !t.members.contains(
                c.sender,
            )
        },
{
    if step(s, c, Action::Deposit { cycle }, checks, stored) is Accepted {
        let a = c.sender;
        let strikes = strikes_of(s.member_strikes, a) + 1;
        crate::keyed_map::lemma_upsert(s.member_strikes, a, strikes as u8);
        lemma_without(s.members, a);
    }
}

/// Member `i` has a stored payment that reads back.
pub open spec fn readable_at(stored: Seq<Option<Seq<u8>>>, i: int) -> bool {
    stored_at(stored, i) matches Some(b) && decoded_u128(b) is Some
}

/// Reading every member's payment succeeds when the tally does: each member
/// has a stored payment that reads back.
proof fn lemma_tally_covers(stored: Seq<Option<Seq<u8>>>, n: nat, i: int)
    requires
        tally(stored, n) is Sum,
        0 <= i < n,
    ensures
        readable_at(stored, i),
    decreases n,
{
    if i < n - 1 {
        lemma_tally_covers(stored, (n - 1) as nat, i);
    }
}

/// A payout happens only when every member's payment for the cycle is
/// stored and readable; it sends the members' payments plus all penalties
/// to the cycle's scheduled recipient, empties the penalty pools, opens the
/// next cycle, and marks the group completed once the cycles are used up.
pub proof fn law_payout_is_complete_and_scheduled(
    s: TontineView,
    c: ContextView,
    checks: Seq<Option<Seq<char>>>,
    stored: Seq<Option<Seq<u8>>>,
)
    ensures
        step(s, c, Action::TriggerPayout {  }, checks, stored) matches Transition::Accepted(t, o)
            ==> {
            &&& c.sender == s.admin
            &&& forall|i: int| 0 <= i < s.members.len() ==> #[trigger] readable_at(stored, i)
            &&& tally(stored, s.members.len()) matches Tally::Sum(paid) && o.payout == Some(
                (
                    s.distribution_calendar[s.current_cycle - 1],
                    (paid + s.penalties_reserve + s.penalties_carry_over) as u128,
                ),
            )
            &&& t.penalties_reserve == 0 && t.penalties_carry_over == 0
            &&& t.current_cycle == s.current_cycle + 1
            &&& t.completed == (s.completed || s.current_cycle + 1 > s.total_cycles)
            &&& t.members == s.members && t.distribution_calendar == s.distribution_calendar
        },
{
    if step(s, c, Action::TriggerPayout {  }, checks, stored) is Accepted {
        assert forall|i: int| 0 <= i < s.members.len() implies #[trigger] readable_at(stored, i) by {
            lemma_tally_covers(stored, s.members.len(), i);
        }
    }
}

/// Moving the penalties to the next payout keeps the total held.
pub proof fn law_penalty_pool_is_conserved(
    s: TontineView,
    c: ContextView,
    checks: Seq<Option<Seq<char>>>,
    stored: Seq<Option<Seq<u8>>>,
)
    ensures
        step(s, c, Action::DistributePenalties {  }, checks, stored) matches Transition::Accepted(
            t,
            _,
        ) ==> t.penalties_reserve + t.penalties_carry_over == s.penalties_reserve
            + s.penalties_carry_over,
{
}

/// Adding a member never takes the group past its size limit nor lists a
/// member twice, and locks one more caution deposit.
pub proof fn law_add_member_keeps_roster_sound(
    s: TontineView,
    c: ContextView,
    addr: String,
    pseudo: Option<String>,
    checks: Seq<Option<Seq<char>>>,
    stored: Seq<Option<Seq<u8>>>,
)
    requires
        s.members.len() <= s.max_members,
        no_duplicates(s.members),
    ensures
        step(s, c, Action::AddMember { addr, pseudo }, checks, stored) matches Transition::Accepted(
            t,
            _,
        ) ==> {
            &&& t.members.len() <= t.max_members
            &&& no_duplicates(t.members)
            &&& s.current_cycle == 0
            &&& native_amount(c.funds) >= s.caution_deposit
            &&& t.locked_caution == s.locked_caution + s.caution_deposit
            &&& checked(checks, 0) matches Some(a) && t.members == s.members.push(a)
        },
{
    if step(s, c, Action::AddMember { addr, pseudo }, checks, stored) is Accepted {
        let a = checked(checks, 0)->0;
        let t = s.members.push(a);
        assert forall|i: int, j: int|
            0 <= i < t.len() && 0 <= j < t.len() && i != j implies t[i] != t[j] by {
            if i == s.members.len() {
                assert(s.members[j] == t[j]);
            } else if j == s.members.len() {
                assert(s.members[i] == t[i]);
            }
        }
    }
}

/// A removed member is no longer a member, and nobody else is affected.
pub proof fn law_removed_member_is_gone(
    s: TontineView,
    c: ContextView,
    addr: String,
    checks: Seq<Option<Seq<char>>>,
    stored: Seq<Option<Seq<u8>>>,
)
    ensures
        step(s, c, Action::RemoveMember { addr }, checks, stored) matches Transition::Accepted(t, _)
            ==> checked(checks, 0) matches Some(a) && !t.members.contains(a) && forall|
            y: Seq<char>,
        | y != a ==> (#[trigger] t.members.contains(y) == s.members.contains(y)),
{
    if let Some(a) = checked(checks, 0) {
        lemma_without(s.members, a);
    }
}

/// Every pending exit taken in order leaves none of the exiting addresses
/// among the members, and keeps every other member.
proof fn lemma_exit_fold(members: Seq<Seq<char>>, pending: Seq<Seq<char>>)
    ensures
        forall|x: Seq<char>| #[trigger] pending.contains(x) ==> !exit_fold(members, pending).0.contains(x),
        forall|y: Seq<char>|
            !pending.contains(y) ==> (#[trigger] exit_fold(members, pending).0.contains(y)
                == members.contains(y)),
    decreases pending.len(),
{
    if pending.len() > 0 {
        let p = pending.drop_last();
        let last = pending.last();
        lemma_exit_fold(members, p);
        let (m, k) = exit_fold(members, p);
        lemma_without(m, last);
        assert forall|x: Seq<char>| #[trigger] pending.contains(x) implies !exit_fold(
            members,
            pending,
        ).0.contains(x) by {
            let i = choose|i: int| 0 <= i < pending.len() && pending[i] == x;
            if i < pending.len() - 1 {
                assert(p[i] == x);
                assert(p.contains(x));
            }
        }
        assert forall|y: Seq<char>| !pending.contains(y) implies (#[trigger] exit_fold(
            members,
            pending,
        ).0.contains(y) == members.contains(y)) by {
            assert(!p.contains(y)) by {
                if p.contains(y) {
                    let i = choose|i: int| 0 <= i < p.len() && p[i] == y;
                    assert(pending[i] == y);
                }
            }
            assert(pending[pending.len() - 1] == last);
        }
    }
}

/// Processing exits removes every address that asked to leave, keeps every
/// other member, and clears the requests.
pub proof fn law_processed_exits_leave(
    s: TontineView,
    c: ContextView,
    checks: Seq<Option<Seq<char>>>,
    stored: Seq<Option<Seq<u8>>>,
)
    ensures
        step(s, c, Action::ProcessExit {  }, checks, stored) matches Transition::Accepted(t, _)
            ==> {
            &&& t.pending_exits.len() == 0
            &&& forall|x: Seq<char>| #[trigger] s.pending_exits.contains(x) ==> !t.members.contains(x)
            &&& forall|y: Seq<char>|
                !s.pending_exits.contains(y) ==> (#[trigger] t.members.contains(y)
                    == s.members.contains(y))
        },
{
    lemma_exit_fold(s.members, s.pending_exits);
}

/// Rotating a list keeps its length and its elements.
proof fn lemma_rotation(s: Seq<Seq<char>>, k: int)
    requires
        0 <= k <= s.len(),
    ensures
        rotate_left(s, k).len() == s.len(),
        forall|x: Seq<char>| #[trigger] rotate_left(s, k).contains(x) == s.contains(x),
{
    let r = rotate_left(s, k);
    assert forall|x: Seq<char>| #[trigger] r.contains(x) == s.contains(x) by {
        if s.contains(x) {
            let i = choose|i: int| 0 <= i < s.len() && s[i] == x;
            if i >= k {
                assert(r[i - k] == x);
            } else {
                assert(r[s.len() - k + i] == x);
            }
        }
        if r.contains(x) {
            let j = choose|j: int| 0 <= j < r.len() && r[j] == x;
            if j < s.len() - k {
                assert(s[j + k] == x);
            } else {
                assert(s[j - (s.len() - k)] == x);
            }
        }
    }
}

/// A computed calendar in join order or in rotated order schedules exactly
/// the members, each as often as it is listed.
pub proof fn law_computed_calendar_covers_members(s: TontineView, height: u64)
    requires
        s.distribution_mode != DistributionMode::Custom,
    ensures
        computed_calendar(s, height).len() == s.members.len(),
        forall|x: Seq<char>| #[trigger] computed_calendar(s, height).contains(x) == s.members.contains(x),
        s.distribution_mode == DistributionMode::Fifo ==> computed_calendar(s, height) == s.members,
{
    if s.distribution_mode == DistributionMode::Random && s.members.len() > 0 {
        let k = ((height as usize) as int) % (s.members.len() as int);
        lemma_rotation(s.members, k);
    }
}

/// Starting, manually or automatically, opens cycle one at the block time
/// and locks the calendar.
pub proof fn law_start_opens_first_cycle(
    s: TontineView,
    c: ContextView,
    action: Action,
    checks: Seq<Option<Seq<char>>>,
    stored: Seq<Option<Seq<u8>>>,
)
    requires
        action is InitiateStart || action is AutoStart,
    ensures
        step(s, c, action, checks, stored) matches Transition::Accepted(t, _) ==> {
            &&& s.current_cycle == 0
            &&& t.current_cycle == 1
            &&& t.current_cycle_start == Some(c.block_time)
            &&& t.calendar_locked
        },
{
}

/// The number a string of ASCII decimal digits denotes.
pub open spec fn digits_value(s: Seq<u8>) -> int
    decreases s.len(),
{
    if s.len() == 0 {
        0
    } else {
        digits_value(s.drop_last()) * 10 + (s.last() as int - 48)
    }
}

/// The decimal digits of `n` denote `n`.
proof fn lemma_digits_value(n: nat)
    ensures
        digits_value(decimal_digits(n)) == n,
    decreases n,
{
    let d = decimal_digits(n);
    if n >= 10 {
        lemma_digits_value(n / 10);
        assert(d.drop_last() =~= decimal_digits(n / 10));
        assert(d.last() as int == 48 + n % 10);
        assert(n == (n / 10) * 10 + n % 10);
        assert(d.len() > 0);
        assert(digits_value(d) == digits_value(d.drop_last()) * 10 + (d.last() as int - 48));
        assert(digits_value(d.drop_last()) == n / 10);
    } else {
        assert(d.drop_last() =~= Seq::<u8>::empty());
        assert(d.last() as int == 48 + n);
        assert(digits_value(d) == digits_value(d.drop_last()) * 10 + (d.last() as int - 48));
    }
}

/// A stored payment reads back as the amount written.
pub proof fn law_contribution_reads_back(x: u128)
    ensures
        decoded_u128(json_u128_bytes(x)) == Some(x),
{
    let b = json_u128_bytes(x);
    assert(b == json_u128_bytes(x));
    let y = choose|y: u128| b == json_u128_bytes(y);
    assert(b.subrange(1, b.len() - 1) =~= decimal_digits(x as nat));
    assert(json_u128_bytes(y).subrange(1, json_u128_bytes(y).len() - 1) =~= decimal_digits(
        y as nat,
    ));
    lemma_digits_value(x as nat);
    lemma_digits_value(y as nat);
}

/// A stored strike count reads back as the count written.
pub proof fn law_strikes_read_back(x: u8)
    ensures
        decoded_u8(json_u8_bytes(x)) == Some(x),
{
    let b = json_u8_bytes(x);
    assert(b == json_u8_bytes(x));
    let y = choose|y: u8| b == json_u8_bytes(y);
    lemma_digits_value(x as nat);
    lemma_digits_value(y as nat);
}

/// The four bytes of a number determine it.
proof fn lemma_be_bytes_injective(a: u32, b: u32)
    requires
        be_bytes_u32(a) == be_bytes_u32(b),
    ensures
        a == b,
{
    assert(be_bytes_u32(a)[0] == be_bytes_u32(b)[0]);
    assert(be_bytes_u32(a)[1] == be_bytes_u32(b)[1]);
    assert(be_bytes_u32(a)[2] == be_bytes_u32(b)[2]);
    assert(be_bytes_u32(a)[3] == be_bytes_u32(b)[3]);
    let (x, y) = (a as int, b as int);
    assert(x / 0x100_0000 == y / 0x100_0000);
    assert((x / 0x1_0000) % 0x100 == (y / 0x1_0000) % 0x100);
    assert((x / 0x100) % 0x100 == (y / 0x100) % 0x100);
    assert(x % 0x100 == y % 0x100);
    assert(x == y) by (nonlinear_arith)
        requires
            0 <= x < 0x1_0000_0000,
            0 <= y < 0x1_0000_0000,
            x / 0x100_0000 == y / 0x100_0000,
            (x / 0x1_0000) % 0x100 == (y / 0x1_0000) % 0x100,
            (x / 0x100) % 0x100 == (y / 0x100) % 0x100,
            x % 0x100 == y % 0x100,
    ;
}

/// Distinct members or cycles have their payments stored under distinct
/// keys.
pub proof fn law_contribution_keys_are_distinct(a: Seq<char>, c: u32, a2: Seq<char>, c2: u32)
    ensures
        contribution_key_bytes(a, c) == contribution_key_bytes(a2, c2) ==> a == a2 && c == c2,
{
    let k = contribution_key_bytes(a, c);
    let k2 = contribution_key_bytes(a2, c2);
    if k == k2 {
        let p = encode_utf8("member_contributions"@);
        let u = encode_utf8(a);
        let u2 = encode_utf8(a2);
        assert(u =~= k.subrange(p.len() as int, k.len() - 4));
        assert(u2 =~= k2.subrange(p.len() as int, k2.len() - 4));
        encode_utf8_decode_utf8(a);
        encode_utf8_decode_utf8(a2);
        assert(be_bytes_u32(c) =~= k.subrange(k.len() - 4, k.len() as int));
        assert(be_bytes_u32(c2) =~= k2.subrange(k2.len() - 4, k2.len() as int));
        lemma_be_bytes_injective(c, c2);
    }
}

/// Distinct members have their strike counts stored under distinct keys.
pub proof fn law_strikes_keys_are_distinct(a: Seq<char>, a2: Seq<char>)
    ensures
        strikes_key_bytes(a) == strikes_key_bytes(a2) ==> a == a2,
{
    let k = strikes_key_bytes(a);
    let k2 = strikes_key_bytes(a2);
    if k == k2 {
        let p = encode_utf8("member_strikes"@);
        assert(encode_utf8(a) =~= k.subrange(p.len() as int, k.len() as int));
        assert(encode_utf8(a2) =~= k2.subrange(p.len() as int, k2.len() as int));
        encode_utf8_decode_utf8(a);
        encode_utf8_decode_utf8(a2);
    }
}

/// The bytes of the key prefixes.
proof fn lemma_prefix_bytes()
    ensures
        encode_utf8("member_contributions"@).len() == 20,
        encode_utf8("member_contributions"@)[0] == 109,
        encode_utf8("member_contributions"@)[7] == 99,
        encode_utf8("member_strikes"@).len() == 14,
        encode_utf8("member_strikes"@)[0] == 109,
        encode_utf8("member_strikes"@)[7] == 115,
        encode_utf8("state"@).len() == 5,
        encode_utf8("state"@)[0] == 115,
{
    reveal_strlit("member_contributions");
    reveal_strlit("member_strikes");
    reveal_strlit("state");
    is_ascii_chars_encode_utf8("member_contributions"@);
    is_ascii_chars_encode_utf8("member_strikes"@);
    is_ascii_chars_encode_utf8("state"@);
}

/// Payments, strike counts and the group state never share a key.
pub proof fn law_key_families_are_disjoint(a: Seq<char>, c: u32, a2: Seq<char>)
    ensures
        contribution_key_bytes(a, c) != strikes_key_bytes(a2),
        contribution_key_bytes(a, c) != state_key_bytes(),
        strikes_key_bytes(a2) != state_key_bytes(),
{
    lemma_prefix_bytes();
    let k = contribution_key_bytes(a, c);
    let k2 = strikes_key_bytes(a2);
    assert(k[7] == 99);
    assert(k2[7] == 115);
    assert(k[0] == 109);
    assert(k2[0] == 109);
    assert(state_key_bytes()[0] == 115);
}

/// The store after saving payments in order: each saved amount is written,
/// as its JSON text, under the key of its member and cycle.
pub open spec fn save_contributions(
    store: Map<Seq<u8>, Seq<u8>>,
    saves: Seq<(Seq<char>, u32, u128)>,
) -> Map<Seq<u8>, Seq<u8>>
    decreases saves.len(),
{
    if saves.len() == 0 {
        store
    } else {
        let (a, c, x) = saves.last();
        save_contributions(store, saves.drop_last()).insert(
            contribution_key_bytes(a, c),
            json_u128_bytes(x),
        )
    }
}

/// The store after saving strike counts in order.
pub open spec fn save_strikes(store: Map<Seq<u8>, Seq<u8>>, saves: Seq<(Seq<char>, u8)>) -> Map<
    Seq<u8>,
    Seq<u8>,
>
    decreases saves.len(),
{
    if saves.len() == 0 {
        store
    } else {
        let (a, n) = saves.last();
        save_strikes(store, saves.drop_last()).insert(strikes_key_bytes(a), json_u8_bytes(n))
    }
}

/// Loading a member's payment for a cycle gives the last amount saved for
/// that member and cycle, whatever was saved before it or for others after.
pub proof fn law_last_saved_contribution_loads(
    store: Map<Seq<u8>, Seq<u8>>,
    saves: Seq<(Seq<char>, u32, u128)>,
    i: int,
)
    requires
        0 <= i < saves.len(),
        forall|j: int|
            i < j < saves.len() ==> (#[trigger] saves[j].0, saves[j].1) != (saves[i].0, saves[i].1),
    ensures
        save_contributions(store, saves).contains_key(contribution_key_bytes(saves[i].0, saves[i].1)),
        decoded_u128(save_contributions(store, saves)[contribution_key_bytes(saves[i].0, saves[i].1)])
            == Some(saves[i].2),
    decreases saves.len(),
{
    let k = contribution_key_bytes(saves[i].0, saves[i].1);
    if i == saves.len() - 1 {
        law_contribution_reads_back(saves[i].2);
    } else {
        let p = saves.drop_last();
        assert forall|j: int| i < j < p.len() implies (#[trigger] p[j].0, p[j].1) != (
            p[i].0,
            p[i].1,
        ) by {
            assert(p[j] == saves[j]);
        }
        law_last_saved_contribution_loads(store, p, i);
        let (a, c, x) = saves.last();
        assert((saves[saves.len() - 1].0, saves[saves.len() - 1].1) != (saves[i].0, saves[i].1));
        law_contribution_keys_are_distinct(a, c, saves[i].0, saves[i].1);
        assert(p[i] == saves[i]);
    }
}

/// Loading a member's strike count gives the last count saved for that
/// member, whatever was saved before it or for others after.
pub proof fn law_last_saved_strikes_load(
    store: Map<Seq<u8>, Seq<u8>>,
    saves: Seq<(Seq<char>, u8)>,
    i: int,
)
    requires
        0 <= i < saves.len(),
        forall|j: int| i < j < saves.len() ==> (#[trigger] saves[j]).0 != saves[i].0,
    ensures
        save_strikes(store, saves).contains_key(strikes_key_bytes(saves[i].0)),
        decoded_u8(save_strikes(store, saves)[strikes_key_bytes(saves[i].0)]) == Some(saves[i].1),
    decreases saves.len(),
{
    if i == saves.len() - 1 {
        law_strikes_read_back(saves[i].1);
    } else {
        let p = saves.drop_last();
        assert forall|j: int| i < j < p.len() implies (#[trigger] p[j]).0 != p[i].0 by {
            assert(p[j] == saves[j]);
        }
        law_last_saved_strikes_load(store, p, i);
        let (a, n) = saves.last();
        assert(saves[saves.len() - 1].0 != saves[i].0);
        law_strikes_keys_are_distinct(a, saves[i].0);
        assert(p[i] == saves[i]);
    }
}

/// A deposit stores the amount sent under the key that a payout of that
/// cycle reads for the payer, and a payout reading that record counts the
/// amount sent for the payer.
pub proof fn law_deposit_is_read_by_payout(
    s: TontineView,
    c: ContextView,
    cycle: u32,
    checks: Seq<Option<Seq<char>>>,
    stored: Seq<Option<Seq<u8>>>,
    i: int,
)
    ensures
        step(s, c, Action::Deposit { cycle }, checks, stored) matches Transition::Accepted(t, o)
            ==> {
            &&& t.current_cycle == s.current_cycle
            &&& o.record == Some(
                (contribution_key_bytes(c.sender, t.current_cycle), json_u128_bytes(native_amount(c.funds))),
            )
            &&& (0 <= i < t.members.len() && t.members[i] == c.sender) ==> o.record == Some(
                (
                    contribution_key_bytes(t.members[i], t.current_cycle),
                    json_u128_bytes(native_amount(c.funds)),
                ),
            )
            &&& stored_at(stored, i) == Some(json_u128_bytes(native_amount(c.funds)))
                ==> readable_at(stored, i) && decoded_u128(json_u128_bytes(native_amount(c.funds)))
                == Some(native_amount(c.funds))
        },
{
    law_contribution_reads_back(native_amount(c.funds));
}

/// Members who are all counted under the group's cap stay under it, except
/// when a replacement names an old address that is not a member (the new one
/// is then added without anyone leaving).
pub proof fn law_roster_cap_is_kept(
    s: TontineView,
    c: ContextView,
    action: Action,
    checks: Seq<Option<Seq<char>>>,
    stored: Seq<Option<Seq<u8>>>,
)
    requires
        s.members.len() <= s.max_members,
        !(action is ReplaceMember && !(checked(checks, 0) matches Some(a) && s.members.contains(a))),
    ensures
        step(s, c, action, checks, stored) matches Transition::Accepted(t, _) ==> t.members.len()
            <= t.max_members,
{
    if step(s, c, action, checks, stored) is Accepted {
        match action {
            Action::RemoveMember { .. } => {
                lemma_without(s.members, checked(checks, 0)->0);
            },
            Action::Deposit { .. } => {
                lemma_without(s.members, c.sender);
            },
            Action::RecordLatePayment { .. } => {
                lemma_without(s.members, checked(checks, 0)->0);
            },
            Action::ProcessExit {  } => {
                lemma_exit_fold_shrinks(s.members, s.pending_exits);
            },
            Action::ReplaceMember { .. } => {
                let a = checked(checks, 0)->0;
                lemma_without_drops(s.members, a);
            },
            _ => {},
        }
    }
}

/// Taking pending exits never lengthens the member list.
proof fn lemma_exit_fold_shrinks(members: Seq<Seq<char>>, pending: Seq<Seq<char>>)
    ensures
        exit_fold(members, pending).0.len() <= members.len(),
    decreases pending.len(),
{
    if pending.len() > 0 {
        lemma_exit_fold_shrinks(members, pending.drop_last());
        lemma_without(exit_fold(members, pending.drop_last()).0, pending.last());
    }
}

/// Removing an element that is present shortens the list.
proof fn lemma_without_drops(s: Seq<Seq<char>>, x: Seq<char>)
    requires
        s.contains(x),
    ensures
        without(s, x).len() < s.len(),
    decreases s.len(),
{
    lemma_without(s.drop_last(), x);
    if s.last() != x {
        assert(s.drop_last().contains(x)) by {
            let i = choose|i: int| 0 <= i < s.len() && s[i] == x;
            assert(s.drop_last()[i] == x);
        }
        lemma_without_drops(s.drop_last(), x);
    }
}

/// The key of the record an outcome asks to store.
pub open spec fn record_key(o: OutcomeView) -> Seq<u8> {
    match o.record {
        Some((k, _)) => k,
        None => Seq::empty(),
    }
}

/// The text of the record an outcome asks to store.
pub open spec fn record_value(o: OutcomeView) -> Seq<u8> {
    match o.record {
        Some((_, v)) => v,
        None => Seq::empty(),
    }
}

/// The records a store holds under a list of keys.
pub open spec fn records_under(store: Map<Seq<u8>, Seq<u8>>, keys: Seq<Seq<u8>>) -> Seq<
    Option<Seq<u8>>,
> {
    keys.map_values(
        |k: Seq<u8>|
            if store.contains_key(k) {
                Some(store[k])
            } else {
                None
            },
    )
}

/// The keys a member report on `a` reads: its payment for each cycle
/// `1..=n`.
pub open spec fn member_report_keys(a: Seq<char>, n: nat) -> Seq<Seq<u8>> {
    Seq::new(n, |i: int| contribution_key_bytes(a, (i + 1) as u32))
}

/// A readable record among those a member report reads shows up in the
/// report with its cycle.
proof fn lemma_payments_read_lists(stored: Seq<Option<Seq<u8>>>, n: nat, i: int, v: u128)
    requires
        0 <= i < n,
        stored_at(stored, i) matches Some(b) && decoded_u128(b) == Some(v),
        payments_read(stored, n) is Some,
    ensures
        payments_read(stored, n)->0.contains(((i + 1) as u32, v)),
    decreases n,
{
    let ps = payments_read(stored, n)->0;
    if i == n - 1 {
        assert(ps[ps.len() - 1] == ((i + 1) as u32, v));
    } else {
        lemma_payments_read_lists(stored, (n - 1) as nat, i, v);
        let earlier = payments_read(stored, (n - 1) as nat)->0;
        let j = choose|j: int| 0 <= j < earlier.len() && earlier[j] == ((i + 1) as u32, v);
        assert(ps[j] == earlier[j]);
    }
}

/// A payment a member deposits shows up, with its cycle, in the member's
/// report read from a store holding the deposit's record (unless another of
/// the member's records cannot be read, when the report is refused).
pub proof fn law_deposit_shows_in_member_report(
    s: TontineView,
    c: ContextView,
    cycle: u32,
    checks: Seq<Option<Seq<char>>>,
    stored: Seq<Option<Seq<u8>>>,
    store: Map<Seq<u8>, Seq<u8>>,
)
    ensures
        step(s, c, Action::Deposit { cycle }, checks, stored) matches Transition::Accepted(t, o)
            ==> {
            let written = store.insert(record_key(o), record_value(o));
            let read = records_under(
                written,
                member_report_keys(c.sender, reported_cycles(t)),
            );
            payments_read(read, reported_cycles(t)) matches Some(ps) ==> ps.contains(
                (cycle, native_amount(c.funds)),
            )
        },
{
    if step(s, c, Action::Deposit { cycle }, checks, stored) is Accepted {
        let t = step(s, c, Action::Deposit { cycle }, checks, stored)->Accepted_0;
        let o = step(s, c, Action::Deposit { cycle }, checks, stored)->Accepted_1;
        let sent = native_amount(c.funds);
        let written = store.insert(record_key(o), record_value(o));
        let keys = member_report_keys(c.sender, reported_cycles(t));
        let read = records_under(written, keys);
        let i = cycle - 1;
        assert(keys[i] == contribution_key_bytes(c.sender, cycle));
        law_contribution_reads_back(sent);
        assert(stored_at(read, i) == Some(json_u128_bytes(sent)));
        if payments_read(read, reported_cycles(t)) is Some {
            lemma_payments_read_lists(read, reported_cycles(t), i, sent);
        }
    }
}

/// Reading the members' payments for a payout succeeds only when the cycle
/// report's total reads them too, with the same sum.
proof fn lemma_tally_is_stored_total(stored: Seq<Option<Seq<u8>>>, n: nat)
    requires
        tally(stored, n) is Sum,
    ensures
        tally(stored, n) matches Tally::Sum(t) && stored_total(stored, n) == Some(t),
    decreases n,
{
    if n > 0 {
        lemma_tally_is_stored_total(stored, (n - 1) as nat);
    }
}

/// What a payout sends is what the cycle report of the current cycle shows
/// on the same records: the members' total plus the penalties held; and the
/// payout reads its records under the keys the cycle report reads.
pub proof fn law_payout_matches_cycle_report(
    s: TontineView,
    c: ContextView,
    checks: Seq<Option<Seq<char>>>,
    stored: Seq<Option<Seq<u8>>>,
)
    ensures
        step(s, c, Action::TriggerPayout {  }, checks, stored) matches Transition::Accepted(_, o)
            ==> {
            &&& stored_total(stored, s.members.len()) matches Some(total) && o.payout == Some(
                (
                    s.distribution_calendar[s.current_cycle - 1],
                    (total + s.penalties_reserve + s.penalties_carry_over) as u128,
                ),
            )
            &&& !query_faults(s, Query::GetCycleInfo { cycle: s.current_cycle }, stored)
        },
{
    if step(s, c, Action::TriggerPayout {  }, checks, stored) is Accepted {
        lemma_tally_is_stored_total(stored, s.members.len());
    }
}

/// After a payout the cycle just paid is reported closed and the next one
/// open, with the next scheduled recipient and no penalties held.
pub proof fn law_payout_opens_next_cycle_report(
    s: TontineView,
    c: ContextView,
    checks: Seq<Option<Seq<char>>>,
    stored: Seq<Option<Seq<u8>>>,
)
    ensures
        step(s, c, Action::TriggerPayout {  }, checks, stored) matches Transition::Accepted(t, _)
            ==> {
            &&& status_of(t, s.current_cycle) == CycleStatus::Closed
            &&& status_of(t, (s.current_cycle + 1) as u32) == CycleStatus::Open
            &&& recipient_of(t, (s.current_cycle + 1) as u32) == if s.current_cycle
                < s.distribution_calendar.len() {
                Some(s.distribution_calendar[s.current_cycle as int])
            } else {
                None
            }
            &&& t.penalties_reserve + t.penalties_carry_over == 0
        },
{
}

/// Every member's payment stored and readable means the payments tally up.
proof fn lemma_readable_tallies(stored: Seq<Option<Seq<u8>>>, n: nat)
    requires
        forall|i: int| 0 <= i < n ==> #[trigger] readable_at(stored, i),
    ensures
        tally(stored, n) is Sum,
    decreases n,
{
    if n > 0 {
        lemma_readable_tallies(stored, (n - 1) as nat);
        assert(readable_at(stored, n - 1));
    }
}

/// A payout is refused as an incomplete calendar exactly when the admin asks
/// for it and the calendar has fewer entries than there are members.
pub proof fn law_payout_incomplete_calendar_exactly(
    s: TontineView,
    c: ContextView,
    checks: Seq<Option<Seq<char>>>,
    stored: Seq<Option<Seq<u8>>>,
)
    ensures
        step(s, c, Action::TriggerPayout {  }, checks, stored) == Transition::Refused(
            ContractError::CalendarIncomplete,
        ) <==> (c.sender == s.admin && s.distribution_calendar.len() < s.members.len()),
{
}

/// A payout asked by the admin, with a calendar at least as long as the
/// member list and reaching the current cycle, every member's payment stored
/// and readable and the sums fitting, is accepted: the pot goes to the
/// current cycle's calendar entry and the next cycle opens.
pub proof fn law_payout_accepted_when_paid_in_full(
    s: TontineView,
    c: ContextView,
    checks: Seq<Option<Seq<char>>>,
    stored: Seq<Option<Seq<u8>>>,
)
    requires
        c.sender == s.admin,
        s.distribution_calendar.len() >= s.members.len(),
        forall|i: int| 0 <= i < s.members.len() ==> #[trigger] readable_at(stored, i),
        tally(stored, s.members.len()) matches Tally::Sum(t) && t + s.penalties_reserve
            + s.penalties_carry_over <= u128::MAX,
        1 <= s.current_cycle <= s.distribution_calendar.len(),
        s.current_cycle < u32::MAX,
    ensures
        step(s, c, Action::TriggerPayout {  }, checks, stored) matches Transition::Accepted(t, o)
            && t.current_cycle == s.current_cycle + 1 && o.payout.is_some()
            && o.payout.unwrap().0 == s.distribution_calendar[s.current_cycle - 1],
{
    lemma_readable_tallies(stored, s.members.len());
}

/// A deposit is refused as an overpayment only when overpaying is forbidden
/// and more than the contribution is sent.
pub proof fn law_overpayment_refused_only_when_forbidden(
    s: TontineView,
    c: ContextView,
    cycle: u32,
    checks: Seq<Option<Seq<char>>>,
    stored: Seq<Option<Seq<u8>>>,
)
    ensures
        step(s, c, Action::Deposit { cycle }, checks, stored) == Transition::Refused(
            ContractError::OverpaymentNotAllowed,
        ) ==> s.forbid_overpay && native_amount(c.funds) > s.contribution_amount,
{
}

/// With overpaying allowed, an on-time deposit by a member for the current
/// started cycle that the underpay rule admits is accepted whatever amount is
/// sent, and records that amount.
pub proof fn law_overpayment_accepted_when_allowed(
    s: TontineView,
    c: ContextView,
    checks: Seq<Option<Seq<char>>>,
    stored: Seq<Option<Seq<u8>>>,
)
    requires
        !s.forbid_overpay,
        s.members.contains(c.sender),
        s.current_cycle != 0,
        s.current_cycle_start matches Some(start) && start as int + s.deposit_deadline as int
            * 1_000_000_000 + s.grace_seconds as int * 1_000_000_000 <= u64::MAX && c.block_time
            <= start as int + s.deposit_deadline as int * 1_000_000_000,
        !(s.forbid_underpay && native_amount(c.funds) < s.contribution_amount),
    ensures
        step(s, c, Action::Deposit { cycle: s.current_cycle }, checks, stored) matches Transition::Accepted(
            t,
            o,
        ) && o.record == Some(
            (
                contribution_key_bytes(c.sender, s.current_cycle),
                json_u128_bytes(native_amount(c.funds)),
            ),
        ),
{
}

/// With overpaying allowed, a deposit by a member for the current started
/// cycle that the underpay rule admits and that arrives before the grace
/// window closes is never refused, whatever amount is sent: when it does not
/// overflow the penalty book-keeping of a late payment it is accepted and
/// records the amount sent.
pub proof fn law_overpayment_never_refused_in_grace_window(
    s: TontineView,
    c: ContextView,
    checks: Seq<Option<Seq<char>>>,
    stored: Seq<Option<Seq<u8>>>,
)
    requires
        !s.forbid_overpay,
        s.members.contains(c.sender),
        s.current_cycle != 0,
        s.current_cycle_start is Some,
        grace_end_of(s, s.current_cycle_start.unwrap()) <= u64::MAX,
        c.block_time <= grace_end_of(s, s.current_cycle_start.unwrap()),
        !(s.forbid_underpay && native_amount(c.funds) < s.contribution_amount),
    ensures
        step(s, c, Action::Deposit { cycle: s.current_cycle }, checks, stored) !is Refused,
        step(s, c, Action::Deposit { cycle: s.current_cycle }, checks, stored) matches Transition::Accepted(
            _,
            o,
        ) ==> o.record == Some(
            (
                contribution_key_bytes(c.sender, s.current_cycle),
                json_u128_bytes(native_amount(c.funds)),
            ),
        ),
{
}

/// An accepted late-payment record on `x` raises `x`'s strikes by one, adds
/// the late penalty to the reserve, and leaves `x` out of the members once
/// the new count exceeds the limit; other members stay.
pub proof fn law_record_late_payment_counts_strikes(
    s: TontineView,
    c: ContextView,
    addr: String,
    checks: Seq<Option<Seq<char>>>,
    stored: Seq<Option<Seq<u8>>>,
)
    requires
        keys_distinct(s.member_strikes),
    ensures
        step(s, c, Action::RecordLatePayment { addr }, checks, stored) matches Transition::Accepted(
            t,
            _,
        ) ==> checked(checks, 0) matches Some(x) && {
            let before = if pairs_to_map(s.member_strikes).contains_key(x) {
                pairs_to_map(s.member_strikes)[x] as int
            } else {
                0
            };
            &&& pairs_to_map(t.member_strikes).contains_key(x)
            &&& pairs_to_map(t.member_strikes)[x] == before + 1
            &&& t.penalties_reserve == s.penalties_reserve + (s.late_penalty_percent as int
                * s.contribution_amount as int) / 100
            &&& before + 1 > s.late_strike_limit ==> !t.members.contains(x)
            &&& before + 1 <= s.late_strike_limit ==> t.members == s.members
            &&& forall|y: Seq<char>| y != x ==> (#[trigger] t.members.contains(y) == s.members.contains(y))
        },
{
    if let Some(x) = checked(checks, 0) {
        let strikes = strikes_of(s.member_strikes, x) + 1;
        if strikes <= u8::MAX {
            crate::keyed_map::lemma_upsert(s.member_strikes, x, strikes as u8);
        }
        lemma_without(s.members, x);
    }
}

/// A cycle report says "closed" for every cycle before the current one,
/// "open" for the current one and "future" for every later one.
pub proof fn law_cycle_status_follows_current_cycle(
    s: TontineView,
    cycle: u32,
    checks: Seq<Option<Seq<char>>>,
    stored: Seq<Option<Seq<u8>>>,
    r: Result<QueryAnswer, ContractError>,
)
    requires
        query_answers(s, Query::GetCycleInfo { cycle }, checks, stored, r),
    ensures
        r matches Ok(QueryAnswer::CycleInfo(ci)) ==> {
            &&& ci.cycle == cycle
            &&& cycle < s.current_cycle ==> ci.status == CycleStatus::Closed
            &&& cycle == s.current_cycle ==> ci.status == CycleStatus::Open
            &&& cycle > s.current_cycle ==> ci.status == CycleStatus::Future
        },
{
}

/// An automatic start on a start date is accepted at every block time at or
/// after the date, opening cycle one at that time with the calendar locked,
/// and refused before it.
pub proof fn law_auto_start_on_date(
    s: TontineView,
    c: ContextView,
    ts: u64,
    checks: Seq<Option<Seq<char>>>,
    stored: Seq<Option<Seq<u8>>>,
)
    requires
        s.start_mode == StartMode::Auto,
        s.current_cycle == 0,
        s.start_condition_auto == Some(StartConditionAuto::StartDate(ts)),
    ensures
        c.block_time >= ts ==> (step(s, c, Action::AutoStart {  }, checks, stored) matches Transition::Accepted(
            t,
            _,
        ) && t.current_cycle == 1 && t.current_cycle_start == Some(c.block_time)
            && t.calendar_locked),
        c.block_time < ts ==> step(s, c, Action::AutoStart {  }, checks, stored)
            == Transition::Refused(ContractError::AutoStartConditionsNotMet),
{
}

/// An automatic start on a member count is accepted once the group has at
/// least that many members, opening cycle one with the calendar locked, and
/// refused while it has fewer; with no condition set it is always refused.
pub proof fn law_auto_start_on_member_count(
    s: TontineView,
    c: ContextView,
    checks: Seq<Option<Seq<char>>>,
    stored: Seq<Option<Seq<u8>>>,
)
    requires
        s.start_mode == StartMode::Auto,
        s.current_cycle == 0,
        s.members.len() <= u32::MAX,
    ensures
        s.start_condition_auto matches Some(StartConditionAuto::MembersReached(n))
            ==> (s.members.len() >= n <==> step(s, c, Action::AutoStart {  }, checks, stored) is Accepted),
        s.start_condition_auto matches Some(StartConditionAuto::MembersReached(n)) ==> (s.members.len() < n
            ==> step(s, c, Action::AutoStart {  }, checks, stored) == Transition::Refused(
            ContractError::AutoStartConditionsNotMet,
        )),
        step(s, c, Action::AutoStart {  }, checks, stored) matches Transition::Accepted(t, _) ==> (
        t.current_cycle == 1 && t.current_cycle_start == Some(c.block_time) && t.calendar_locked),
        s.start_condition_auto is None ==> step(s, c, Action::AutoStart {  }, checks, stored)
            == Transition::Refused(ContractError::AutoStartConditionsNotMet),
{
}

} // verus!
