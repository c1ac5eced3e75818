use vstd::prelude::*;

use crate::state::{addrs, DistributionMode, MemberProfile, StartConditionAuto, StartMode};

verus! {

/// The parameters a group is created with. Addresses are the ones the host
/// has already validated; a start date is in nanoseconds.
pub struct InstantiateMsg {
    pub name: String,
    pub symbol: String,
    pub admin: String,
    pub members: Vec<String>,
    pub member_profiles: Option<Vec<(String, MemberProfile)>>,
    pub contribution_amount: u128,
    pub total_cycles: u32,
    pub cycle_duration: u64,
    pub distribution_mode: DistributionMode,
    pub start_mode: StartMode,
    pub start_condition_auto: Option<StartConditionAuto>,
    pub deposit_deadline: u64,
    pub grace_seconds: u32,
    pub late_penalty_percent: u8,
    pub late_strike_limit: u8,
    pub distribution_calendar: Vec<String>,
    pub allow_member_exit: bool,
    pub allow_member_add: bool,
    pub early_withdrawal_penalty: u8,
    pub forbid_overpay: bool,
    pub forbid_underpay: bool,
    pub max_members: u32,
    pub caution_deposit: u128,
}

/// A state-changing request.
pub struct ExecuteMsg {
    pub action: Action,
}

/// The requests a group answers.
pub enum Action {
    AddMember { addr: String, pseudo: Option<String> },
    RemoveMember { addr: String },
    UpdateProfile { addr: String, pseudo: Option<String> },
    InitiateStart {},
    AutoStart {},
    ComputeDistributionCalendar {},
    Deposit { cycle: u32 },
    RecordLatePayment { addr: String },
    ApplyPenalty { addr: String },
    TriggerPayout {},
    DistributePenalties {},
    ViewCalendar {},
    RequestExit {},
    ProcessExit {},
    ReplaceMember { old_addr: String, new_addr: String },
}

/// The addresses a request names, in the order the host validates them.
pub open spec fn action_addresses(a: Action) -> Seq<Seq<char>> {
    match a {
        Action::AddMember { addr, pseudo: _ } => seq![addr@],
        Action::RemoveMember { addr } => seq![addr@],
        Action::UpdateProfile { addr, pseudo: _ } => seq![addr@],
        Action::RecordLatePayment { addr } => seq![addr@],
        Action::ApplyPenalty { addr } => seq![addr@],
        Action::ReplaceMember { old_addr, new_addr } => seq![old_addr@, new_addr@],
        _ => Seq::empty(),
    }
}

impl Action {
    /// The addresses the request names, in the order the host validates them.
    pub fn addresses(&self) -> (r: Vec<String>)
        ensures
            addrs(r@) == action_addresses(*self),
    {
        let mut r: Vec<String> = Vec::new();
        match self {
            Action::AddMember { addr, pseudo: _ } => r.push(addr.clone()),
            Action::RemoveMember { addr } => r.push(addr.clone()),
            Action::UpdateProfile { addr, pseudo: _ } => r.push(addr.clone()),
            Action::RecordLatePayment { addr } => r.push(addr.clone()),
            Action::ApplyPenalty { addr } => r.push(addr.clone()),
            Action::ReplaceMember { old_addr, new_addr } => {
                r.push(old_addr.clone());
                r.push(new_addr.clone());
            },
            _ => {},
        }
        assert(addrs(r@) =~= action_addresses(*self));
        r
    }
}

/// A read-only request.
pub struct QueryMsg {
    pub query: Query,
}

/// The questions a group answers.
pub enum Query {
    GetGroupInfo {},
    GetMemberInfo { addr: String },
    GetCycleInfo { cycle: u32 },
    GetDistributionCalendar {},
}

/// An amount of one denomination sent along with a request.
pub struct Coin {
    pub denom: String,
    pub amount: u128,
}

/// Who sends a request, what it carries, and when it arrives.
pub struct CallContext {
    pub sender: String,
    pub funds: Vec<Coin>,
    pub block_time: u64,
    pub block_height: u64,
}

/// A request's context as a mathematical value.
pub struct ContextView {
    pub sender: Seq<char>,
    pub funds: Seq<(Seq<char>, u128)>,
    pub block_time: u64,
    pub block_height: u64,
}

impl View for CallContext {
    type V = ContextView;

    open spec fn view(&self) -> ContextView {
        ContextView {
            sender: self.sender@,
            funds: self.funds@.map_values(|c: Coin| (c.denom@, c.amount)),
            block_time: self.block_time,
            block_height: self.block_height,
        }
    }
}

/// The denomination contributions are paid in.
pub open spec fn native_denom() -> Seq<char> {
    "usaf"@
}

/// The amount of the native denomination among the funds: that of its first
/// coin, or zero when there is none.
pub open spec fn native_amount(funds: Seq<(Seq<char>, u128)>) -> u128
    decreases funds.len(),
{
    if funds.len() == 0 {
        0
    } else if funds[0].0 == native_denom() {
        funds[0].1
    } else {
        native_amount(funds.drop_first())
    }
}

/// The denomination contributions are paid in.
pub fn native_denom_name() -> (d: &'static str)
    ensures
        d@ == native_denom(),
{
    "usaf"
}

/// The native amount of the first `i` coins, scanned from the front.
proof fn lemma_native_amount_step(funds: Seq<(Seq<char>, u128)>, i: int)
    requires
        0 <= i <= funds.len(),
        forall|j: int| 0 <= j < i ==> #[trigger] funds[j].0 != native_denom(),
    ensures
        native_amount(funds) == native_amount(funds.skip(i)),
    decreases i,
{
    if i > 0 {
        lemma_native_amount_step(funds, i - 1);
        assert(funds.skip(i - 1)[0] == funds[i - 1]);
        assert(funds.skip(i - 1).drop_first() =~= funds.skip(i));
    } else {
        assert(funds.skip(0) =~= funds);
    }
}

impl CallContext {
    /// The native amount sent along.
    pub fn native_sent(&self) -> (amount: u128)
        ensures
            amount == native_amount(self@.funds),
    {
        let ghost f = self@.funds;
        let n = self.funds.len();
        let denom = "usaf".to_owned();
        proof {
            reveal_strlit("usaf");
        }
        let mut i: usize = 0;
        while i < n
            invariant
                n == self.funds@.len(),
                f == self@.funds,
                i <= n,
                denom@ == native_denom(),
                forall|j: int| 0 <= j < i ==> #[trigger] f[j].0 != native_denom(),
            decreases n - i,
        {
            if self.funds[i].denom == denom {
                proof {
                    lemma_native_amount_step(f, i as int);
                }
                return self.funds[i].amount;
            }
            i = i + 1;
        }
        proof {
            lemma_native_amount_step(f, n as int);
        }
        0
    }
}

} // verus!
