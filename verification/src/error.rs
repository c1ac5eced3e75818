use vstd::prelude::*;

verus! {

/// Why a request was refused.
#[derive(Clone, Copy, Debug, PartialEq, Eq, Structural)]
pub enum ContractError {
    TooManyMembers,
    MemberAddNotAllowed,
    AddAfterStart,
    MaxMembersReached,
    InsufficientCautionDeposit,
    /// The host refused the address at this position of the request's
    /// addresses (see `Action::addresses`).
    InvalidAddress { index: usize },
    MemberAlreadyExists,
    OnlyAdminRemoveMembers,
    OnlyAdminUpdateProfiles,
    ProfileUpdateAfterStart,
    MemberNotFound,
    NotAMember,
    InvalidCycle,
    NotStarted,
    CycleStartNotSet,
    OverpaymentNotAllowed,
    UnderpaymentNotAllowed,
    DepositWindowClosed,
    ManualStartNotAllowed,
    OnlyAdminStart,
    AlreadyStarted,
    AutoStartNotAllowed,
    AutoStartConditionsNotMet,
    OnlyAdminComputeCalendar,
    CalendarLocked,
    OnlyAdminTriggerPayout,
    CalendarIncomplete,
    MissingContribution,
    /// A stored payment of a member could not be read back.
    UnreadableContribution,
    RecipientNotFound,
    OnlyAdminDistributePenalties,
    MemberExitNotAllowed,
    ExitAlreadyRequested,
    OnlyAdminProcessExit,
    OnlyAdminReplaceMember,
}

/// The text each error is reported with.
pub open spec fn error_text(v: ContractError) -> Seq<char> {
    match v {
        ContractError::TooManyMembers => "Initial members exceed max members"@,
        ContractError::MemberAddNotAllowed => "Member addition not allowed"@,
        ContractError::AddAfterStart => "Cannot add members after start"@,
        ContractError::MaxMembersReached => "Max members reached"@,
        ContractError::InsufficientCautionDeposit => "Insufficient caution deposit"@,
        ContractError::InvalidAddress { .. } => "Invalid address"@,
        ContractError::MemberAlreadyExists => "Member already exists"@,
        ContractError::OnlyAdminRemoveMembers => "Only admin can remove members"@,
        ContractError::OnlyAdminUpdateProfiles => "Only admin can update profiles"@,
        ContractError::ProfileUpdateAfterStart => "Cannot update profiles after start"@,
        ContractError::MemberNotFound => "Member not found"@,
        ContractError::NotAMember => "Not a member"@,
        ContractError::InvalidCycle => "Invalid cycle"@,
        ContractError::NotStarted => "Tontine not started"@,
        ContractError::CycleStartNotSet => "Cycle start not set"@,
        ContractError::OverpaymentNotAllowed => "Overpayment not allowed"@,
        ContractError::UnderpaymentNotAllowed => "Underpayment not allowed"@,
        ContractError::DepositWindowClosed => "Deposit window closed"@,
        ContractError::ManualStartNotAllowed => "Manual start not allowed"@,
        ContractError::OnlyAdminStart => "Only admin can start"@,
        ContractError::AlreadyStarted => "Already started"@,
        ContractError::AutoStartNotAllowed => "Auto start not allowed"@,
        ContractError::AutoStartConditionsNotMet => "Auto start conditions not met"@,
        ContractError::OnlyAdminComputeCalendar => "Only admin can compute calendar"@,
        ContractError::CalendarLocked => "Calendar is locked"@,
        ContractError::OnlyAdminTriggerPayout => "Only admin can trigger payout"@,
        ContractError::CalendarIncomplete => "Distribution calendar incomplete"@,
        ContractError::MissingContribution => "Missing contribution"@,
        ContractError::UnreadableContribution => "Stored contribution is unreadable"@,
        ContractError::RecipientNotFound => "Recipient not found"@,
        ContractError::OnlyAdminDistributePenalties => "Only admin can distribute penalties"@,
        ContractError::MemberExitNotAllowed => "Member exit not allowed"@,
        ContractError::ExitAlreadyRequested => "Exit already requested"@,
        ContractError::OnlyAdminProcessExit => "Only admin can process exit"@,
        ContractError::OnlyAdminReplaceMember => "Only admin can replace member"@,
    }
}

impl ContractError {
    /// The text the error is reported with.
    pub fn message(&self) -> (r: &'static str)
        ensures
            r@ == error_text(*self),
    {
        match self {
            ContractError::TooManyMembers => "Initial members exceed max members",
            ContractError::MemberAddNotAllowed => "Member addition not allowed",
            ContractError::AddAfterStart => "Cannot add members after start",
            ContractError::MaxMembersReached => "Max members reached",
            ContractError::InsufficientCautionDeposit => "Insufficient caution deposit",
            ContractError::InvalidAddress { .. } => "Invalid address",
            ContractError::MemberAlreadyExists => "Member already exists",
            ContractError::OnlyAdminRemoveMembers => "Only admin can remove members",
            ContractError::OnlyAdminUpdateProfiles => "Only admin can update profiles",
            ContractError::ProfileUpdateAfterStart => "Cannot update profiles after start",
            ContractError::MemberNotFound => "Member not found",
            ContractError::NotAMember => "Not a member",
            ContractError::InvalidCycle => "Invalid cycle",
            ContractError::NotStarted => "Tontine not started",
            ContractError::CycleStartNotSet => "Cycle start not set",
            ContractError::OverpaymentNotAllowed => "Overpayment not allowed",
            ContractError::UnderpaymentNotAllowed => "Underpayment not allowed",
            ContractError::DepositWindowClosed => "Deposit window closed",
            ContractError::ManualStartNotAllowed => "Manual start not allowed",
            ContractError::OnlyAdminStart => "Only admin can start",
            ContractError::AlreadyStarted => "Already started",
            ContractError::AutoStartNotAllowed => "Auto start not allowed",
            ContractError::AutoStartConditionsNotMet => "Auto start conditions not met",
            ContractError::OnlyAdminComputeCalendar => "Only admin can compute calendar",
            ContractError::CalendarLocked => "Calendar is locked",
            ContractError::OnlyAdminTriggerPayout => "Only admin can trigger payout",
            ContractError::CalendarIncomplete => "Distribution calendar incomplete",
            ContractError::MissingContribution => "Missing contribution",
            ContractError::UnreadableContribution => "Stored contribution is unreadable",
            ContractError::RecipientNotFound => "Recipient not found",
            ContractError::OnlyAdminDistributePenalties => "Only admin can distribute penalties",
            ContractError::MemberExitNotAllowed => "Member exit not allowed",
            ContractError::ExitAlreadyRequested => "Exit already requested",
            ContractError::OnlyAdminProcessExit => "Only admin can process exit",
            ContractError::OnlyAdminReplaceMember => "Only admin can replace member",
        }
    }
}

} // verus!
