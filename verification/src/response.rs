use vstd::prelude::*;

verus! {

/// The request that a reply answers, as named in the reply's attribute.
#[derive(Clone, Copy, Debug, PartialEq, Eq, Structural)]
pub enum Label {
    Instantiate,
    AddMember,
    RemoveMember,
    UpdateProfile,
    InitiateStart,
    AutoStart,
    ComputeDistributionCalendar,
    Deposit,
    RecordLatePayment,
    ApplyPenalty,
    TriggerPayout,
    DistributePenalties,
    ViewCalendar,
    RequestExit,
    ProcessExit,
    ReplaceMember,
}

/// The attribute key a reply carries for each label.
pub open spec fn attribute_key_text(v: Label) -> Seq<char> {
    match v {
        Label::Instantiate => "method"@,
        Label::ViewCalendar => "calendar"@,
        _ => "action"@,
    }
}

/// The attribute value a reply carries for each label.
pub open spec fn attribute_value_text(v: Label) -> Seq<char> {
    match v {
        Label::Instantiate => "instantiate"@,
        Label::AddMember => "add_member"@,
        Label::RemoveMember => "remove_member"@,
        Label::UpdateProfile => "update_profile"@,
        Label::InitiateStart => "initiate_start"@,
        Label::AutoStart => "auto_start"@,
        Label::ComputeDistributionCalendar => "compute_distribution_calendar"@,
        Label::Deposit => "deposit"@,
        Label::RecordLatePayment => "record_late_payment"@,
        Label::ApplyPenalty => "apply_penalty"@,
        Label::TriggerPayout => "trigger_payout"@,
        Label::DistributePenalties => "distribute_penalties"@,
        Label::ViewCalendar => "calendar"@,
        Label::RequestExit => "request_exit"@,
        Label::ProcessExit => "process_exit"@,
        Label::ReplaceMember => "replace_member"@,
    }
}

impl Label {
    /// The attribute key of the reply.
    pub fn attribute_key(&self) -> (r: &'static str)
        ensures
            r@ == attribute_key_text(*self),
    {
        match self {
            Label::Instantiate => "method",
            Label::ViewCalendar => "calendar",
            _ => "action",
        }
    }

    /// The attribute value of the reply (for the calendar view the host
    /// writes the calendar itself).
    pub fn attribute_value(&self) -> (r: &'static str)
        ensures
            r@ == attribute_value_text(*self),
    {
        match self {
            Label::Instantiate => "instantiate",
            Label::AddMember => "add_member",
            Label::RemoveMember => "remove_member",
            Label::UpdateProfile => "update_profile",
            Label::InitiateStart => "initiate_start",
            Label::AutoStart => "auto_start",
            Label::ComputeDistributionCalendar => "compute_distribution_calendar",
            Label::Deposit => "deposit",
            Label::RecordLatePayment => "record_late_payment",
            Label::ApplyPenalty => "apply_penalty",
            Label::TriggerPayout => "trigger_payout",
            Label::DistributePenalties => "distribute_penalties",
            Label::ViewCalendar => "calendar",
            Label::RequestExit => "request_exit",
            Label::ProcessExit => "process_exit",
            Label::ReplaceMember => "replace_member",
        }
    }
}

/// A transfer of native tokens to a recipient.
pub struct Payout {
    pub recipient: String,
    pub amount: u128,
}

/// What an accepted request asks of the host besides its reply attribute:
/// whether the state is to be saved, a record to store under a key, a
/// transfer to send, and the calendar to show.
pub struct Outcome {
    pub label: Label,
    pub persist: bool,
    pub record: Option<(Vec<u8>, Vec<u8>)>,
    pub payout: Option<Payout>,
    pub calendar: Option<Vec<String>>,
}

/// An outcome as a mathematical value.
#[verifier::ext_equal]
pub struct OutcomeView {
    pub label: Label,
    pub persist: bool,
    pub record: Option<(Seq<u8>, Seq<u8>)>,
    pub payout: Option<(Seq<char>, u128)>,
    pub calendar: Option<Seq<Seq<char>>>,
}

impl View for Outcome {
    type V = OutcomeView;

    open spec fn view(&self) -> OutcomeView {
        OutcomeView {
            label: self.label,
            persist: self.persist,
            record: match self.record {
                Some(r) => Some((r.0@, r.1@)),
                None => None,
            },
            payout: match self.payout {
                Some(p) => Some((p.recipient@, p.amount)),
                None => None,
            },
            calendar: match self.calendar {
                Some(c) => Some(c@.map_values(|a: String| a@)),
                None => None,
            },
        }
    }
}

/// The outcome of a request that only changes the state.
pub open spec fn saved(label: Label) -> OutcomeView {
    OutcomeView { label, persist: true, record: None, payout: None, calendar: None }
}

impl Outcome {
    /// The outcome of a request that only changes the state.
    pub fn saved(label: Label) -> (o: Outcome)
        ensures
            o@ == saved(label),
    {
        Outcome { label, persist: true, record: None, payout: None, calendar: None }
    }
}

} // verus!
