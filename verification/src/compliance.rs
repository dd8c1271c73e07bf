use vstd::prelude::*;

use crate::attribute::{Attribute, Remediation};

verus! {

/// What `assess` found for one attribute: either the live host already
/// satisfies every sub-goal, or the ordered list of what must be done.
/// A `NonCompliant` assessment never carries an empty list.
#[derive(Debug, Clone)]
pub enum AttributeComplianceAssessment {
    Compliant,
    NonCompliant(Vec<Remediation>),
}

impl AttributeComplianceAssessment {
    pub open spec fn spec_is_compliant(&self) -> bool {
        self matches AttributeComplianceAssessment::Compliant
    }

    /// A non-compliant assessment carries at least one entry; an empty
    /// remediation list belongs to `Compliant` alone.
    pub open spec fn spec_is_well_formed(&self) -> bool {
        self matches AttributeComplianceAssessment::NonCompliant(remediations)
            ==> remediations@.len() >= 1
    }

    /// The remediation entries of the assessment; empty when compliant.
    pub open spec fn spec_remediations(&self) -> Seq<Remediation> {
        match self {
            AttributeComplianceAssessment::Compliant => Seq::empty(),
            AttributeComplianceAssessment::NonCompliant(remediations) => remediations@,
        }
    }

    pub fn is_compliant(&self) -> (r: bool)
        ensures
            r == self.spec_is_compliant(),
    {
        matches!(self, AttributeComplianceAssessment::Compliant)
    }

    pub fn remediations(&self) -> (r: Vec<&Remediation>)
        ensures
            r@.len() == self.spec_remediations().len(),
            forall|i: int| 0 <= i < r@.len() ==> r@[i] == self.spec_remediations()[i],
    {
        match self {
            AttributeComplianceAssessment::Compliant => Vec::new(),
            AttributeComplianceAssessment::NonCompliant(remediations) => {
                let mut r: Vec<&Remediation> = Vec::new();
                let n = remediations.len();
                let mut i: usize = 0;
                while i < n
                    invariant
                        0 <= i <= n,
                        n == remediations@.len(),
                        r@.len() == i,
                        forall|k: int| 0 <= k < i ==> r@[k] == remediations@[k],
                    decreases n - i,
                {
                    r.push(&remediations[i]);
                    i = i + 1;
                }
                r
            },
        }
    }
}

/// Terminal state of one attribute after an operation.
#[derive(Debug, Clone, Copy, PartialEq, Eq, Structural)]
pub enum AttributeComplianceStatus {
    AlreadyCompliant,
    ReachedCompliance,
    NonCompliant,
    FailedReachedCompliance,
}

/// How one remediation call ended. A `Failure` is data, not an error: it
/// stops the attribute's remediation sequence without failing the whole
/// operation.
#[derive(Debug, Clone, PartialEq, Eq)]
pub enum InternalApiCallOutcome {
    Success,
    Failure(String),
    AllowedFailure(String),
}

impl InternalApiCallOutcome {
    /// A field-wise copy, equal to `self`.
    pub fn duplicate(&self) -> (r: InternalApiCallOutcome)
        ensures
            r == *self,
    {
        match self {
            InternalApiCallOutcome::Success => InternalApiCallOutcome::Success,
            InternalApiCallOutcome::Failure(m) => InternalApiCallOutcome::Failure(m.clone()),
            InternalApiCallOutcome::AllowedFailure(m) => InternalApiCallOutcome::AllowedFailure(
                m.clone(),
            ),
        }
    }

    /// Classifies an executed command: success is exit code zero; anything
    /// else is a failure whose detail quotes the code and both streams.
    pub fn of_command_result(cmd_result: &crate::command::CommandResult) -> (o:
        InternalApiCallOutcome)
        ensures
            cmd_result.return_code == 0 ==> o == InternalApiCallOutcome::Success,
            cmd_result.return_code != 0 ==> (o matches InternalApiCallOutcome::Failure(m) && m@
                == "RC : "@ + crate::util::spec_dec_int(cmd_result.return_code as int)
                + ", STDOUT : "@ + cmd_result.stdout@ + ", STDERR : "@ + cmd_result.stderr@),
    {
        if cmd_result.return_code == 0 {
            InternalApiCallOutcome::Success
        } else {
            let mut m = String::from_str("RC : ");
            let code = crate::util::i32_to_string(cmd_result.return_code);
            m.append(code.as_str());
            m.append(", STDOUT : ");
            m.append(cmd_result.stdout.as_str());
            m.append(", STDERR : ");
            m.append(cmd_result.stderr.as_str());
            InternalApiCallOutcome::Failure(m)
        }
    }
}

/// The outcome of reaching compliance for one attribute: its terminal status
/// and, where remediations ran, each one paired with how its call ended.
#[derive(Debug, Clone)]
pub struct AttributeComplianceResult {
    status: AttributeComplianceStatus,
    details: Option<Vec<(Remediation, InternalApiCallOutcome)>>,
}

impl AttributeComplianceResult {
    pub closed spec fn spec_status(&self) -> AttributeComplianceStatus {
        self.status
    }

    pub closed spec fn spec_details(&self) -> Option<Vec<(Remediation, InternalApiCallOutcome)>> {
        self.details
    }

    pub fn from(
        status: AttributeComplianceStatus,
        details: Option<Vec<(Remediation, InternalApiCallOutcome)>>,
    ) -> (r: AttributeComplianceResult)
        ensures
            r.spec_status() == status,
            r.spec_details() == details,
    {
        AttributeComplianceResult { status, details }
    }

    pub fn status(&self) -> (r: AttributeComplianceStatus)
        ensures
            r == self.spec_status(),
    {
        self.status
    }

    pub fn details(&self) -> (r: &Option<Vec<(Remediation, InternalApiCallOutcome)>>)
        ensures
            r == self.spec_details(),
    {
        &self.details
    }
}

/// Terminal state of a whole host after an operation.
#[derive(Debug, Clone, Copy, PartialEq, Eq, Structural)]
pub enum HostComplianceStatus {
    AlreadyCompliant,
    NonCompliant,
    ReachedCompliance,
    FailedReachedCompliance,
}

/// Every attribute of the list was assessed compliant.
pub open spec fn spec_all_compliant(entries: Seq<(Attribute, AttributeComplianceAssessment)>) -> bool {
    forall|i: int|
        0 <= i < entries.len() ==> (#[trigger] entries[i]).1.spec_is_compliant()
}

/// The host-level status an assessment run earns: `AlreadyCompliant`
/// exactly when every attribute was compliant, else `NonCompliant`.
pub open spec fn spec_overall_assessment_status(
    entries: Seq<(Attribute, AttributeComplianceAssessment)>,
) -> HostComplianceStatus {
    if spec_all_compliant(entries) {
        HostComplianceStatus::AlreadyCompliant
    } else {
        HostComplianceStatus::NonCompliant
    }
}

/// What assessing a whole host found: the overall status and each
/// attribute's assessment.
#[derive(Debug, Clone)]
pub struct HostComplianceAssessment {
    status: HostComplianceStatus,
    attributes_compliance_assessment: Vec<(Attribute, AttributeComplianceAssessment)>,
}

impl HostComplianceAssessment {
    pub closed spec fn spec_status(&self) -> HostComplianceStatus {
        self.status
    }

    pub closed spec fn spec_attributes(&self) -> Seq<(Attribute, AttributeComplianceAssessment)> {
        self.attributes_compliance_assessment@
    }

    pub fn from(
        status: HostComplianceStatus,
        attributes_compliance_assessment: Vec<(Attribute, AttributeComplianceAssessment)>,
    ) -> (r: HostComplianceAssessment)
        ensures
            r.spec_status() == status,
            r.spec_attributes() == attributes_compliance_assessment@,
    {
        HostComplianceAssessment { status, attributes_compliance_assessment }
    }

    pub fn status(&self) -> (r: HostComplianceStatus)
        ensures
            r == self.spec_status(),
    {
        self.status
    }

    pub fn attributes_compliance_assessment(&self) -> (r: &Vec<
        (Attribute, AttributeComplianceAssessment),
    >)
        ensures
            r@ == self.spec_attributes(),
    {
        &self.attributes_compliance_assessment
    }
}

/// The host-level status a remediation run earns from its per-attribute
/// results: a failure at the last processed attribute fails the host; no
/// failure and nothing to do is `AlreadyCompliant`; otherwise work was done.
pub open spec fn spec_host_reach_status(
    actions: Seq<(Attribute, AttributeComplianceResult)>,
) -> HostComplianceStatus {
    if actions.len() > 0 && actions.last().1.spec_status()
        == AttributeComplianceStatus::FailedReachedCompliance {
        HostComplianceStatus::FailedReachedCompliance
    } else if forall|i: int|
        0 <= i < actions.len() ==> (#[trigger] actions[i]).1.spec_status()
            == AttributeComplianceStatus::AlreadyCompliant {
        HostComplianceStatus::AlreadyCompliant
    } else {
        HostComplianceStatus::ReachedCompliance
    }
}

/// What reaching compliance on a whole host did: the overall status and
/// each processed attribute's result, in declaration order.
#[derive(Debug, Clone)]
pub struct HostComplianceResult {
    status: HostComplianceStatus,
    actions_taken: Vec<(Attribute, AttributeComplianceResult)>,
}

impl HostComplianceResult {
    pub closed spec fn spec_status(&self) -> HostComplianceStatus {
        self.status
    }

    pub closed spec fn spec_actions(&self) -> Seq<(Attribute, AttributeComplianceResult)> {
        self.actions_taken@
    }

    pub fn from(
        status: HostComplianceStatus,
        actions_taken: Vec<(Attribute, AttributeComplianceResult)>,
    ) -> (r: HostComplianceResult)
        ensures
            r.spec_status() == status,
            r.spec_actions() == actions_taken@,
    {
        HostComplianceResult { status, actions_taken }
    }

    pub fn status(&self) -> (r: HostComplianceStatus)
        ensures
            r == self.spec_status(),
    {
        self.status
    }

    pub fn actions_taken(&self) -> (r: &Vec<(Attribute, AttributeComplianceResult)>)
        ensures
            r@ == self.spec_actions(),
    {
        &self.actions_taken
    }
}

/// One remediation paired with how its call ended, `None` when it was not
/// tried yet.
#[derive(Debug, Clone)]
pub struct Action {
    remediation: Remediation,
    action_result: Option<InternalApiCallOutcome>,
}

impl Action {
    pub closed spec fn spec_remediation(&self) -> Remediation {
        self.remediation
    }

    pub closed spec fn spec_action_result(&self) -> Option<InternalApiCallOutcome> {
        self.action_result
    }

    pub fn from(remediation: Remediation, action_result: Option<InternalApiCallOutcome>) -> (r:
        Action)
        ensures
            r.spec_remediation() == remediation,
            r.spec_action_result() == action_result,
    {
        Action { remediation, action_result }
    }
}

/// Terminal state of a whole host, as a report names it.
#[derive(Debug, Clone, Copy, PartialEq, Eq, Structural)]
pub enum HostStatus {
    AlreadyCompliant,
    NotCompliant,
    ReachComplianceFailed,
    ReachComplianceSuccess,
}

/// A report-oriented summary of one host operation: its terminal state and
/// the actions it considered or took.
#[derive(Debug, Clone)]
pub struct ManagedHostStatus {
    state: HostStatus,
    actions_taken: Option<Vec<Action>>,
}

impl ManagedHostStatus {
    pub closed spec fn spec_state(&self) -> HostStatus {
        self.state
    }

    pub closed spec fn spec_actions_taken(&self) -> Option<Vec<Action>> {
        self.actions_taken
    }

    pub fn already_compliant() -> (r: ManagedHostStatus)
        ensures
            r.spec_state() == HostStatus::AlreadyCompliant,
            r.spec_actions_taken() is None,
    {
        ManagedHostStatus { state: HostStatus::AlreadyCompliant, actions_taken: None }
    }

    /// The not-compliant summary: one untried action per remediation.
    pub fn not_compliant(remediations: Vec<Remediation>) -> (r: ManagedHostStatus)
        ensures
            r.spec_state() == HostStatus::NotCompliant,
            r.spec_actions_taken() matches Some(actions) && actions@.len() == remediations@.len()
                && forall|i: int|
                0 <= i < actions@.len() ==> (#[trigger] actions@[i]).spec_action_result() is None
                    && remediations@[i].spec_equivalent(&actions@[i].spec_remediation()),
    {
        let mut actions: Vec<Action> = Vec::new();
        let n = remediations.len();
        let mut i: usize = 0;
        while i < n
            invariant
                0 <= i <= n,
                n == remediations@.len(),
                actions@.len() == i,
                forall|k: int|
                    0 <= k < i ==> (#[trigger] actions@[k]).spec_action_result() is None
                        && remediations@[k].spec_equivalent(&actions@[k].spec_remediation()),
            decreases n - i,
        {
            actions.push(Action { remediation: remediations[i].duplicate(), action_result: None });
            i = i + 1;
        }
        ManagedHostStatus { state: HostStatus::NotCompliant, actions_taken: Some(actions) }
    }

    pub fn reach_compliance_success(actions: Vec<Action>) -> (r: ManagedHostStatus)
        ensures
            r.spec_state() == HostStatus::ReachComplianceSuccess,
            r.spec_actions_taken() == Some(actions),
    {
        ManagedHostStatus { state: HostStatus::ReachComplianceSuccess, actions_taken: Some(actions) }
    }

    pub fn reach_compliance_failed(actions: Vec<Action>) -> (r: ManagedHostStatus)
        ensures
            r.spec_state() == HostStatus::ReachComplianceFailed,
            r.spec_actions_taken() == Some(actions),
    {
        ManagedHostStatus { state: HostStatus::ReachComplianceFailed, actions_taken: Some(actions) }
    }

    pub fn is_already_compliant(&self) -> (r: bool)
        ensures
            r == (self.spec_state() == HostStatus::AlreadyCompliant),
    {
        matches!(self.state, HostStatus::AlreadyCompliant)
    }

    pub fn is_not_compliant(&self) -> (r: bool)
        ensures
            r == (self.spec_state() == HostStatus::NotCompliant),
    {
        matches!(self.state, HostStatus::NotCompliant)
    }

    pub fn is_reach_compliance_success(&self) -> (r: bool)
        ensures
            r == (self.spec_state() == HostStatus::ReachComplianceSuccess),
    {
        matches!(self.state, HostStatus::ReachComplianceSuccess)
    }

    pub fn is_reach_compliance_failed(&self) -> (r: bool)
        ensures
            r == (self.spec_state() == HostStatus::ReachComplianceFailed),
    {
        matches!(self.state, HostStatus::ReachComplianceFailed)
    }

    /// The remediations of every action of the report, tried or not; empty
    /// when the report carries none.
    pub fn all_remediations(&self) -> (r: Vec<Remediation>)
        ensures
            match self.spec_actions_taken() {
                Some(actions) => r@.len() == actions@.len() && forall|i: int|
                    0 <= i < r@.len() ==> (#[trigger] actions@[i]).spec_remediation().spec_equivalent(
                        &r@[i],
                    ),
                None => r@.len() == 0,
            },
    {
        match &self.actions_taken {
            None => Vec::new(),
            Some(actions) => {
                let mut r: Vec<Remediation> = Vec::new();
                let n = actions.len();
                let mut i: usize = 0;
                while i < n
                    invariant
                        0 <= i <= n,
                        n == actions@.len(),
                        r@.len() == i,
                        forall|k: int|
                            0 <= k < i ==> (#[trigger] actions@[k]).spec_remediation().spec_equivalent(
                                &r@[k],
                            ),
                    decreases n - i,
                {
                    r.push(actions[i].remediation.duplicate());
                    i = i + 1;
                }
                r
            },
        }
    }

    /// The longest prefix of actions that were actually tried, each with
    /// its outcome: collection stops at the first untried action.
    pub fn actions_taken(&self) -> (r: Vec<(Remediation, InternalApiCallOutcome)>)
        ensures
            match self.spec_actions_taken() {
                Some(actions) => {
                    &&& r@.len() <= actions@.len()
                    &&& (forall|i: int|
                        0 <= i < r@.len() ==> ((#[trigger] actions@[i]).spec_action_result()
                            matches Some(o) && actions@[i].spec_remediation().spec_equivalent(
                            &r@[i].0,
                        ) && r@[i].1 == o))
                    &&& (r@.len() < actions@.len() ==> actions@[r@.len() as int].spec_action_result() is None)
                },
                None => r@.len() == 0,
            },
    {
        match &self.actions_taken {
            None => Vec::new(),
            Some(actions) => {
                let mut r: Vec<(Remediation, InternalApiCallOutcome)> = Vec::new();
                let n = actions.len();
                let mut i: usize = 0;
                while i < n
                    invariant
                        0 <= i <= n,
                        n == actions@.len(),
                        r@.len() == i,
                        self.spec_actions_taken() matches Some(a) && a@ == actions@,
                        forall|k: int|
                            0 <= k < i ==> ((#[trigger] actions@[k]).spec_action_result()
                                matches Some(o) && actions@[k].spec_remediation().spec_equivalent(
                                &r@[k].0,
                            ) && r@[k].1 == o),
                    decreases n - i,
                {
                    match &actions[i].action_result {
                        Some(outcome) => {
                            r.push((actions[i].remediation.duplicate(), outcome.duplicate()));
                        },
                        None => {
                            return r;
                        },
                    }
                    i = i + 1;
                }
                r
            },
        }
    }
}

} // verus!
