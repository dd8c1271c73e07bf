use vstd::prelude::*;

pub mod apt;
pub mod command;
pub mod debug;
pub mod lineinfile;
pub mod pacman;
pub mod ping;
pub mod service;
pub mod yumdnf;

use crate::attribute::apt::{AptApiCall, AptBlockExpectedState};
use crate::attribute::command::{CommandApiCall, CommandBlockExpectedState};
use crate::attribute::debug::{DebugApiCall, DebugBlockExpectedState};
use crate::attribute::lineinfile::{LineInFileApiCall, LineInFileBlockExpectedState};
use crate::attribute::pacman::{PacmanApiCall, PacmanBlockExpectedState};
use crate::attribute::ping::{spec_ping_probe, PingApiCall, PingBlockExpectedState};
use crate::attribute::service::{ServiceApiCall, ServiceBlockExpectedState};
use crate::attribute::yumdnf::{YumDnfApiCall, YumDnfBlockExpectedState};
use crate::compliance::{
    AttributeComplianceAssessment, AttributeComplianceResult, AttributeComplianceStatus,
    InternalApiCallOutcome,
};
use crate::error::Error;
use crate::host_handler::{
    lemma_appended_only_implies, lemma_appended_only_refl, record_of, spec_appended_only,
    HostHandler,
};
use crate::privilege::Privilege;

verus! {

/// A concrete corrective action bound to one attribute instance, or the
/// record of a sub-goal that was already met (kept so reports enumerate
/// every sub-goal).
#[derive(Debug, Clone)]
pub enum Remediation {
    /// The sub-goal was already satisfied; the string says which one.
    AlreadyMet(String),
    Apt(AptApiCall),
    Pacman(PacmanApiCall),
    YumDnf(YumDnfApiCall),
    Service(ServiceApiCall),
    LineInFile(LineInFileApiCall),
    Command(CommandApiCall),
    Ping(PingApiCall),
    Debug(DebugApiCall),
}

impl Remediation {
    /// Whether this entry asks for work, rather than recording a match.
    pub open spec fn spec_is_action(&self) -> bool {
        !(self matches Remediation::AlreadyMet(_))
    }

    pub fn is_action(&self) -> (r: bool)
        ensures
            r == self.spec_is_action(),
    {
        !matches!(self, Remediation::AlreadyMet(_))
    }

    /// Whether two entries say the same thing; a deletion's vector counts
    /// by its contents.
    pub open spec fn spec_equivalent(&self, other: &Remediation) -> bool {
        match (self, other) {
            (Remediation::LineInFile(x), Remediation::LineInFile(y)) => x.spec_same_call(y),
            _ => *self == *other,
        }
    }

    /// A field-wise copy with the same content as `self`.
    pub fn duplicate(&self) -> (r: Remediation)
        ensures
            self.spec_equivalent(&r),
    {
        match self {
            Remediation::AlreadyMet(message) => Remediation::AlreadyMet(message.clone()),
            Remediation::Apt(api_call) => Remediation::Apt(api_call.duplicate()),
            Remediation::Pacman(api_call) => Remediation::Pacman(api_call.duplicate()),
            Remediation::YumDnf(api_call) => Remediation::YumDnf(api_call.duplicate()),
            Remediation::Service(api_call) => Remediation::Service(api_call.duplicate()),
            Remediation::LineInFile(api_call) => Remediation::LineInFile(api_call.duplicate()),
            Remediation::Command(api_call) => Remediation::Command(api_call.duplicate()),
            Remediation::Ping(api_call) => Remediation::Ping(*api_call),
            Remediation::Debug(api_call) => Remediation::Debug(*api_call),
        }
    }

    /// Executes the concrete action this entry carries. An `AlreadyMet`
    /// entry asks for nothing and calling it is an internal logic error.
    pub fn reach_compliance<Handler: HostHandler>(&self, host_handler: &mut Handler) -> (r: Result<
        InternalApiCallOutcome,
        Error,
    >)
        ensures
            r matches Ok(o) ==> (o matches InternalApiCallOutcome::Success || o matches
                InternalApiCallOutcome::Failure(_)),
            self matches Remediation::AlreadyMet(_) ==> (r matches Err(e) && e matches
                Error::InternalLogicError(_)),
    {
        match self {
            Remediation::AlreadyMet(_) => Err(
                Error::InternalLogicError(String::from_str("Unexpected remediation")),
            ),
            Remediation::Apt(api_call) => api_call.call(host_handler),
            Remediation::Pacman(api_call) => api_call.call(host_handler),
            Remediation::YumDnf(api_call) => api_call.call(host_handler),
            Remediation::Service(api_call) => api_call.call(host_handler),
            Remediation::LineInFile(api_call) => api_call.call(host_handler),
            Remediation::Command(api_call) => api_call.call(host_handler),
            Remediation::Ping(api_call) => api_call.call(host_handler),
            Remediation::Debug(api_call) => api_call.call(host_handler),
        }
    }
}

/// The catalog of expected-state descriptors.
#[derive(Debug, Clone)]
pub enum AttributeDetail {
    Apt(AptBlockExpectedState),
    YumDnf(YumDnfBlockExpectedState),
    Pacman(PacmanBlockExpectedState),
    LineInFile(LineInFileBlockExpectedState),
    Debug(DebugBlockExpectedState),
    Ping(PingBlockExpectedState),
    Service(ServiceBlockExpectedState),
    Command(CommandBlockExpectedState),
}

impl AttributeDetail {
    /// Whether the declared state passes its kind's validation.
    pub open spec fn spec_is_coherent(&self) -> bool {
        match self {
            AttributeDetail::Apt(block) => block.spec_is_coherent(),
            AttributeDetail::YumDnf(block) => block.spec_is_coherent(),
            AttributeDetail::Pacman(block) => block.spec_is_coherent(),
            AttributeDetail::LineInFile(block) => block.spec_is_coherent(),
            AttributeDetail::Service(block) => block.spec_is_coherent(),
            AttributeDetail::Debug(_) => true,
            AttributeDetail::Ping(_) => true,
            AttributeDetail::Command(_) => true,
        }
    }

    /// The read-only probes this attribute's assessment may send.
    pub open spec fn spec_is_probe(&self, privilege: Privilege, rec: (Seq<char>, Privilege)) -> bool {
        match self {
            AttributeDetail::Apt(block) => block.spec_is_probe(rec),
            AttributeDetail::Pacman(block) => block.spec_is_probe(rec),
            AttributeDetail::YumDnf(block) => block.spec_is_probe(privilege, rec),
            AttributeDetail::LineInFile(block) => block.spec_is_probe(privilege, rec),
            AttributeDetail::Service(block) => block.spec_is_probe(privilege, rec),
            AttributeDetail::Ping(_) => rec == record_of(spec_ping_probe(), privilege),
            AttributeDetail::Debug(_) => false,
            AttributeDetail::Command(_) => false,
        }
    }

    /// What an assessment of this attribute may say: the kind's exact
    /// decision for some observation of the host.
    pub open spec fn spec_assessment_ok(
        &self,
        privilege: Privilege,
        a: AttributeComplianceAssessment,
    ) -> bool {
        match self {
            AttributeDetail::Apt(block) => exists|installed: bool|
                block.spec_assessment_of(privilege, installed, a),
            AttributeDetail::Pacman(block) => exists|installed: bool|
                block.spec_assessment_of(privilege, installed, a),
            AttributeDetail::YumDnf(block) => exists|
                manager: yumdnf::RedHatFlavoredPackageManager,
                installed: bool,
            |
                block.spec_assessment_of(privilege, manager, installed, a),
            AttributeDetail::Service(block) => exists|active: bool, enabled: bool|
                block.spec_assessment_of(privilege, active, enabled, a),
            AttributeDetail::LineInFile(block) => exists|count: u64, occ: Option<Seq<u64>>|
                block.spec_assessment_of(privilege, count, occ, a),
            AttributeDetail::Ping(_) => a == AttributeComplianceAssessment::Compliant,
            AttributeDetail::Command(block) => block.spec_assessment_of(privilege, a),
            AttributeDetail::Debug(block) => block.spec_assessment_of(a),
        }
    }

    /// A field-wise copy, equal to `self`.
    pub fn duplicate(&self) -> (r: AttributeDetail)
        ensures
            r == *self,
    {
        match self {
            AttributeDetail::Apt(block) => AttributeDetail::Apt(block.duplicate()),
            AttributeDetail::YumDnf(block) => AttributeDetail::YumDnf(block.duplicate()),
            AttributeDetail::Pacman(block) => AttributeDetail::Pacman(block.duplicate()),
            AttributeDetail::LineInFile(block) => AttributeDetail::LineInFile(block.duplicate()),
            AttributeDetail::Debug(block) => AttributeDetail::Debug(block.duplicate()),
            AttributeDetail::Ping(block) => AttributeDetail::Ping(*block),
            AttributeDetail::Service(block) => AttributeDetail::Service(block.duplicate()),
            AttributeDetail::Command(block) => AttributeDetail::Command(block.duplicate()),
        }
    }

    /// Assesses this attribute against the live host, dispatching on its
    /// kind. Read-only: everything sent to the host is one of the kind's
    /// probes, and what comes back is the kind's exact decision for the
    /// observation the probes made.
    pub fn assess<Handler: HostHandler>(
        &self,
        host_handler: &mut Handler,
        privilege: &Privilege,
    ) -> (r: Result<AttributeComplianceAssessment, Error>)
        ensures
            spec_appended_only(
                old(host_handler).executed(),
                final(host_handler).executed(),
                |rec: (Seq<char>, Privilege)| self.spec_is_probe(*privilege, rec),
            ),
            r matches Ok(a) ==> self.spec_assessment_ok(*privilege, a),
            !self.spec_is_coherent() ==> r matches Err(_),
            (self matches AttributeDetail::Debug(_) || self matches AttributeDetail::Command(_))
                ==> r is Ok,
    {
        let ghost pre = host_handler.executed();
        let ghost mine = |rec: (Seq<char>, Privilege)| self.spec_is_probe(*privilege, rec);
        match self {
            AttributeDetail::Apt(block) => {
                let r = block.assess_compliance(host_handler, privilege);
                proof {
                    lemma_appended_only_implies(
                        pre,
                        host_handler.executed(),
                        |rec: (Seq<char>, Privilege)| block.spec_is_probe(rec),
                        mine,
                    );
                }
                r
            },
            AttributeDetail::Pacman(block) => {
                let r = block.assess_compliance(host_handler, privilege);
                proof {
                    lemma_appended_only_implies(
                        pre,
                        host_handler.executed(),
                        |rec: (Seq<char>, Privilege)| block.spec_is_probe(rec),
                        mine,
                    );
                }
                r
            },
            AttributeDetail::YumDnf(block) => {
                let r = block.assess_compliance(host_handler, privilege);
                proof {
                    lemma_appended_only_implies(
                        pre,
                        host_handler.executed(),
                        |rec: (Seq<char>, Privilege)| block.spec_is_probe(*privilege, rec),
                        mine,
                    );
                }
                r
            },
            AttributeDetail::LineInFile(block) => {
                let r = block.assess_compliance(host_handler, privilege);
                proof {
                    lemma_appended_only_implies(
                        pre,
                        host_handler.executed(),
                        |rec: (Seq<char>, Privilege)| block.spec_is_probe(*privilege, rec),
                        mine,
                    );
                }
                r
            },
            AttributeDetail::Service(block) => {
                let r = block.assess_compliance(host_handler, privilege);
                proof {
                    lemma_appended_only_implies(
                        pre,
                        host_handler.executed(),
                        |rec: (Seq<char>, Privilege)| block.spec_is_probe(*privilege, rec),
                        mine,
                    );
                }
                r
            },
            AttributeDetail::Ping(block) => {
                let r = block.assess_compliance(host_handler, privilege);
                proof {
                    lemma_appended_only_implies(
                        pre,
                        host_handler.executed(),
                        |rec: (Seq<char>, Privilege)|
                            rec == record_of(spec_ping_probe(), *privilege),
                        mine,
                    );
                }
                r
            },
            AttributeDetail::Command(block) => {
                let r = block.assess_compliance(host_handler, privilege);
                proof {
                    lemma_appended_only_refl(host_handler.executed(), mine);
                }
                r
            },
            AttributeDetail::Debug(block) => {
                let r = block.assess_compliance(host_handler, privilege);
                proof {
                    lemma_appended_only_refl(host_handler.executed(), mine);
                }
                r
            },
        }
    }

    /// Reaches compliance for this attribute: re-assesses, and when work is
    /// needed runs the concrete remediations in declaration order, skipping
    /// already-met entries, stopping at the first failing call.
    ///
    /// When the assessment is already compliant, the result says so with no
    /// details and the host saw nothing but read-only probes: an assessment
    /// that finds compliance attempts no remediation.
    pub fn reach_compliance<Handler: HostHandler>(
        &self,
        host_handler: &mut Handler,
        privilege: &Privilege,
    ) -> (r: Result<AttributeComplianceResult, Error>)
        ensures
            r matches Ok(res) ==> res.spec_status() != AttributeComplianceStatus::NonCompliant,
            r matches Ok(res) ==> (res.spec_status()
                != AttributeComplianceStatus::AlreadyCompliant || (res.spec_details() is None
                && spec_appended_only(
                old(host_handler).executed(),
                final(host_handler).executed(),
                |rec: (Seq<char>, Privilege)| self.spec_is_probe(*privilege, rec),
            ) && self.spec_assessment_ok(*privilege, AttributeComplianceAssessment::Compliant))),
            r matches Ok(res) ==> (res.spec_status()
                != AttributeComplianceStatus::ReachedCompliance || (res.spec_details()
                matches Some(actions) && forall|i: int|
                0 <= i < actions@.len() ==> !((#[trigger] actions@[i]).1 matches
            InternalApiCallOutcome::Failure(_)))),
            r matches Ok(res) ==> (res.spec_status()
                != AttributeComplianceStatus::FailedReachedCompliance || (res.spec_details()
                matches Some(actions) && actions@.len() >= 1 && (actions@.last().1 matches
            InternalApiCallOutcome::Failure(_)) && forall|i: int|
                0 <= i < actions@.len() - 1 ==> !((#[trigger] actions@[i]).1 matches
            InternalApiCallOutcome::Failure(_)))),
            r matches Ok(res) ==> (res.spec_details() matches Some(actions) ==> exists|
                a: AttributeComplianceAssessment,
            |
                self.spec_assessment_ok(*privilege, a) && spec_matches_action_prefix(
                    spec_action_entries(a.spec_remediations()),
                    actions@,
                ) && (res.spec_status() == AttributeComplianceStatus::ReachedCompliance
                    ==> actions@.len() == spec_action_entries(a.spec_remediations()).len())),
            !self.spec_is_coherent() ==> r matches Err(_),
            self matches AttributeDetail::Debug(_) ==> r is Ok,
    {
        let assessment = match self.assess(host_handler, privilege) {
            Ok(a) => a,
            Err(error_detail) => {
                return Err(error_detail);
            },
        };
        match assessment {
            AttributeComplianceAssessment::Compliant => Ok(
                AttributeComplianceResult::from(AttributeComplianceStatus::AlreadyCompliant, None),
            ),
            AttributeComplianceAssessment::NonCompliant(remediations) => {
                if remediations.len() == 0 {
                    return Err(
                        Error::InternalLogicError(
                            String::from_str(
                                "a non-compliant assessment carries at least one remediation",
                            ),
                        ),
                    );
                }
                let ghost assessed = AttributeComplianceAssessment::NonCompliant(remediations);
                let mut actions: Vec<(Remediation, InternalApiCallOutcome)> = Vec::new();
                let n = remediations.len();
                let mut i: usize = 0;
                proof {
                    assert(remediations@.take(0) =~= Seq::<Remediation>::empty());
                }
                while i < n
                    invariant
                        0 <= i <= n,
                        n == remediations@.len(),
                        self.spec_is_coherent(),
                        self.spec_assessment_ok(*privilege, assessed),
                        assessed.spec_remediations() == remediations@,
                        self matches AttributeDetail::Debug(_) ==> forall|k: int|
                            0 <= k < remediations@.len() ==> !(#[trigger] remediations@[k]).spec_is_action(),
                        forall|k: int|
                            0 <= k < actions@.len() ==> !((#[trigger] actions@[k]).1 matches
                            InternalApiCallOutcome::Failure(_)),
                        actions@.len() == spec_action_entries(remediations@.take(i as int)).len(),
                        spec_matches_action_prefix(
                            spec_action_entries(remediations@.take(i as int)),
                            actions@,
                        ),
                    decreases n - i,
                {
                    let remediation = &remediations[i];
                    let ghost taken = remediations@.take(i as int);
                    let ghost step = seq![remediations@[i as int]];
                    proof {
                        assert(remediations@.take(i as int + 1) =~= taken + step);
                        lemma_action_entries_append(taken, step);
                        assert(step.skip(1) =~= Seq::<Remediation>::empty());
                        assert(spec_action_entries(Seq::<Remediation>::empty())
                            == Seq::<Remediation>::empty());
                        assert(step[0] == remediations@[i as int]);
                        if remediations@[i as int].spec_is_action() {
                            assert(spec_action_entries(step) == seq![remediations@[i as int]]
                                + Seq::<Remediation>::empty());
                            assert(spec_action_entries(step) =~= seq![remediations@[i as int]]);
                        } else {
                            assert(spec_action_entries(step) =~= Seq::<Remediation>::empty());
                        }
                    }
                    if remediation.is_action() {
                        match remediation.reach_compliance(host_handler) {
                            Ok(outcome) => {
                                let failed = matches!(outcome, InternalApiCallOutcome::Failure(_));
                                actions.push((remediation.duplicate(), outcome));
                                proof {
                                    assert(spec_action_entries(
                                        remediations@.take(i as int + 1),
                                    ) =~= spec_action_entries(taken) + seq![
                                        remediations@[i as int],
                                    ]);
                                    assert(spec_matches_action_prefix(
                                        spec_action_entries(remediations@.take(i as int + 1)),
                                        actions@,
                                    ));
                                }
                                if failed {
                                    proof {
                                        lemma_take_prefix_of_action_entries(
                                            remediations@,
                                            i as int + 1,
                                        );
                                    }
                                    return Ok(
                                        AttributeComplianceResult::from(
                                            AttributeComplianceStatus::FailedReachedCompliance,
                                            Some(actions),
                                        ),
                                    );
                                }
                            },
                            Err(error_detail) => {
                                return Err(error_detail);
                            },
                        }
                    } else {
                        proof {
                            assert(spec_action_entries(remediations@.take(i as int + 1))
                                =~= spec_action_entries(taken));
                        }
                    }
                    i = i + 1;
                }
                proof {
                    assert(remediations@.take(n as int) =~= remediations@);
                }
                Ok(
                    AttributeComplianceResult::from(
                        AttributeComplianceStatus::ReachedCompliance,
                        Some(actions),
                    ),
                )
            },
        }
    }
}

/// The action entries of a remediation list: the entries reach executes,
/// in order, with the already-met ones left out.
pub open spec fn spec_action_entries(rems: Seq<Remediation>) -> Seq<Remediation>
    decreases rems.len(),
{
    if rems.len() == 0 {
        Seq::empty()
    } else {
        let rest = spec_action_entries(rems.skip(1));
        if rems[0].spec_is_action() {
            seq![rems[0]] + rest
        } else {
            rest
        }
    }
}

/// Action entries distribute over concatenation.
pub proof fn lemma_action_entries_append(a: Seq<Remediation>, b: Seq<Remediation>)
    ensures
        spec_action_entries(a + b) == spec_action_entries(a) + spec_action_entries(b),
    decreases a.len(),
{
    if a.len() == 0 {
        assert(a + b =~= b);
        assert(spec_action_entries(a) + spec_action_entries(b) =~= spec_action_entries(b));
    } else {
        assert((a + b).skip(1) =~= a.skip(1) + b);
        lemma_action_entries_append(a.skip(1), b);
        assert((a + b)[0] == a[0]);
        if a[0].spec_is_action() {
            assert(seq![a[0]] + (spec_action_entries(a.skip(1)) + spec_action_entries(b)) =~= (
            seq![a[0]] + spec_action_entries(a.skip(1))) + spec_action_entries(b));
        }
    }
}

/// The action entries of a front part of the list lead the action entries
/// of the whole list.
pub proof fn lemma_take_prefix_of_action_entries(rems: Seq<Remediation>, i: int)
    requires
        0 <= i <= rems.len(),
    ensures
        spec_action_entries(rems.take(i)).len() <= spec_action_entries(rems).len(),
        forall|k: int|
            0 <= k < spec_action_entries(rems.take(i)).len() ==> spec_action_entries(rems)[k]
                == #[trigger] spec_action_entries(rems.take(i))[k],
{
    assert(rems =~= rems.take(i) + rems.skip(i));
    lemma_action_entries_append(rems.take(i), rems.skip(i));
}

/// The recorded actions are, entry for entry, the leading action entries of
/// the list: what reach executed before it finished or stopped.
pub open spec fn spec_matches_action_prefix(
    entries: Seq<Remediation>,
    actions: Seq<(Remediation, InternalApiCallOutcome)>,
) -> bool {
    &&& actions.len() <= entries.len()
    &&& forall|k: int|
        0 <= k < actions.len() ==> entries[k].spec_equivalent(&(#[trigger] actions[k]).0)
}

/// Every decided assessment is well formed: a non-compliant one never
/// carries an empty remediation list, and the list is empty exactly when
/// the assessment is compliant — whatever the observation was.
pub proof fn lemma_assessment_well_formed(
    detail: AttributeDetail,
    privilege: Privilege,
    a: AttributeComplianceAssessment,
)
    requires
        detail.spec_assessment_ok(privilege, a),
    ensures
        a.spec_is_well_formed(),
        a.spec_remediations().len() == 0 <==> a.spec_is_compliant(),
{
    match detail {
        AttributeDetail::Apt(block) => {
            let installed = choose|installed: bool|
                block.spec_assessment_of(privilege, installed, a);
            assert(block.spec_assessment_of(privilege, installed, a));
        },
        AttributeDetail::Pacman(block) => {
            let installed = choose|installed: bool|
                block.spec_assessment_of(privilege, installed, a);
            assert(block.spec_assessment_of(privilege, installed, a));
        },
        AttributeDetail::YumDnf(block) => {
            let (manager, installed) = choose|
                manager: yumdnf::RedHatFlavoredPackageManager,
                installed: bool,
            | block.spec_assessment_of(privilege, manager, installed, a);
            assert(block.spec_assessment_of(privilege, manager, installed, a));
        },
        AttributeDetail::Service(block) => {
            let (active, enabled) = choose|active: bool, enabled: bool|
                block.spec_assessment_of(privilege, active, enabled, a);
            assert(block.spec_assessment_of(privilege, active, enabled, a));
        },
        AttributeDetail::LineInFile(block) => {
            let (count, occ) = choose|count: u64, occ: Option<Seq<u64>>|
                block.spec_assessment_of(privilege, count, occ, a);
            assert(block.spec_assessment_of(privilege, count, occ, a));
        },
        AttributeDetail::Ping(_) => {},
        AttributeDetail::Command(_) => {},
        AttributeDetail::Debug(_) => {},
    }
}

/// One declarative property of a host's desired configuration, together
/// with the privilege its probes and remediations run under.
#[derive(Debug, Clone)]
pub struct Attribute {
    pub privilege: Privilege,
    pub detail: AttributeDetail,
}

impl Attribute {
    pub fn from(detail: AttributeDetail, privilege: Privilege) -> (r: Attribute)
        ensures
            r.privilege == privilege,
            r.detail == detail,
    {
        Attribute { privilege, detail }
    }

    /// A field-wise copy, equal to `self`.
    pub fn duplicate(&self) -> (r: Attribute)
        ensures
            r == *self,
    {
        Attribute { privilege: self.privilege, detail: self.detail.duplicate() }
    }

    /// Assesses this attribute against the live host, under its own
    /// privilege. See [`AttributeDetail::assess`].
    pub fn assess<Handler: HostHandler>(&self, host_handler: &mut Handler) -> (r: Result<
        AttributeComplianceAssessment,
        Error,
    >)
        ensures
            spec_appended_only(
                old(host_handler).executed(),
                final(host_handler).executed(),
                |rec: (Seq<char>, Privilege)| self.detail.spec_is_probe(self.privilege, rec),
            ),
            r matches Ok(a) ==> self.detail.spec_assessment_ok(self.privilege, a),
            !self.detail.spec_is_coherent() ==> r matches Err(_),
            (self.detail matches AttributeDetail::Debug(_) || self.detail matches
                AttributeDetail::Command(_)) ==> r is Ok,
    {
        self.detail.assess(host_handler, &self.privilege)
    }

    /// Reaches compliance for this attribute, under its own privilege. See
    /// [`AttributeDetail::reach_compliance`].
    pub fn reach_compliance<Handler: HostHandler>(&self, host_handler: &mut Handler) -> (r: Result<
        AttributeComplianceResult,
        Error,
    >)
        ensures
            r matches Ok(res) ==> res.spec_status() != AttributeComplianceStatus::NonCompliant,
            r matches Ok(res) ==> (res.spec_status()
                != AttributeComplianceStatus::AlreadyCompliant || (res.spec_details() is None
                && spec_appended_only(
                old(host_handler).executed(),
                final(host_handler).executed(),
                |rec: (Seq<char>, Privilege)| self.detail.spec_is_probe(self.privilege, rec),
            ) && self.detail.spec_assessment_ok(
                self.privilege,
                AttributeComplianceAssessment::Compliant,
            ))),
            r matches Ok(res) ==> (res.spec_status()
                != AttributeComplianceStatus::ReachedCompliance || (res.spec_details()
                matches Some(actions) && forall|i: int|
                0 <= i < actions@.len() ==> !((#[trigger] actions@[i]).1 matches
            InternalApiCallOutcome::Failure(_)))),
            r matches Ok(res) ==> (res.spec_status()
                != AttributeComplianceStatus::FailedReachedCompliance || (res.spec_details()
                matches Some(actions) && actions@.len() >= 1 && (actions@.last().1 matches
            InternalApiCallOutcome::Failure(_)) && forall|i: int|
                0 <= i < actions@.len() - 1 ==> !((#[trigger] actions@[i]).1 matches
            InternalApiCallOutcome::Failure(_)))),
            r matches Ok(res) ==> (res.spec_details() matches Some(actions) ==> exists|
                a: AttributeComplianceAssessment,
            |
                self.detail.spec_assessment_ok(self.privilege, a) && spec_matches_action_prefix(
                    spec_action_entries(a.spec_remediations()),
                    actions@,
                ) && (res.spec_status() == AttributeComplianceStatus::ReachedCompliance
                    ==> actions@.len() == spec_action_entries(a.spec_remediations()).len())),
            !self.detail.spec_is_coherent() ==> r matches Err(_),
            self.detail matches AttributeDetail::Debug(_) ==> r is Ok,
    {
        self.detail.reach_compliance(host_handler, &self.privilege)
    }

    pub fn apt(details: AptBlockExpectedState, privilege: Privilege) -> (r: Attribute)
        ensures
            r.privilege == privilege,
            r.detail == AttributeDetail::Apt(details),
    {
        Attribute::from(AttributeDetail::Apt(details), privilege)
    }

    pub fn pacman(details: PacmanBlockExpectedState, privilege: Privilege) -> (r: Attribute)
        ensures
            r.privilege == privilege,
            r.detail == AttributeDetail::Pacman(details),
    {
        Attribute::from(AttributeDetail::Pacman(details), privilege)
    }

    pub fn yumdnf(details: YumDnfBlockExpectedState, privilege: Privilege) -> (r: Attribute)
        ensures
            r.privilege == privilege,
            r.detail == AttributeDetail::YumDnf(details),
    {
        Attribute::from(AttributeDetail::YumDnf(details), privilege)
    }

    pub fn service(details: ServiceBlockExpectedState, privilege: Privilege) -> (r: Attribute)
        ensures
            r.privilege == privilege,
            r.detail == AttributeDetail::Service(details),
    {
        Attribute::from(AttributeDetail::Service(details), privilege)
    }

    pub fn lineinfile(details: LineInFileBlockExpectedState, privilege: Privilege) -> (r:
        Attribute)
        ensures
            r.privilege == privilege,
            r.detail == AttributeDetail::LineInFile(details),
    {
        Attribute::from(AttributeDetail::LineInFile(details), privilege)
    }

    pub fn command(details: CommandBlockExpectedState, privilege: Privilege) -> (r: Attribute)
        ensures
            r.privilege == privilege,
            r.detail == AttributeDetail::Command(details),
    {
        Attribute::from(AttributeDetail::Command(details), privilege)
    }

    pub fn ping(details: PingBlockExpectedState, privilege: Privilege) -> (r: Attribute)
        ensures
            r.privilege == privilege,
            r.detail == AttributeDetail::Ping(details),
    {
        Attribute::from(AttributeDetail::Ping(details), privilege)
    }

    pub fn debug(details: DebugBlockExpectedState, privilege: Privilege) -> (r: Attribute)
        ensures
            r.privilege == privilege,
            r.detail == AttributeDetail::Debug(details),
    {
        Attribute::from(AttributeDetail::Debug(details), privilege)
    }
}

} // verus!
