use vstd::prelude::*;

use std::collections::HashMap;

use crate::attribute::apt::AptBlockExpectedState;
use crate::attribute::command::{CommandApiCall, CommandBlockExpectedState};
use crate::attribute::debug::{DebugApiCall, DebugBlockExpectedState};
use crate::attribute::lineinfile::{LineInFileApiCall, LineInFileBlockExpectedState};
use crate::attribute::pacman::{PacmanApiCall, PacmanBlockExpectedState};
use crate::attribute::ping::{PingApiCall, PingBlockExpectedState};
use crate::attribute::service::{ServiceApiCall, ServiceBlockExpectedState};
use crate::attribute::yumdnf::{YumDnfApiCall, YumDnfBlockExpectedState};
use crate::attribute::apt::AptApiCall;
use crate::attribute::Attribute;
use crate::compliance::{
    spec_all_compliant, spec_host_reach_status, spec_overall_assessment_status,
    AttributeComplianceAssessment, AttributeComplianceResult, AttributeComplianceStatus,
    HostComplianceAssessment, HostComplianceResult, HostComplianceStatus, InternalApiCallOutcome,
};
use crate::error::Error;
use crate::expected_state::ExpectedState;
use crate::host_handler::{
    lemma_appended_only_implies, lemma_appended_only_refl, lemma_appended_only_trans,
    spec_appended_only, HostHandler,
};
use crate::privilege::Privilege;

verus! {

/// A record is a probe of one of the attributes of the list.
pub open spec fn spec_any_probe(attributes: Seq<Attribute>, rec: (Seq<char>, Privilege)) -> bool {
    exists|i: int|
        0 <= i < attributes.len() && (#[trigger] attributes[i]).detail.spec_is_probe(
            attributes[i].privilege,
            rec,
        )
}

/// The per-host orchestrator: owns the connection and the host's variable
/// context, and drives assessment and remediation over an expected state.
pub struct ManagedHost<Handler> where Handler: HostHandler {
    endpoint: String,
    handler: Handler,
    vars: HashMap<String, String>,
}

impl<Handler: HostHandler> ManagedHost<Handler> {
    pub closed spec fn spec_endpoint(&self) -> Seq<char> {
        self.endpoint@
    }

    pub closed spec fn spec_handler(&self) -> Handler {
        self.handler
    }

    pub fn from(endpoint: &str, handler: Handler, vars: HashMap<String, String>) -> (r:
        ManagedHost<Handler>)
        ensures
            r.spec_endpoint() == endpoint@,
            r.spec_handler() == handler,
    {
        ManagedHost { endpoint: endpoint.to_owned(), handler, vars }
    }

    /// The host's variable context, read-only for the engine.
    pub fn vars(&self) -> &HashMap<String, String> {
        &self.vars
    }

    /// The handler this host talks through; its execution log is how tests
    /// and reports see what reached the host.
    pub fn handler(&self) -> (r: &Handler)
        ensures
            *r == self.spec_handler(),
    {
        &self.handler
    }

    pub fn endpoint(&self) -> (r: &str)
        ensures
            r@ == self.spec_endpoint(),
    {
        self.endpoint.as_str()
    }

    pub fn connect(&mut self) -> (r: Result<(), Error>)
        ensures
            r matches Ok(_) ==> final(self).spec_handler().connected(),
            final(self).spec_handler().executed() == old(self).spec_handler().executed(),
    {
        self.handler.connect(self.endpoint.as_str())
    }

    pub fn is_connected(&mut self) -> (r: bool)
        ensures
            *final(self) == *old(self),
            r == old(self).spec_handler().connected(),
    {
        self.handler.is_connected()
    }

    pub fn disconnect(&mut self) -> (r: Result<(), Error>)
        ensures
            final(self).spec_handler().executed() == old(self).spec_handler().executed(),
    {
        self.handler.disconnect()
    }

    /// Assesses every attribute of the expected state in declaration order
    /// against the live host.
    ///
    /// Read-only: the handler's history grows only by probes of the listed
    /// attributes — no remediation is executed. Each attribute's entry in
    /// the result is its kind's exact decision for some observation of the
    /// host, in declaration order, and the overall status is
    /// `AlreadyCompliant` exactly when every attribute was compliant. An
    /// empty expected state is therefore `AlreadyCompliant`.
    pub fn assess_compliance(&mut self, expected_state: &ExpectedState) -> (r: Result<
        HostComplianceAssessment,
        Error,
    >)
        ensures
            spec_appended_only(
                old(self).spec_handler().executed(),
                final(self).spec_handler().executed(),
                |rec: (Seq<char>, Privilege)| spec_any_probe(expected_state.attributes@, rec),
            ),
            !old(self).spec_handler().connected() ==> r == Err::<
                HostComplianceAssessment,
                Error,
            >(Error::NotConnectedToHost),
            old(self).spec_handler().connected() && expected_state.attributes@.len() == 0 ==> r
                is Ok,
            r matches Ok(hca) ==> {
                &&& hca.spec_attributes().len() == expected_state.attributes@.len()
                &&& (forall|i: int|
                    0 <= i < hca.spec_attributes().len() ==> (#[trigger] hca.spec_attributes()[i]).0
                        == expected_state.attributes@[i])
                &&& (forall|i: int|
                    0 <= i < hca.spec_attributes().len()
                        ==> expected_state.attributes@[i].detail.spec_assessment_ok(
                        expected_state.attributes@[i].privilege,
                        (#[trigger] hca.spec_attributes()[i]).1,
                    ))
                &&& hca.spec_status() == spec_overall_assessment_status(hca.spec_attributes())
                &&& (expected_state.attributes@.len() == 0 ==> hca.spec_status()
                    == HostComplianceStatus::AlreadyCompliant)
            },
    {
        let ghost log0 = self.handler.executed();
        let ghost allowed = |rec: (Seq<char>, Privilege)|
            spec_any_probe(expected_state.attributes@, rec);
        proof {
            lemma_appended_only_refl(log0, allowed);
        }
        if !self.handler.is_connected() {
            return Err(Error::NotConnectedToHost);
        }
        let mut results: Vec<(Attribute, AttributeComplianceAssessment)> = Vec::new();
        let mut already_compliant = true;
        let n = expected_state.attributes.len();
        let mut i: usize = 0;
        while i < n
            invariant
                0 <= i <= n,
                n == expected_state.attributes@.len(),
                old(self).spec_handler().connected(),
                log0 == old(self).spec_handler().executed(),
                results@.len() == i,
                forall|k: int|
                    0 <= k < i ==> (#[trigger] results@[k]).0 == expected_state.attributes@[k],
                forall|k: int|
                    0 <= k < i ==> expected_state.attributes@[k].detail.spec_assessment_ok(
                        expected_state.attributes@[k].privilege,
                        (#[trigger] results@[k]).1,
                    ),
                already_compliant == spec_all_compliant(results@),
                spec_appended_only(
                    log0,
                    self.spec_handler().executed(),
                    |rec: (Seq<char>, Privilege)| spec_any_probe(expected_state.attributes@, rec),
                ),
            decreases n - i,
        {
            let attribute = &expected_state.attributes[i];
            let ghost before = self.handler.executed();
            match attribute.assess(&mut self.handler) {
                Ok(assessment) => {
                    proof {
                        lemma_appended_only_implies(
                            before,
                            self.handler.executed(),
                            |rec: (Seq<char>, Privilege)|
                                attribute.detail.spec_is_probe(attribute.privilege, rec),
                            |rec: (Seq<char>, Privilege)|
                                spec_any_probe(expected_state.attributes@, rec),
                        );
                        lemma_appended_only_trans(
                            log0,
                            before,
                            self.handler.executed(),
                            |rec: (Seq<char>, Privilege)|
                                spec_any_probe(expected_state.attributes@, rec),
                        );
                    }
                    let compliant = assessment.is_compliant();
                    if !compliant {
                        already_compliant = false;
                    }
                    let ghost results_prev = results@;
                    results.push((attribute.duplicate(), assessment));
                    proof {
                        assert(forall|k: int|
                            0 <= k < results_prev.len() ==> results@[k] == #[trigger] results_prev[k]);
                        assert(spec_all_compliant(results@) ==> spec_all_compliant(results_prev))
                            by {
                            if spec_all_compliant(results@) {
                                assert forall|k: int|
                                    0 <= k < results_prev.len() implies (
                                #[trigger] results_prev[k]).1.spec_is_compliant() by {
                                    assert(results@[k].1.spec_is_compliant());
                                }
                            }
                        }
                        if spec_all_compliant(results_prev) && results@.last().1.spec_is_compliant() {
                            assert forall|k: int|
                                0 <= k < results@.len() implies (
                            #[trigger] results@[k]).1.spec_is_compliant() by {
                                if k < results@.len() - 1 {
                                    assert(results@[k] == results_prev[k]);
                                }
                            }
                        }
                    }
                },
                Err(error_detail) => {
                    proof {
                        lemma_appended_only_implies(
                            before,
                            self.handler.executed(),
                            |rec: (Seq<char>, Privilege)|
                                attribute.detail.spec_is_probe(attribute.privilege, rec),
                            |rec: (Seq<char>, Privilege)|
                                spec_any_probe(expected_state.attributes@, rec),
                        );
                        lemma_appended_only_trans(
                            log0,
                            before,
                            self.handler.executed(),
                            |rec: (Seq<char>, Privilege)|
                                spec_any_probe(expected_state.attributes@, rec),
                        );
                    }
                    return Err(error_detail);
                },
            }
            i = i + 1;
        }
        let status = if already_compliant {
            HostComplianceStatus::AlreadyCompliant
        } else {
            HostComplianceStatus::NonCompliant
        };
        Ok(HostComplianceAssessment::from(status, results))
    }

    /// Reaches compliance attribute by attribute, in declaration order:
    /// each attribute is re-assessed and its remediations run in order. A
    /// failed attribute stops the run: later attributes are not evaluated.
    /// The overall status is `AlreadyCompliant` when every attribute
    /// already was, `FailedReachedCompliance` when one failed (and it is
    /// the last processed), else `ReachedCompliance`.
    pub fn reach_compliance(&mut self, expected_state: &ExpectedState) -> (r: Result<
        HostComplianceResult,
        Error,
    >)
        ensures
            !old(self).spec_handler().connected() ==> r == Err::<
                HostComplianceResult,
                Error,
            >(Error::NotConnectedToHost),
            old(self).spec_handler().connected() && expected_state.attributes@.len() == 0 ==> r
                is Ok,
            r matches Ok(res) ==> {
                &&& res.spec_actions().len() <= expected_state.attributes@.len()
                &&& (forall|i: int|
                    0 <= i < res.spec_actions().len() ==> (#[trigger] res.spec_actions()[i]).0
                        == expected_state.attributes@[i])
                &&& (forall|i: int|
                    0 <= i < res.spec_actions().len() ==> (#[trigger] res.spec_actions()[i]).1.spec_status()
                        != AttributeComplianceStatus::NonCompliant)
                &&& (forall|i: int|
                    0 <= i < res.spec_actions().len() - 1 ==> (#[trigger] res.spec_actions()[i]).1.spec_status()
                        != AttributeComplianceStatus::FailedReachedCompliance)
                &&& res.spec_status() == spec_host_reach_status(res.spec_actions())
                &&& (res.spec_status() != HostComplianceStatus::FailedReachedCompliance
                    ==> res.spec_actions().len() == expected_state.attributes@.len())
            },
    {
        if !self.handler.is_connected() {
            return Err(Error::NotConnectedToHost);
        }
        let mut actions: Vec<(Attribute, AttributeComplianceResult)> = Vec::new();
        let mut any_work = false;
        let n = expected_state.attributes.len();
        let mut i: usize = 0;
        while i < n
            invariant
                0 <= i <= n,
                n == expected_state.attributes@.len(),
                old(self).spec_handler().connected(),
                actions@.len() == i,
                forall|k: int|
                    0 <= k < i ==> (#[trigger] actions@[k]).0 == expected_state.attributes@[k],
                forall|k: int|
                    0 <= k < i ==> (#[trigger] actions@[k]).1.spec_status()
                        != AttributeComplianceStatus::NonCompliant,
                forall|k: int|
                    0 <= k < i ==> (#[trigger] actions@[k]).1.spec_status()
                        != AttributeComplianceStatus::FailedReachedCompliance,
                any_work == !(forall|k: int|
                    0 <= k < i ==> (#[trigger] actions@[k]).1.spec_status()
                        == AttributeComplianceStatus::AlreadyCompliant),
            decreases n - i,
        {
            let attribute = &expected_state.attributes[i];
            match attribute.reach_compliance(&mut self.handler) {
                Ok(attribute_result) => {
                    let status = attribute_result.status();
                    let ghost actions_prev = actions@;
                    actions.push((attribute.duplicate(), attribute_result));
                    proof {
                        assert(forall|k: int|
                            0 <= k < actions_prev.len() ==> actions@[k] == #[trigger] actions_prev[k]);
                        assert(actions@.last().1.spec_status() == status);
                    }
                    if matches!(status, AttributeComplianceStatus::FailedReachedCompliance) {
                        return Ok(
                            HostComplianceResult::from(
                                HostComplianceStatus::FailedReachedCompliance,
                                actions,
                            ),
                        );
                    }
                    if !matches!(status, AttributeComplianceStatus::AlreadyCompliant) {
                        any_work = true;
                    }
                },
                Err(error_detail) => {
                    return Err(error_detail);
                },
            }
            i = i + 1;
        }
        let status = if any_work {
            HostComplianceStatus::ReachedCompliance
        } else {
            HostComplianceStatus::AlreadyCompliant
        };
        proof {
            if actions@.len() > 0 {
                assert(actions@.last().1.spec_status()
                    != AttributeComplianceStatus::FailedReachedCompliance);
            }
        }
        Ok(HostComplianceResult::from(status, actions))
    }
}

/// Reassembles per-attribute assessments that arrived in any order (as the
/// parallel path delivers them) into a host-level assessment. The overall
/// status depends only on the set of outcomes, not on their order.
pub fn aggregate_assessments(results: Vec<(Attribute, AttributeComplianceAssessment)>) -> (r:
    HostComplianceAssessment)
    ensures
        r.spec_attributes() == results@,
        r.spec_status() == spec_overall_assessment_status(results@),
        results@.len() == 0 ==> r.spec_status() == HostComplianceStatus::AlreadyCompliant,
{
    let mut already_compliant = true;
    let n = results.len();
    let mut i: usize = 0;
    while i < n
        invariant
            0 <= i <= n,
            n == results@.len(),
            already_compliant == (forall|k: int|
                0 <= k < i ==> (#[trigger] results@[k]).1.spec_is_compliant()),
        decreases n - i,
    {
        if !results[i].1.is_compliant() {
            already_compliant = false;
        }
        i = i + 1;
    }
    let status = if already_compliant {
        HostComplianceStatus::AlreadyCompliant
    } else {
        HostComplianceStatus::NonCompliant
    };
    HostComplianceAssessment::from(status, results)
}

/// The overall assessment status ignores the order in which per-attribute
/// outcomes arrive: any two arrangements of the same outcomes — as a
/// parallel run and a sequential run of the same expected state deliver —
/// earn the same host-level status.
pub proof fn lemma_assessment_status_order_insensitive(
    a: Seq<(Attribute, AttributeComplianceAssessment)>,
    b: Seq<(Attribute, AttributeComplianceAssessment)>,
)
    requires
        a.to_multiset() == b.to_multiset(),
    ensures
        spec_overall_assessment_status(a) == spec_overall_assessment_status(b),
{
    broadcast use vstd::seq_lib::group_to_multiset_ensures;

    if spec_all_compliant(a) && !spec_all_compliant(b) {
        let k = choose|k: int|
            0 <= k < b.len() && !(#[trigger] b[k]).1.spec_is_compliant();
        assert(b.contains(b[k]));
        assert(b.to_multiset().count(b[k]) > 0);
        assert(a.contains(b[k]));
        let j = choose|j: int| 0 <= j < a.len() && a[j] == b[k];
        assert(a[j].1.spec_is_compliant());
        assert(false);
    }
    if !spec_all_compliant(a) && spec_all_compliant(b) {
        let k = choose|k: int|
            0 <= k < a.len() && !(#[trigger] a[k]).1.spec_is_compliant();
        assert(a.contains(a[k]));
        assert(a.to_multiset().count(a[k]) > 0);
        assert(b.contains(a[k]));
        let j = choose|j: int| 0 <= j < b.len() && b[j] == a[k];
        assert(b[j].1.spec_is_compliant());
        assert(false);
    }
}

/// An empty expected state earns `AlreadyCompliant` from a sequential run
/// and from the parallel reassembly alike.
pub proof fn lemma_empty_expected_state_already_compliant(
    entries: Seq<(Attribute, AttributeComplianceAssessment)>,
)
    requires
        entries.len() == 0,
    ensures
        spec_overall_assessment_status(entries) == HostComplianceStatus::AlreadyCompliant,
{
}

/// The capability an attribute kind offers for assessment: inspect the
/// live host and report compliance or the ordered remediations.
pub trait AssessCompliance<Handler: HostHandler> {
    fn assess_compliance(&self, host_handler: &mut Handler, privilege: &Privilege) -> Result<
        AttributeComplianceAssessment,
        Error,
    >;
}

/// The capability a concrete action offers for remediation: execute and
/// report how it went.
pub trait ReachCompliance<Handler: HostHandler> {
    fn call(&self, host_handler: &mut Handler) -> Result<InternalApiCallOutcome, Error>;
}

impl<Handler: HostHandler> AssessCompliance<Handler> for AptBlockExpectedState {
    fn assess_compliance(&self, host_handler: &mut Handler, privilege: &Privilege) -> Result<
        AttributeComplianceAssessment,
        Error,
    > {
        self.assess_compliance(host_handler, privilege)
    }
}

impl<Handler: HostHandler> AssessCompliance<Handler> for PacmanBlockExpectedState {
    fn assess_compliance(&self, host_handler: &mut Handler, privilege: &Privilege) -> Result<
        AttributeComplianceAssessment,
        Error,
    > {
        self.assess_compliance(host_handler, privilege)
    }
}

impl<Handler: HostHandler> AssessCompliance<Handler> for YumDnfBlockExpectedState {
    fn assess_compliance(&self, host_handler: &mut Handler, privilege: &Privilege) -> Result<
        AttributeComplianceAssessment,
        Error,
    > {
        self.assess_compliance(host_handler, privilege)
    }
}

impl<Handler: HostHandler> AssessCompliance<Handler> for ServiceBlockExpectedState {
    fn assess_compliance(&self, host_handler: &mut Handler, privilege: &Privilege) -> Result<
        AttributeComplianceAssessment,
        Error,
    > {
        self.assess_compliance(host_handler, privilege)
    }
}

impl<Handler: HostHandler> AssessCompliance<Handler> for LineInFileBlockExpectedState {
    fn assess_compliance(&self, host_handler: &mut Handler, privilege: &Privilege) -> Result<
        AttributeComplianceAssessment,
        Error,
    > {
        self.assess_compliance(host_handler, privilege)
    }
}

impl<Handler: HostHandler> AssessCompliance<Handler> for CommandBlockExpectedState {
    fn assess_compliance(&self, host_handler: &mut Handler, privilege: &Privilege) -> Result<
        AttributeComplianceAssessment,
        Error,
    > {
        self.assess_compliance(host_handler, privilege)
    }
}

impl<Handler: HostHandler> AssessCompliance<Handler> for PingBlockExpectedState {
    fn assess_compliance(&self, host_handler: &mut Handler, privilege: &Privilege) -> Result<
        AttributeComplianceAssessment,
        Error,
    > {
        self.assess_compliance(host_handler, privilege)
    }
}

impl<Handler: HostHandler> AssessCompliance<Handler> for DebugBlockExpectedState {
    fn assess_compliance(&self, host_handler: &mut Handler, privilege: &Privilege) -> Result<
        AttributeComplianceAssessment,
        Error,
    > {
        self.assess_compliance(host_handler, privilege)
    }
}

impl<Handler: HostHandler> ReachCompliance<Handler> for AptApiCall {
    fn call(&self, host_handler: &mut Handler) -> Result<InternalApiCallOutcome, Error> {
        self.call(host_handler)
    }
}

impl<Handler: HostHandler> ReachCompliance<Handler> for PacmanApiCall {
    fn call(&self, host_handler: &mut Handler) -> Result<InternalApiCallOutcome, Error> {
        self.call(host_handler)
    }
}

impl<Handler: HostHandler> ReachCompliance<Handler> for YumDnfApiCall {
    fn call(&self, host_handler: &mut Handler) -> Result<InternalApiCallOutcome, Error> {
        self.call(host_handler)
    }
}

impl<Handler: HostHandler> ReachCompliance<Handler> for ServiceApiCall {
    fn call(&self, host_handler: &mut Handler) -> Result<InternalApiCallOutcome, Error> {
        self.call(host_handler)
    }
}

impl<Handler: HostHandler> ReachCompliance<Handler> for LineInFileApiCall {
    fn call(&self, host_handler: &mut Handler) -> Result<InternalApiCallOutcome, Error> {
        self.call(host_handler)
    }
}

impl<Handler: HostHandler> ReachCompliance<Handler> for CommandApiCall {
    fn call(&self, host_handler: &mut Handler) -> Result<InternalApiCallOutcome, Error> {
        self.call(host_handler)
    }
}

impl<Handler: HostHandler> ReachCompliance<Handler> for PingApiCall {
    fn call(&self, host_handler: &mut Handler) -> Result<InternalApiCallOutcome, Error> {
        self.call(host_handler)
    }
}

impl<Handler: HostHandler> ReachCompliance<Handler> for DebugApiCall {
    fn call(&self, host_handler: &mut Handler) -> Result<InternalApiCallOutcome, Error> {
        self.call(host_handler)
    }
}

} // verus!
