use vstd::prelude::*;

use crate::attribute::Remediation;
use crate::compliance::{AttributeComplianceAssessment, InternalApiCallOutcome};
use crate::error::Error;
use crate::host_handler::HostHandler;
use crate::privilege::Privilege;

verus! {

/// A message for the report. A debug block never touches the host.
#[derive(Debug, Clone)]
pub struct DebugBlockExpectedState {
    msg: String,
}

impl DebugBlockExpectedState {
    pub closed spec fn spec_msg(&self) -> Seq<char> {
        self.msg@
    }

    pub fn new(msg: &str) -> (r: DebugBlockExpectedState)
        ensures
            r.spec_msg() == msg@,
    {
        DebugBlockExpectedState { msg: msg.to_owned() }
    }

    pub fn msg(&self) -> (r: &str)
        ensures
            r@ == self.spec_msg(),
    {
        self.msg.as_str()
    }

    /// A field-wise copy, equal to `self`.
    pub fn duplicate(&self) -> (r: DebugBlockExpectedState)
        ensures
            r == *self,
    {
        DebugBlockExpectedState { msg: self.msg.clone() }
    }

    /// What a debug assessment says: one already-met entry carrying the
    /// message, so that the report prints it; nothing ever executes.
    pub open spec fn spec_assessment_of(&self, a: AttributeComplianceAssessment) -> bool {
        a matches AttributeComplianceAssessment::NonCompliant(rems) && rems@.len() == 1 && (rems@[0]
            matches Remediation::AlreadyMet(m) && m@ == self.spec_msg())
    }

    /// Assesses the attribute: yields the message entry without consulting
    /// the host.
    pub fn assess_compliance<Handler: HostHandler>(
        &self,
        host_handler: &mut Handler,
        privilege: &Privilege,
    ) -> (r: Result<AttributeComplianceAssessment, Error>)
        ensures
            *final(host_handler) == *old(host_handler),
            r matches Ok(a) && self.spec_assessment_of(a),
    {
        let mut remediations: Vec<Remediation> = Vec::new();
        remediations.push(Remediation::AlreadyMet(self.msg.clone()));
        Ok(AttributeComplianceAssessment::NonCompliant(remediations))
    }
}

/// A debug entry never executes anything.
#[derive(Debug, Clone, Copy, PartialEq, Eq, Structural)]
pub struct DebugApiCall {
}

impl DebugApiCall {
    /// Human-readable description of the action.
    pub fn display(&self) -> (r: String)
        ensures
            r@ == "Debug module"@,
    {
        String::from_str("Debug module")
    }

    /// Nothing to do: a debug block is a report entry, not work.
    pub fn call<Handler: HostHandler>(&self, host_handler: &mut Handler) -> (r: Result<
        InternalApiCallOutcome,
        Error,
    >)
        ensures
            *final(host_handler) == *old(host_handler),
            r == Ok::<InternalApiCallOutcome, Error>(InternalApiCallOutcome::Success),
    {
        Ok(InternalApiCallOutcome::Success)
    }
}

} // verus!
