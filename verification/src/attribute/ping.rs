use vstd::prelude::*;

use crate::compliance::{AttributeComplianceAssessment, InternalApiCallOutcome};
use crate::error::Error;
use crate::host_handler::{
    lemma_appended_only_push, record_of, spec_appended_only, HostHandler,
};
use crate::privilege::Privilege;

verus! {

/// The probe a ping sends: `id`, the cheapest command every POSIX host has.
pub open spec fn spec_ping_probe() -> Seq<char> {
    "id"@
}

/// Reachability of the host: compliant exactly when it can execute `id`.
#[derive(Debug, Clone, Copy, PartialEq, Eq, Structural)]
pub struct PingBlockExpectedState {
}

impl PingBlockExpectedState {
    pub fn new() -> (r: PingBlockExpectedState)
        ensures
            r == (PingBlockExpectedState {  }),
    {
        PingBlockExpectedState {  }
    }

    /// Assesses reachability: runs `id` under the given privilege. A zero
    /// exit code is compliance; anything else is `Host unreachable`. A ping
    /// never contributes a remediation.
    pub fn assess_compliance<Handler: HostHandler>(
        &self,
        host_handler: &mut Handler,
        privilege: &Privilege,
    ) -> (r: Result<AttributeComplianceAssessment, Error>)
        ensures
            spec_appended_only(
                old(host_handler).executed(),
                final(host_handler).executed(),
                |rec: (Seq<char>, Privilege)| rec == record_of(spec_ping_probe(), *privilege),
            ),
            r matches Ok(a) ==> a == AttributeComplianceAssessment::Compliant,
    {
        let ghost log0 = host_handler.executed();
        let ghost allowed = |rec: (Seq<char>, Privilege)|
            rec == record_of(spec_ping_probe(), *privilege);
        match host_handler.run_command("id", privilege) {
            Ok(cmd_result) => {
                proof {
                    lemma_appended_only_push(log0, record_of(spec_ping_probe(), *privilege), allowed);
                }
                if cmd_result.return_code == 0 {
                    Ok(AttributeComplianceAssessment::Compliant)
                } else {
                    Err(Error::FailedDryRunEvaluation(String::from_str("Host unreachable")))
                }
            },
            Err(error_detail) => {
                proof {
                    lemma_appended_only_push(log0, record_of(spec_ping_probe(), *privilege), allowed);
                }
                Err(error_detail)
            },
        }
    }
}

/// A ping never executes anything during remediation.
#[derive(Debug, Clone, Copy, PartialEq, Eq, Structural)]
pub struct PingApiCall {
    pub privilege: Privilege,
}

impl PingApiCall {
    /// Human-readable description of the action.
    pub fn display(&self) -> (r: String)
        ensures
            r@ == "Check SSH connectivity with remote host"@,
    {
        String::from_str("Check SSH connectivity with remote host")
    }

    /// Nothing to do: reachability was established during assessment.
    pub fn call<Handler: HostHandler>(&self, host_handler: &mut Handler) -> (r: Result<
        InternalApiCallOutcome,
        Error,
    >)
        ensures
            *final(host_handler) == *old(host_handler),
            r == Ok::<InternalApiCallOutcome, Error>(InternalApiCallOutcome::Success),
    {
        Ok(InternalApiCallOutcome::Success)
    }
}

} // verus!
