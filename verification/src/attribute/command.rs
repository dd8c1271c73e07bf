use vstd::prelude::*;

use crate::attribute::Remediation;
use crate::compliance::{AttributeComplianceAssessment, InternalApiCallOutcome};
use crate::error::Error;
use crate::host_handler::{
    lemma_appended_only_push, record_of, spec_appended_only, HostHandler,
};
use crate::privilege::Privilege;

verus! {

/// An arbitrary shell command the host must run. Idempotence is the
/// caller's responsibility.
#[derive(Debug, Clone)]
pub struct CommandBlockExpectedState {
    cmd: String,
}

impl CommandBlockExpectedState {
    pub closed spec fn spec_cmd(&self) -> Seq<char> {
        self.cmd@
    }

    pub closed spec fn spec_cmd_string(&self) -> String {
        self.cmd
    }

    pub fn new(cmd: &str) -> (r: CommandBlockExpectedState)
        ensures
            r.spec_cmd() == cmd@,
    {
        CommandBlockExpectedState { cmd: cmd.to_owned() }
    }

    pub fn cmd(&self) -> (r: &str)
        ensures
            r@ == self.spec_cmd(),
    {
        self.cmd.as_str()
    }

    /// A field-wise copy, equal to `self`.
    pub fn duplicate(&self) -> (r: CommandBlockExpectedState)
        ensures
            r == *self,
    {
        CommandBlockExpectedState { cmd: self.cmd.clone() }
    }

    /// What a command assessment says: always one remediation that runs the
    /// command; a command block has no observable sub-goal to check.
    pub open spec fn spec_assessment_of(
        &self,
        privilege: Privilege,
        a: AttributeComplianceAssessment,
    ) -> bool {
        a matches AttributeComplianceAssessment::NonCompliant(rems) && rems@.len() == 1
            && rems@[0] == Remediation::Command(
            CommandApiCall { cmd: self.spec_cmd_string(), privilege },
        )
    }

    /// Assesses the attribute: always non-compliant with the single command
    /// remediation. No probe reaches the host.
    pub fn assess_compliance<Handler: HostHandler>(
        &self,
        host_handler: &mut Handler,
        privilege: &Privilege,
    ) -> (r: Result<AttributeComplianceAssessment, Error>)
        ensures
            *final(host_handler) == *old(host_handler),
            r matches Ok(a) && self.spec_assessment_of(*privilege, a),
    {
        let mut remediations: Vec<Remediation> = Vec::new();
        remediations.push(
            Remediation::Command(CommandApiCall { cmd: self.cmd.clone(), privilege: *privilege }),
        );
        Ok(AttributeComplianceAssessment::NonCompliant(remediations))
    }
}

/// A concrete command action carrying the privilege it runs under.
#[derive(Debug, Clone)]
pub struct CommandApiCall {
    pub cmd: String,
    pub privilege: Privilege,
}

impl CommandApiCall {
    /// A field-wise copy, equal to `self`.
    pub fn duplicate(&self) -> (r: CommandApiCall)
        ensures
            r == *self,
    {
        CommandApiCall { cmd: self.cmd.clone(), privilege: self.privilege }
    }

    /// Executes the command on the host and classifies its exit code.
    pub fn call<Handler: HostHandler>(&self, host_handler: &mut Handler) -> (r: Result<
        InternalApiCallOutcome,
        Error,
    >)
        ensures
            r matches Ok(_) ==> final(host_handler).executed() == old(host_handler).executed().push(
                record_of(self.cmd@, self.privilege),
            ),
            spec_appended_only(
                old(host_handler).executed(),
                final(host_handler).executed(),
                |rec: (Seq<char>, Privilege)| rec == record_of(self.cmd@, self.privilege),
            ),
            r matches Ok(o) ==> (o matches InternalApiCallOutcome::Success || o matches
                InternalApiCallOutcome::Failure(_)),
    {
        let ghost log0 = host_handler.executed();
        let ghost allowed = |rec: (Seq<char>, Privilege)| rec == record_of(self.cmd@, self.privilege);
        match host_handler.run_command(self.cmd.as_str(), &self.privilege) {
            Ok(cmd_result) => {
                proof {
                    lemma_appended_only_push(log0, record_of(self.cmd@, self.privilege), allowed);
                }
                Ok(InternalApiCallOutcome::of_command_result(&cmd_result))
            },
            Err(error_detail) => {
                proof {
                    lemma_appended_only_push(log0, record_of(self.cmd@, self.privilege), allowed);
                }
                Err(error_detail)
            },
        }
    }
}

} // verus!
