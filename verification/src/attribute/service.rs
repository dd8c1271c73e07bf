use vstd::prelude::*;

use crate::attribute::Remediation;
use crate::command::CommandResult;
use crate::compliance::{AttributeComplianceAssessment, InternalApiCallOutcome};
use crate::error::Error;
use crate::host_handler::{
    is_this_command_available, lemma_appended_only_push, lemma_appended_only_refl,
    lemma_appended_only_trans, record_of, spec_appended_only, spec_availability_probe, HostHandler,
};
use crate::privilege::Privilege;
use crate::util::{i32_to_string, spec_dec_int};

verus! {

/// Whether a service is wanted running or stopped.
#[derive(Debug, Clone, Copy, PartialEq, Eq, Structural)]
pub enum ServiceExpectedStatus {
    Active,
    Inactive,
}

/// Whether a service is wanted enabled at boot or not.
#[derive(Debug, Clone, Copy, PartialEq, Eq, Structural)]
pub enum ServiceExpectedAutoStart {
    Enabled,
    Disabled,
}

/// The four corrective actions the service module knows.
#[derive(Debug, Clone, PartialEq, Eq)]
pub enum ServiceModuleInternalApiCall {
    Start(String),
    Stop(String),
    Enable(String),
    Disable(String),
}

pub open spec fn spec_service_start_command(name: Seq<char>) -> Seq<char> {
    "systemctl start "@ + name
}

pub open spec fn spec_service_stop_command(name: Seq<char>) -> Seq<char> {
    "systemctl stop "@ + name
}

pub open spec fn spec_service_enable_command(name: Seq<char>) -> Seq<char> {
    "systemctl enable "@ + name
}

pub open spec fn spec_service_disable_command(name: Seq<char>) -> Seq<char> {
    "systemctl disable "@ + name
}

/// The probe for a service's running state: `systemctl is-active <name>`.
pub open spec fn spec_is_active_probe(name: Seq<char>) -> Seq<char> {
    "systemctl is-active "@ + name
}

/// The probe for a service's boot state: `systemctl is-enabled <name>`.
pub open spec fn spec_is_enabled_probe(name: Seq<char>) -> Seq<char> {
    "systemctl is-enabled "@ + name
}

/// A concrete service action carrying the privilege it runs under.
#[derive(Debug, Clone)]
pub struct ServiceApiCall {
    pub api_call: ServiceModuleInternalApiCall,
    pub privilege: Privilege,
}

impl ServiceApiCall {
    pub fn from(api_call: ServiceModuleInternalApiCall, privilege: Privilege) -> (r:
        ServiceApiCall)
        ensures
            r == (ServiceApiCall { api_call, privilege }),
    {
        ServiceApiCall { api_call, privilege }
    }

    /// Human-readable description of the action.
    pub fn display(&self) -> (r: String)
        ensures
            match self.api_call {
                ServiceModuleInternalApiCall::Start(name) => r@ == "Start service "@ + name@,
                ServiceModuleInternalApiCall::Stop(name) => r@ == "Stop service "@ + name@,
                ServiceModuleInternalApiCall::Enable(name) => r@ == "Enable service "@ + name@,
                ServiceModuleInternalApiCall::Disable(name) => r@ == "Disable service "@ + name@,
            },
    {
        match &self.api_call {
            ServiceModuleInternalApiCall::Start(name) => {
                let mut d = String::from_str("Start service ");
                d.append(name.as_str());
                d
            },
            ServiceModuleInternalApiCall::Stop(name) => {
                let mut d = String::from_str("Stop service ");
                d.append(name.as_str());
                d
            },
            ServiceModuleInternalApiCall::Enable(name) => {
                let mut d = String::from_str("Enable service ");
                d.append(name.as_str());
                d
            },
            ServiceModuleInternalApiCall::Disable(name) => {
                let mut d = String::from_str("Disable service ");
                d.append(name.as_str());
                d
            },
        }
    }

    /// A field-wise copy, equal to `self`.
    pub fn duplicate(&self) -> (r: ServiceApiCall)
        ensures
            r == *self,
    {
        let api_call = match &self.api_call {
            ServiceModuleInternalApiCall::Start(n) => ServiceModuleInternalApiCall::Start(n.clone()),
            ServiceModuleInternalApiCall::Stop(n) => ServiceModuleInternalApiCall::Stop(n.clone()),
            ServiceModuleInternalApiCall::Enable(n) => ServiceModuleInternalApiCall::Enable(n.clone()),
            ServiceModuleInternalApiCall::Disable(n) => ServiceModuleInternalApiCall::Disable(n.clone()),
        };
        ServiceApiCall { api_call, ..*self }
    }

    /// The exact shell command of this action.
    pub open spec fn spec_command(&self) -> Seq<char> {
        match self.api_call {
            ServiceModuleInternalApiCall::Start(name) => spec_service_start_command(name@),
            ServiceModuleInternalApiCall::Stop(name) => spec_service_stop_command(name@),
            ServiceModuleInternalApiCall::Enable(name) => spec_service_enable_command(name@),
            ServiceModuleInternalApiCall::Disable(name) => spec_service_disable_command(name@),
        }
    }

    pub fn command(&self) -> (r: String)
        ensures
            r@ == self.spec_command(),
    {
        match &self.api_call {
            ServiceModuleInternalApiCall::Start(name) => {
                let mut c = String::from_str("systemctl start ");
                c.append(name.as_str());
                c
            },
            ServiceModuleInternalApiCall::Stop(name) => {
                let mut c = String::from_str("systemctl stop ");
                c.append(name.as_str());
                c
            },
            ServiceModuleInternalApiCall::Enable(name) => {
                let mut c = String::from_str("systemctl enable ");
                c.append(name.as_str());
                c
            },
            ServiceModuleInternalApiCall::Disable(name) => {
                let mut c = String::from_str("systemctl disable ");
                c.append(name.as_str());
                c
            },
        }
    }

    /// Executes this action on the host and classifies its exit code.
    pub fn call<Handler: HostHandler>(&self, host_handler: &mut Handler) -> (r: Result<
        InternalApiCallOutcome,
        Error,
    >)
        ensures
            r matches Ok(_) ==> final(host_handler).executed() == old(host_handler).executed().push(
                record_of(self.spec_command(), self.privilege),
            ),
            spec_appended_only(
                old(host_handler).executed(),
                final(host_handler).executed(),
                |rec: (Seq<char>, Privilege)| rec == record_of(self.spec_command(), self.privilege),
            ),
            r matches Ok(o) ==> (o matches InternalApiCallOutcome::Success || o matches
                InternalApiCallOutcome::Failure(_)),
    {
        let ghost log0 = host_handler.executed();
        let ghost allowed = |rec: (Seq<char>, Privilege)|
            rec == record_of(self.spec_command(), self.privilege);
        let cmd = self.command();
        match host_handler.run_command(cmd.as_str(), &self.privilege) {
            Ok(cmd_result) => {
                proof {
                    lemma_appended_only_push(
                        log0,
                        record_of(self.spec_command(), self.privilege),
                        allowed,
                    );
                }
                Ok(InternalApiCallOutcome::of_command_result(&cmd_result))
            },
            Err(error_detail) => {
                proof {
                    lemma_appended_only_push(
                        log0,
                        record_of(self.spec_command(), self.privilege),
                        allowed,
                    );
                }
                Err(error_detail)
            },
        }
    }
}

/// The failure an assessment reports when systemctl is missing.
pub fn systemctl_unavailable_error() -> (e: Error)
    ensures
        e matches Error::FailedDryRunEvaluation(m) && m@ == "SYSTEMCTL not available on this host"@,
{
    Error::FailedDryRunEvaluation(String::from_str("SYSTEMCTL not available on this host"))
}

/// What `systemctl is-active` reports, read off its exit code. Code 0 is
/// active, 3 inactive, 4 no such unit (fatal unless the service may be
/// absent), 1 and anything else an evaluation failure.
pub fn interpret_is_active(cmd_result: &CommandResult, must_exist: bool) -> (r: Result<
    bool,
    Error,
>)
    ensures
        cmd_result.return_code == 0 ==> r == Ok::<bool, Error>(true),
        cmd_result.return_code == 3 ==> r == Ok::<bool, Error>(false),
        cmd_result.return_code == 4 && !must_exist ==> r == Ok::<bool, Error>(false),
        cmd_result.return_code == 4 && must_exist ==> (r matches Err(e) && e matches
            Error::FailedDryRunEvaluation(m) && m@ == "No such service"@),
        cmd_result.return_code == 1 ==> (r matches Err(e) && e matches
            Error::FailedDryRunEvaluation(m) && m@ == "Unit not failed"@),
        !(cmd_result.return_code == 0 || cmd_result.return_code == 1 || cmd_result.return_code == 3
            || cmd_result.return_code == 4) ==> (r matches Err(e) && e matches
            Error::FailedDryRunEvaluation(_)),
{
    if cmd_result.return_code == 0 {
        Ok(true)
    } else if cmd_result.return_code == 3 {
        Ok(false)
    } else if cmd_result.return_code == 4 {
        if must_exist {
            Err(Error::FailedDryRunEvaluation(String::from_str("No such service")))
        } else {
            Ok(false)
        }
    } else if cmd_result.return_code == 1 {
        Err(Error::FailedDryRunEvaluation(String::from_str("Unit not failed")))
    } else {
        Err(Error::FailedDryRunEvaluation(unknown_return_code_message(cmd_result)))
    }
}

/// What `systemctl is-enabled` reports, read off its exit code. Code 0 is
/// enabled, 1 disabled, 4 no such unit (fatal unless the service may be
/// absent), anything else an evaluation failure.
pub fn interpret_is_enabled(cmd_result: &CommandResult, must_exist: bool) -> (r: Result<
    bool,
    Error,
>)
    ensures
        cmd_result.return_code == 0 ==> r == Ok::<bool, Error>(true),
        cmd_result.return_code == 1 ==> r == Ok::<bool, Error>(false),
        cmd_result.return_code == 4 && !must_exist ==> r == Ok::<bool, Error>(false),
        cmd_result.return_code == 4 && must_exist ==> (r matches Err(e) && e matches
            Error::FailedDryRunEvaluation(m) && m@ == "No such service"@),
        !(cmd_result.return_code == 0 || cmd_result.return_code == 1 || cmd_result.return_code == 4)
            ==> (r matches Err(e) && e matches Error::FailedDryRunEvaluation(_)),
{
    if cmd_result.return_code == 0 {
        Ok(true)
    } else if cmd_result.return_code == 1 {
        Ok(false)
    } else if cmd_result.return_code == 4 {
        if must_exist {
            Err(Error::FailedDryRunEvaluation(String::from_str("No such service")))
        } else {
            Ok(false)
        }
    } else {
        Err(Error::FailedDryRunEvaluation(unknown_return_code_message(cmd_result)))
    }
}

fn unknown_return_code_message(cmd_result: &CommandResult) -> (r: String)
    ensures
        r@ == "Unknown return code : RC : "@ + spec_dec_int(cmd_result.return_code as int)
            + ", STDOUT : "@ + cmd_result.stdout@ + ", STDERR : "@ + cmd_result.stderr@,
{
    let mut m = String::from_str("Unknown return code : RC : ");
    let code = i32_to_string(cmd_result.return_code);
    m.append(code.as_str());
    m.append(", STDOUT : ");
    m.append(cmd_result.stdout.as_str());
    m.append(", STDERR : ");
    m.append(cmd_result.stderr.as_str());
    m
}

/// The declarative state of one system service: its name, the wanted
/// running state, the wanted boot state, and whether the unit must exist.
#[derive(Debug, Clone)]
pub struct ServiceBlockExpectedState {
    name: String,
    current_status: Option<ServiceExpectedStatus>,
    auto_start: Option<ServiceExpectedAutoStart>,
    exists: Option<bool>,
}

impl ServiceBlockExpectedState {
    pub closed spec fn spec_name(&self) -> Seq<char> {
        self.name@
    }

    pub closed spec fn spec_name_string(&self) -> String {
        self.name
    }

    pub closed spec fn spec_current_status(&self) -> Option<ServiceExpectedStatus> {
        self.current_status
    }

    pub closed spec fn spec_auto_start(&self) -> Option<ServiceExpectedAutoStart> {
        self.auto_start
    }

    pub closed spec fn spec_exists(&self) -> Option<bool> {
        self.exists
    }

    /// A block assembled from its parsed fields, as a document declares
    /// them; validation happens at build or assessment time.
    pub fn from_parts(
        name: String,
        current_status: Option<ServiceExpectedStatus>,
        auto_start: Option<ServiceExpectedAutoStart>,
        service_exists: Option<bool>,
    ) -> (r: ServiceBlockExpectedState)
        ensures
            r.spec_name_string() == name,
            r.spec_current_status() == current_status,
            r.spec_auto_start() == auto_start,
            r.spec_exists() == service_exists,
    {
        ServiceBlockExpectedState { name, current_status, auto_start, exists: service_exists }
    }

    pub fn name(&self) -> (r: &str)
        ensures
            r@ == self.spec_name(),
    {
        self.name.as_str()
    }

    pub fn current_status(&self) -> (r: &Option<ServiceExpectedStatus>)
        ensures
            r == self.spec_current_status(),
    {
        &self.current_status
    }

    pub fn auto_start(&self) -> (r: &Option<ServiceExpectedAutoStart>)
        ensures
            r == self.spec_auto_start(),
    {
        &self.auto_start
    }

    pub fn existence(&self) -> (r: &Option<bool>)
        ensures
            r == self.spec_exists(),
    {
        &self.exists
    }

    /// The unit must exist unless the block says `exists: false`.
    pub open spec fn spec_must_exist(&self) -> bool {
        self.spec_exists() != Some(false)
    }

    /// A service block is coherent when it asks for at least one of a
    /// running state or a boot state, and does not pair `exists: false`
    /// with `Active` or `Enabled`.
    pub open spec fn spec_is_coherent(&self) -> bool {
        &&& (self.spec_current_status() is Some || self.spec_auto_start() is Some)
        &&& !(self.spec_exists() == Some(false) && (self.spec_current_status() == Some(
            ServiceExpectedStatus::Active,
        ) || self.spec_auto_start() == Some(ServiceExpectedAutoStart::Enabled)))
    }

    pub fn builder(service_name: &str) -> (r: ServiceBlockExpectedState)
        ensures
            r.spec_name() == service_name@,
            r.spec_current_status() is None,
            r.spec_auto_start() is None,
            r.spec_exists() is None,
    {
        ServiceBlockExpectedState {
            name: service_name.to_owned(),
            current_status: None,
            auto_start: None,
            exists: None,
        }
    }

    pub fn with_service_state(&mut self, expected_current_status: ServiceExpectedStatus) -> (r:
        &mut ServiceBlockExpectedState)
        ensures
            r.spec_current_status() == Some(expected_current_status),
            r.spec_name() == old(self).spec_name(),
            r.spec_auto_start() == old(self).spec_auto_start(),
            r.spec_exists() == old(self).spec_exists(),
            *final(self) == *final(r),
    {
        self.current_status = Some(expected_current_status);
        self
    }

    pub fn with_autostart_state(&mut self, expected_autostart_state: ServiceExpectedAutoStart)
        -> (r: &mut ServiceBlockExpectedState)
        ensures
            r.spec_auto_start() == Some(expected_autostart_state),
            r.spec_name() == old(self).spec_name(),
            r.spec_current_status() == old(self).spec_current_status(),
            r.spec_exists() == old(self).spec_exists(),
            *final(self) == *final(r),
    {
        self.auto_start = Some(expected_autostart_state);
        self
    }

    pub fn with_exists(&mut self, setting: bool) -> (r: &mut ServiceBlockExpectedState)
        ensures
            r.spec_exists() == Some(setting),
            r.spec_name() == old(self).spec_name(),
            r.spec_current_status() == old(self).spec_current_status(),
            r.spec_auto_start() == old(self).spec_auto_start(),
            *final(self) == *final(r),
    {
        self.exists = Some(setting);
        self
    }

    /// Validates the declared state: every incoherent combination is
    /// rejected with `IncoherentExpectedState`, exactly when incoherent.
    pub fn build(&self) -> (r: Result<ServiceBlockExpectedState, Error>)
        ensures
            r matches Ok(b) ==> b == *self && self.spec_is_coherent(),
            r matches Err(e) ==> !self.spec_is_coherent() && e matches Error::IncoherentExpectedState(_),
    {
        if !self.is_coherent() {
            return Err(
                Error::IncoherentExpectedState(
                    String::from_str(
                        "a service expected state needs a running or boot state, and a service cannot both be wanted and not exist",
                    ),
                ),
            );
        }
        Ok(self.duplicate())
    }

    pub fn is_coherent(&self) -> (r: bool)
        ensures
            r == self.spec_is_coherent(),
    {
        let asks_something = self.current_status.is_some() || self.auto_start.is_some();
        let conflict = matches!(self.exists, Some(false)) && (matches!(
            self.current_status,
            Some(ServiceExpectedStatus::Active),
        ) || matches!(self.auto_start, Some(ServiceExpectedAutoStart::Enabled)));
        asks_something && !conflict
    }

    /// A field-wise copy, equal to `self`.
    pub fn duplicate(&self) -> (r: ServiceBlockExpectedState)
        ensures
            r == *self,
    {
        ServiceBlockExpectedState {
            name: self.name.clone(),
            current_status: self.current_status,
            auto_start: self.auto_start,
            exists: self.exists,
        }
    }

    /// The probes a service assessment may send, all read-only.
    pub open spec fn spec_is_probe(&self, privilege: Privilege, rec: (Seq<char>, Privilege)) -> bool {
        ||| rec == record_of(spec_availability_probe("systemctl"@), privilege)
        ||| rec == record_of(spec_is_active_probe(self.spec_name()), Privilege::Usual)
        ||| rec == record_of(spec_is_enabled_probe(self.spec_name()), Privilege::Usual)
    }

    /// Whether both observed states satisfy the declared ones.
    pub open spec fn spec_goal_met(&self, active: bool, enabled: bool) -> bool {
        &&& match self.spec_current_status() {
            Some(ServiceExpectedStatus::Active) => active,
            Some(ServiceExpectedStatus::Inactive) => !active,
            None => true,
        }
        &&& match self.spec_auto_start() {
            Some(ServiceExpectedAutoStart::Enabled) => enabled,
            Some(ServiceExpectedAutoStart::Disabled) => !enabled,
            None => true,
        }
    }

    /// The remediation entry the declared running state contributes.
    pub open spec fn spec_status_entry_ok(&self, active: bool, privilege: Privilege, r: Remediation) -> bool {
        match self.spec_current_status() {
            Some(ServiceExpectedStatus::Active) => if active {
                r matches Remediation::AlreadyMet(m) && m@ == self.spec_name() + " already Active"@
            } else {
                r == Remediation::Service(
                    ServiceApiCall {
                        api_call: ServiceModuleInternalApiCall::Start(self.spec_name_string()),
                        privilege,
                    },
                )
            },
            Some(ServiceExpectedStatus::Inactive) => if active {
                r == Remediation::Service(
                    ServiceApiCall {
                        api_call: ServiceModuleInternalApiCall::Stop(self.spec_name_string()),
                        privilege,
                    },
                )
            } else {
                r matches Remediation::AlreadyMet(m) && m@ == self.spec_name()
                    + " already Inactive"@
            },
            None => true,
        }
    }

    /// The remediation entry the declared boot state contributes.
    pub open spec fn spec_auto_start_entry_ok(
        &self,
        enabled: bool,
        privilege: Privilege,
        r: Remediation,
    ) -> bool {
        match self.spec_auto_start() {
            Some(ServiceExpectedAutoStart::Enabled) => if enabled {
                r matches Remediation::AlreadyMet(m) && m@ == self.spec_name() + " already enabled"@
            } else {
                r == Remediation::Service(
                    ServiceApiCall {
                        api_call: ServiceModuleInternalApiCall::Enable(self.spec_name_string()),
                        privilege,
                    },
                )
            },
            Some(ServiceExpectedAutoStart::Disabled) => if enabled {
                r == Remediation::Service(
                    ServiceApiCall {
                        api_call: ServiceModuleInternalApiCall::Disable(self.spec_name_string()),
                        privilege,
                    },
                )
            } else {
                r matches Remediation::AlreadyMet(m) && m@ == self.spec_name()
                    + " already disabled"@
            },
            None => true,
        }
    }

    /// What a service assessment says, as a function of the declared state
    /// and the two observed states: `Compliant` exactly when both sub-goals
    /// are met; otherwise the remediations, running state first, boot state
    /// second. A block with `exists: false` only rules combinations out:
    /// once coherent it asks for nothing, and assesses compliant whatever
    /// the live unit reports.
    pub open spec fn spec_assessment_of(
        &self,
        privilege: Privilege,
        active: bool,
        enabled: bool,
        a: AttributeComplianceAssessment,
    ) -> bool {
        if self.spec_exists() == Some(false) {
            a == AttributeComplianceAssessment::Compliant
        } else if self.spec_goal_met(active, enabled) {
            a == AttributeComplianceAssessment::Compliant
        } else {
            a matches AttributeComplianceAssessment::NonCompliant(rems)
                && self.spec_remediations_ok(privilege, active, enabled, rems@)
        }
    }

    pub open spec fn spec_remediations_ok(
        &self,
        privilege: Privilege,
        active: bool,
        enabled: bool,
        rems: Seq<Remediation>,
    ) -> bool {
        let with_status: int = if self.spec_current_status() is Some {
            1
        } else {
            0
        };
        let with_auto: int = if self.spec_auto_start() is Some {
            1
        } else {
            0
        };
        &&& rems.len() == with_status + with_auto
        &&& (self.spec_current_status() is Some ==> self.spec_status_entry_ok(
            active,
            privilege,
            rems[0],
        ))
        &&& (self.spec_auto_start() is Some ==> self.spec_auto_start_entry_ok(
            enabled,
            privilege,
            rems.last(),
        ))
    }

    /// The pure decision step of a service assessment: given what the two
    /// probes observed, produce the assessment.
    pub fn decide(&self, active: bool, enabled: bool, privilege: &Privilege) -> (a:
        AttributeComplianceAssessment)
        requires
            self.spec_is_coherent(),
        ensures
            self.spec_assessment_of(*privilege, active, enabled, a),
    {
        if matches!(self.exists, Some(false)) {
            return AttributeComplianceAssessment::Compliant;
        }
        let mut remediations: Vec<Remediation> = Vec::new();
        let mut all_matched = true;
        match &self.current_status {
            Some(ServiceExpectedStatus::Active) => {
                if active {
                    let mut m = self.name.clone();
                    m.append(" already Active");
                    remediations.push(Remediation::AlreadyMet(m));
                } else {
                    all_matched = false;
                    remediations.push(
                        Remediation::Service(
                            ServiceApiCall {
                                api_call: ServiceModuleInternalApiCall::Start(self.name.clone()),
                                privilege: *privilege,
                            },
                        ),
                    );
                }
            },
            Some(ServiceExpectedStatus::Inactive) => {
                if active {
                    all_matched = false;
                    remediations.push(
                        Remediation::Service(
                            ServiceApiCall {
                                api_call: ServiceModuleInternalApiCall::Stop(self.name.clone()),
                                privilege: *privilege,
                            },
                        ),
                    );
                } else {
                    let mut m = self.name.clone();
                    m.append(" already Inactive");
                    remediations.push(Remediation::AlreadyMet(m));
                }
            },
            None => {},
        }
        match &self.auto_start {
            Some(ServiceExpectedAutoStart::Enabled) => {
                if enabled {
                    let mut m = self.name.clone();
                    m.append(" already enabled");
                    remediations.push(Remediation::AlreadyMet(m));
                } else {
                    all_matched = false;
                    remediations.push(
                        Remediation::Service(
                            ServiceApiCall {
                                api_call: ServiceModuleInternalApiCall::Enable(self.name.clone()),
                                privilege: *privilege,
                            },
                        ),
                    );
                }
            },
            Some(ServiceExpectedAutoStart::Disabled) => {
                if enabled {
                    all_matched = false;
                    remediations.push(
                        Remediation::Service(
                            ServiceApiCall {
                                api_call: ServiceModuleInternalApiCall::Disable(self.name.clone()),
                                privilege: *privilege,
                            },
                        ),
                    );
                } else {
                    let mut m = self.name.clone();
                    m.append(" already disabled");
                    remediations.push(Remediation::AlreadyMet(m));
                }
            },
            None => {},
        }
        if all_matched {
            AttributeComplianceAssessment::Compliant
        } else {
            AttributeComplianceAssessment::NonCompliant(remediations)
        }
    }

    /// Assesses the live host: verifies systemctl is present, probes the
    /// service's running and boot states, and hands both observations to
    /// [`Self::decide`]. Read-only: only probe commands reach the host.
    pub fn assess_compliance<Handler: HostHandler>(
        &self,
        host_handler: &mut Handler,
        privilege: &Privilege,
    ) -> (r: Result<AttributeComplianceAssessment, Error>)
        ensures
            spec_appended_only(
                old(host_handler).executed(),
                final(host_handler).executed(),
                |rec: (Seq<char>, Privilege)| self.spec_is_probe(*privilege, rec),
            ),
            r matches Ok(a) ==> exists|active: bool, enabled: bool|
                self.spec_assessment_of(*privilege, active, enabled, a),
            !self.spec_is_coherent() ==> r matches Err(_),
    {
        let ghost log0 = host_handler.executed();
        let ghost allowed = |rec: (Seq<char>, Privilege)| self.spec_is_probe(*privilege, rec);
        proof {
            lemma_appended_only_refl(log0, allowed);
        }
        let systemctl_available = match is_this_command_available(
            host_handler,
            "systemctl",
            privilege,
        ) {
            Ok(b) => b,
            Err(error_detail) => {
                proof {
                    lemma_appended_only_push(
                        log0,
                        record_of(spec_availability_probe("systemctl"@), *privilege),
                        allowed,
                    );
                }
                return Err(error_detail);
            },
        };
        proof {
            lemma_appended_only_push(
                log0,
                record_of(spec_availability_probe("systemctl"@), *privilege),
                allowed,
            );
        }
        if !systemctl_available {
            return Err(systemctl_unavailable_error());
        }
        let must_exist = !matches!(self.exists, Some(false));
        let ghost log1 = host_handler.executed();
        let active = match self.probe_is_active(host_handler, must_exist) {
            Ok(b) => b,
            Err(error_detail) => {
                proof {
                    lemma_appended_only_push(
                        log1,
                        record_of(spec_is_active_probe(self.spec_name()), Privilege::Usual),
                        allowed,
                    );
                    lemma_appended_only_trans(log0, log1, host_handler.executed(), allowed);
                }
                return Err(error_detail);
            },
        };
        proof {
            lemma_appended_only_push(
                log1,
                record_of(spec_is_active_probe(self.spec_name()), Privilege::Usual),
                allowed,
            );
            lemma_appended_only_trans(log0, log1, host_handler.executed(), allowed);
        }
        let ghost log2 = host_handler.executed();
        let enabled = match self.probe_is_enabled(host_handler, must_exist) {
            Ok(b) => b,
            Err(error_detail) => {
                proof {
                    lemma_appended_only_push(
                        log2,
                        record_of(spec_is_enabled_probe(self.spec_name()), Privilege::Usual),
                        allowed,
                    );
                    lemma_appended_only_trans(log0, log2, host_handler.executed(), allowed);
                }
                return Err(error_detail);
            },
        };
        proof {
            lemma_appended_only_push(
                log2,
                record_of(spec_is_enabled_probe(self.spec_name()), Privilege::Usual),
                allowed,
            );
            lemma_appended_only_trans(log0, log2, host_handler.executed(), allowed);
        }
        if self.current_status.is_none() && self.auto_start.is_none() {
            return Err(Error::FailedDryRunEvaluation(String::from_str(
                "STATE and ENABLED fields are both empty in provided Task List",
            )));
        }
        if !self.is_coherent() {
            return Err(
                Error::IncoherentExpectedState(
                    String::from_str("Service cannot be both wanted and non-existing."),
                ),
            );
        }
        let assessment = self.decide(active, enabled, privilege);
        Ok(assessment)
    }

    /// Sends the `is-active` probe and interprets its exit code.
    fn probe_is_active<Handler: HostHandler>(
        &self,
        host_handler: &mut Handler,
        must_exist: bool,
    ) -> (r: Result<bool, Error>)
        ensures
            final(host_handler).executed() == old(host_handler).executed().push(
                record_of(spec_is_active_probe(self.spec_name()), Privilege::Usual),
            ),
    {
        let mut probe = String::from_str("systemctl is-active ");
        probe.append(self.name.as_str());
        match host_handler.run_command(probe.as_str(), &Privilege::Usual) {
            Ok(cmd_result) => interpret_is_active(&cmd_result, must_exist),
            Err(error_detail) => Err(error_detail),
        }
    }

    /// Sends the `is-enabled` probe and interprets its exit code.
    fn probe_is_enabled<Handler: HostHandler>(
        &self,
        host_handler: &mut Handler,
        must_exist: bool,
    ) -> (r: Result<bool, Error>)
        ensures
            final(host_handler).executed() == old(host_handler).executed().push(
                record_of(spec_is_enabled_probe(self.spec_name()), Privilege::Usual),
            ),
    {
        let mut probe = String::from_str("systemctl is-enabled ");
        probe.append(self.name.as_str());
        match host_handler.run_command(probe.as_str(), &Privilege::Usual) {
            Ok(cmd_result) => interpret_is_enabled(&cmd_result, must_exist),
            Err(error_detail) => Err(error_detail),
        }
    }
}

/// The running state the declared goal asks for.
pub open spec fn spec_service_goal_active(block: &ServiceBlockExpectedState) -> bool {
    block.spec_current_status() == Some(ServiceExpectedStatus::Active)
}

/// The boot state the declared goal asks for.
pub open spec fn spec_service_goal_enabled(block: &ServiceBlockExpectedState) -> bool {
    block.spec_auto_start() == Some(ServiceExpectedAutoStart::Enabled)
}

/// Convergence: once the host reports the running and boot states the
/// declared goal asks for, assessment is compliant.
pub proof fn lemma_service_convergence(block: ServiceBlockExpectedState, privilege: Privilege)
    ensures
        block.spec_assessment_of(
            privilege,
            spec_service_goal_active(&block),
            spec_service_goal_enabled(&block),
            AttributeComplianceAssessment::Compliant,
        ),
{
}

/// Read-only assessment: no probe of a service assessment is one of the
/// service remediation commands, so an assessment can never have executed
/// one. The probes either ask for command availability or start with
/// `systemctl is-`, while every remediation starts a verb there.
pub proof fn lemma_service_probes_are_not_remediations(
    block: ServiceBlockExpectedState,
    call: ServiceApiCall,
    privilege: Privilege,
    rec: (Seq<char>, Privilege),
)
    requires
        block.spec_is_probe(privilege, rec),
    ensures
        rec.0 != call.spec_command(),
{
    reveal_strlit("command -v ");
    reveal_strlit("systemctl ");
    reveal_strlit("systemctl is-active ");
    reveal_strlit("systemctl is-enabled ");
    reveal_strlit("systemctl start ");
    reveal_strlit("systemctl stop ");
    reveal_strlit("systemctl enable ");
    reveal_strlit("systemctl disable ");
    if rec.0 == spec_availability_probe("systemctl"@) {
        assert(rec.0[0] == 'c');
        assert(call.spec_command()[0] == 's');
    } else {
        assert(rec.0[10] == 'i');
        assert(call.spec_command()[10] == 's' || call.spec_command()[10] == 'e'
            || call.spec_command()[10] == 'd');
    }
}

} // verus!
