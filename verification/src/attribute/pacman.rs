use vstd::prelude::*;

use crate::attribute::apt::PackageExpectedState;
use crate::attribute::Remediation;
use crate::command::CommandResult;
use crate::compliance::{AttributeComplianceAssessment, InternalApiCallOutcome};
use crate::error::Error;
use crate::host_handler::{
    is_this_command_available, lemma_appended_only_push, lemma_appended_only_refl,
    lemma_appended_only_trans, record_of, spec_appended_only, spec_availability_probe, HostHandler,
};
use crate::privilege::Privilege;

verus! {

/// The three corrective actions the pacman manager knows.
#[derive(Debug, Clone, PartialEq, Eq)]
pub enum PacmanModuleInternalApiCall {
    Install(String),
    Remove(String),
    Upgrade,
}

pub open spec fn spec_pacman_install_command(package: Seq<char>) -> Seq<char> {
    "pacman --noconfirm -S "@ + package
}

pub open spec fn spec_pacman_remove_command(package: Seq<char>) -> Seq<char> {
    "pacman --noconfirm -R "@ + package
}

pub open spec fn spec_pacman_upgrade_command() -> Seq<char> {
    "pacman -Syu"@
}

/// The probe that decides whether a package is installed:
/// `LC_ALL=en_US.UTF-8 pacman -Q -i <pkg>`.
pub open spec fn spec_pacman_status_probe(package: Seq<char>) -> Seq<char> {
    "LC_ALL=en_US.UTF-8 pacman -Q -i "@ + package
}

/// What the pacman query reports: installed exactly when it exited 0.
pub fn interpret_pacman_query(cmd_result: &CommandResult) -> (installed: bool)
    ensures
        installed == (cmd_result.return_code == 0),
{
    cmd_result.return_code == 0
}

/// The failure an assessment reports when pacman is missing.
pub fn pacman_unavailable_error() -> (e: Error)
    ensures
        e matches Error::FailedDryRunEvaluation(m) && m@ == "Pacman not working on this host"@,
{
    Error::FailedDryRunEvaluation(String::from_str("Pacman not working on this host"))
}

/// A concrete pacman action carrying the privilege it runs under.
#[derive(Debug, Clone)]
pub struct PacmanApiCall {
    pub api_call: PacmanModuleInternalApiCall,
    pub privilege: Privilege,
}

impl PacmanApiCall {
    pub fn from(api_call: PacmanModuleInternalApiCall, privilege: Privilege) -> (r: PacmanApiCall)
        ensures
            r == (PacmanApiCall { api_call, privilege }),
    {
        PacmanApiCall { api_call, privilege }
    }

    /// A field-wise copy, equal to `self`.
    pub fn duplicate(&self) -> (r: PacmanApiCall)
        ensures
            r == *self,
    {
        let api_call = match &self.api_call {
            PacmanModuleInternalApiCall::Install(p) => PacmanModuleInternalApiCall::Install(p.clone()),
            PacmanModuleInternalApiCall::Remove(p) => PacmanModuleInternalApiCall::Remove(p.clone()),
            PacmanModuleInternalApiCall::Upgrade => PacmanModuleInternalApiCall::Upgrade,
        };
        PacmanApiCall { api_call, ..*self }
    }

    /// The exact shell command of this action.
    pub open spec fn spec_command(&self) -> Seq<char> {
        match self.api_call {
            PacmanModuleInternalApiCall::Install(package) => spec_pacman_install_command(package@),
            PacmanModuleInternalApiCall::Remove(package) => spec_pacman_remove_command(package@),
            PacmanModuleInternalApiCall::Upgrade => spec_pacman_upgrade_command(),
        }
    }

    pub fn command(&self) -> (r: String)
        ensures
            r@ == self.spec_command(),
    {
        match &self.api_call {
            PacmanModuleInternalApiCall::Install(package) => {
                let mut c = String::from_str("pacman --noconfirm -S ");
                c.append(package.as_str());
                c
            },
            PacmanModuleInternalApiCall::Remove(package) => {
                let mut c = String::from_str("pacman --noconfirm -R ");
                c.append(package.as_str());
                c
            },
            PacmanModuleInternalApiCall::Upgrade => String::from_str("pacman -Syu"),
        }
    }

    /// Executes this action on the host and classifies its exit code.
    pub fn call<Handler: HostHandler>(&self, host_handler: &mut Handler) -> (r: Result<
        InternalApiCallOutcome,
        Error,
    >)
        ensures
            r matches Ok(_) ==> final(host_handler).executed() == old(host_handler).executed().push(
                record_of(self.spec_command(), self.privilege),
            ),
            spec_appended_only(
                old(host_handler).executed(),
                final(host_handler).executed(),
                |rec: (Seq<char>, Privilege)| rec == record_of(self.spec_command(), self.privilege),
            ),
            r matches Ok(o) ==> (o matches InternalApiCallOutcome::Success || o matches
                InternalApiCallOutcome::Failure(_)),
    {
        let ghost log0 = host_handler.executed();
        let ghost allowed = |rec: (Seq<char>, Privilege)|
            rec == record_of(self.spec_command(), self.privilege);
        let cmd = self.command();
        match host_handler.run_command(cmd.as_str(), &self.privilege) {
            Ok(cmd_result) => {
                proof {
                    lemma_appended_only_push(
                        log0,
                        record_of(self.spec_command(), self.privilege),
                        allowed,
                    );
                }
                Ok(InternalApiCallOutcome::of_command_result(&cmd_result))
            },
            Err(error_detail) => {
                proof {
                    lemma_appended_only_push(
                        log0,
                        record_of(self.spec_command(), self.privilege),
                        allowed,
                    );
                }
                Err(error_detail)
            },
        }
    }
}

/// The declarative state of one package under the pacman manager.
#[derive(Debug, Clone)]
pub struct PacmanBlockExpectedState {
    state: Option<PackageExpectedState>,
    package: Option<String>,
    upgrade: Option<bool>,
}

impl PacmanBlockExpectedState {
    pub closed spec fn spec_state(&self) -> Option<PackageExpectedState> {
        self.state
    }

    pub closed spec fn spec_package(&self) -> Option<String> {
        self.package
    }

    pub closed spec fn spec_upgrade(&self) -> Option<bool> {
        self.upgrade
    }

    /// A block assembled from its parsed fields, as a document declares
    /// them; validation happens at build or assessment time.
    pub fn from_parts(
        state: Option<PackageExpectedState>,
        package: Option<String>,
        upgrade: Option<bool>,
    ) -> (r: PacmanBlockExpectedState)
        ensures
            r.spec_state() == state,
            r.spec_package() == package,
            r.spec_upgrade() == upgrade,
    {
        PacmanBlockExpectedState { state, package, upgrade }
    }

    pub fn state(&self) -> (r: &Option<PackageExpectedState>)
        ensures
            r == self.spec_state(),
    {
        &self.state
    }

    pub fn package(&self) -> (r: &Option<String>)
        ensures
            r == self.spec_package(),
    {
        &self.package
    }

    pub fn upgrade(&self) -> (r: &Option<bool>)
        ensures
            r == self.spec_upgrade(),
    {
        &self.upgrade
    }

    /// A package block is coherent when `state` and `package` come together
    /// and, if both are absent, an upgrade is asked for.
    pub open spec fn spec_is_coherent(&self) -> bool {
        &&& (self.spec_state() is Some <==> self.spec_package() is Some)
        &&& (self.spec_state() is Some || self.spec_upgrade() == Some(true))
    }

    pub fn builder() -> (r: PacmanBlockExpectedState)
        ensures
            r.spec_state() is None,
            r.spec_package() is None,
            r.spec_upgrade() is None,
    {
        PacmanBlockExpectedState { state: None, package: None, upgrade: None }
    }

    pub fn with_system_upgrade(&mut self) -> (r: &mut PacmanBlockExpectedState)
        ensures
            r.spec_upgrade() == Some(true),
            r.spec_state() == old(self).spec_state(),
            r.spec_package() == old(self).spec_package(),
            *final(self) == *final(r),
    {
        self.upgrade = Some(true);
        self
    }

    pub fn with_package_state(
        &mut self,
        package_name: &str,
        package_state: PackageExpectedState,
    ) -> (r: &mut PacmanBlockExpectedState)
        ensures
            r.spec_state() == Some(package_state),
            r.spec_package() matches Some(p) && p@ == package_name@,
            r.spec_upgrade() == old(self).spec_upgrade(),
            *final(self) == *final(r),
    {
        self.package = Some(package_name.to_owned());
        self.state = Some(package_state);
        self
    }

    /// Validates the declared state: every incoherent combination is
    /// rejected with `IncoherentExpectedState`, exactly when incoherent.
    pub fn build(&self) -> (r: Result<PacmanBlockExpectedState, Error>)
        ensures
            r matches Ok(b) ==> b == *self && self.spec_is_coherent(),
            r matches Err(e) ==> !self.spec_is_coherent() && e matches Error::IncoherentExpectedState(_),
    {
        if !self.is_coherent() {
            return Err(
                Error::IncoherentExpectedState(
                    String::from_str(
                        "a package expected state needs both 'package' and 'state', or 'upgrade: true'",
                    ),
                ),
            );
        }
        Ok(self.duplicate())
    }

    pub fn is_coherent(&self) -> (r: bool)
        ensures
            r == self.spec_is_coherent(),
    {
        let paired = match (&self.state, &self.package) {
            (Some(_), Some(_)) => true,
            (None, None) => true,
            _ => false,
        };
        paired && (self.state.is_some() || matches!(self.upgrade, Some(true)))
    }

    /// A field-wise copy, equal to `self`.
    pub fn duplicate(&self) -> (r: PacmanBlockExpectedState)
        ensures
            r == *self,
    {
        let package = match &self.package {
            Some(p) => Some(p.clone()),
            None => None,
        };
        PacmanBlockExpectedState { state: self.state, package, upgrade: self.upgrade }
    }

    /// The probes a pacman assessment may send, all read-only.
    pub open spec fn spec_is_probe(&self, rec: (Seq<char>, Privilege)) -> bool {
        &&& rec.1 == Privilege::Usual
        &&& {
            ||| rec.0 == spec_availability_probe("pacman"@)
            ||| (self.spec_package() matches Some(p) && rec.0 == spec_pacman_status_probe(p@))
        }
    }

    /// Whether the observed installation state satisfies the declared one.
    pub open spec fn spec_goal_met(&self, installed: bool) -> bool {
        match self.spec_state() {
            Some(PackageExpectedState::Present) => installed,
            Some(PackageExpectedState::Absent) => !installed,
            None => true,
        }
    }

    /// The one remediation entry the declared `state` contributes.
    pub open spec fn spec_state_entry_ok(
        &self,
        installed: bool,
        privilege: Privilege,
        r: Remediation,
    ) -> bool {
        match self.spec_state() {
            Some(PackageExpectedState::Present) => if installed {
                r matches Remediation::AlreadyMet(m) && m@ == self.spec_package().unwrap()@
                    + " already present"@
            } else {
                r == Remediation::Pacman(
                    PacmanApiCall {
                        api_call: PacmanModuleInternalApiCall::Install(
                            self.spec_package().unwrap(),
                        ),
                        privilege,
                    },
                )
            },
            Some(PackageExpectedState::Absent) => if installed {
                r == Remediation::Pacman(
                    PacmanApiCall {
                        api_call: PacmanModuleInternalApiCall::Remove(self.spec_package().unwrap()),
                        privilege,
                    },
                )
            } else {
                r matches Remediation::AlreadyMet(m) && m@ == self.spec_package().unwrap()@
                    + " already absent"@
            },
            None => true,
        }
    }

    /// What a pacman assessment says, as a function of the declared state and
    /// the observed installation state.
    pub open spec fn spec_assessment_of(
        &self,
        privilege: Privilege,
        installed: bool,
        a: AttributeComplianceAssessment,
    ) -> bool {
        if self.spec_goal_met(installed) && self.spec_upgrade() != Some(true) {
            a == AttributeComplianceAssessment::Compliant
        } else {
            a matches AttributeComplianceAssessment::NonCompliant(rems)
                && self.spec_remediations_ok(privilege, installed, rems@)
        }
    }

    pub open spec fn spec_remediations_ok(
        &self,
        privilege: Privilege,
        installed: bool,
        rems: Seq<Remediation>,
    ) -> bool {
        let with_state: int = if self.spec_state() is Some {
            1
        } else {
            0
        };
        let with_upgrade: int = if self.spec_upgrade() == Some(true) {
            1
        } else {
            0
        };
        &&& rems.len() == with_state + with_upgrade
        &&& (self.spec_state() is Some ==> self.spec_state_entry_ok(
            installed,
            privilege,
            rems[0],
        ))
        &&& (self.spec_upgrade() == Some(true) ==> rems.last() == Remediation::Pacman(
            PacmanApiCall { api_call: PacmanModuleInternalApiCall::Upgrade, privilege },
        ))
    }

    /// The pure decision step of a pacman assessment.
    pub fn decide(&self, installed: bool, privilege: &Privilege) -> (a:
        AttributeComplianceAssessment)
        requires
            self.spec_is_coherent(),
        ensures
            self.spec_assessment_of(*privilege, installed, a),
    {
        let mut remediations: Vec<Remediation> = Vec::new();
        let mut all_matched = true;
        match (&self.state, &self.package) {
            (Some(state), Some(package)) => {
                match state {
                    PackageExpectedState::Present => {
                        if installed {
                            let mut m = package.clone();
                            m.append(" already present");
                            remediations.push(Remediation::AlreadyMet(m));
                        } else {
                            all_matched = false;
                            remediations.push(
                                Remediation::Pacman(
                                    PacmanApiCall {
                                        api_call: PacmanModuleInternalApiCall::Install(
                                            package.clone(),
                                        ),
                                        privilege: *privilege,
                                    },
                                ),
                            );
                        }
                    },
                    PackageExpectedState::Absent => {
                        if installed {
                            all_matched = false;
                            remediations.push(
                                Remediation::Pacman(
                                    PacmanApiCall {
                                        api_call: PacmanModuleInternalApiCall::Remove(
                                            package.clone(),
                                        ),
                                        privilege: *privilege,
                                    },
                                ),
                            );
                        } else {
                            let mut m = package.clone();
                            m.append(" already absent");
                            remediations.push(Remediation::AlreadyMet(m));
                        }
                    },
                }
            },
            _ => {},
        }
        if matches!(self.upgrade, Some(true)) {
            all_matched = false;
            remediations.push(
                Remediation::Pacman(
                    PacmanApiCall {
                        api_call: PacmanModuleInternalApiCall::Upgrade,
                        privilege: *privilege,
                    },
                ),
            );
        }
        if all_matched {
            AttributeComplianceAssessment::Compliant
        } else {
            AttributeComplianceAssessment::NonCompliant(remediations)
        }
    }

    /// Assesses the live host: verifies pacman is present, probes the
    /// package's installation state, and hands the observation to
    /// [`Self::decide`]. Read-only: only probe commands reach the host.
    pub fn assess_compliance<Handler: HostHandler>(
        &self,
        host_handler: &mut Handler,
        privilege: &Privilege,
    ) -> (r: Result<AttributeComplianceAssessment, Error>)
        ensures
            spec_appended_only(
                old(host_handler).executed(),
                final(host_handler).executed(),
                |rec: (Seq<char>, Privilege)| self.spec_is_probe(rec),
            ),
            r matches Ok(a) ==> exists|installed: bool|
                self.spec_assessment_of(*privilege, installed, a),
            !self.spec_is_coherent() ==> r matches Err(_),
    {
        let ghost log0 = host_handler.executed();
        let ghost allowed = |rec: (Seq<char>, Privilege)| self.spec_is_probe(rec);
        proof {
            lemma_appended_only_refl(log0, allowed);
        }
        let pacman_available = match is_this_command_available(
            host_handler,
            "pacman",
            &Privilege::Usual,
        ) {
            Ok(b) => b,
            Err(error_detail) => {
                proof {
                    lemma_appended_only_push(
                        log0,
                        record_of(spec_availability_probe("pacman"@), Privilege::Usual),
                        allowed,
                    );
                }
                return Err(error_detail);
            },
        };
        proof {
            lemma_appended_only_push(
                log0,
                record_of(spec_availability_probe("pacman"@), Privilege::Usual),
                allowed,
            );
        }
        if !pacman_available {
            return Err(pacman_unavailable_error());
        }
        if !self.is_coherent() {
            return Err(
                Error::IncoherentExpectedState(
                    String::from_str(
                        "a package expected state needs both 'package' and 'state', or 'upgrade: true'",
                    ),
                ),
            );
        }
        let mut installed = false;
        if let Some(package) = &self.package {
            let ghost log1 = host_handler.executed();
            match is_package_installed(host_handler, package) {
                Ok(b) => {
                    installed = b;
                },
                Err(error_detail) => {
                    proof {
                        lemma_appended_only_push(
                            log1,
                            record_of(
                                spec_pacman_status_probe(self.spec_package().unwrap()@),
                                Privilege::Usual,
                            ),
                            allowed,
                        );
                        lemma_appended_only_trans(log0, log1, host_handler.executed(), allowed);
                    }
                    return Err(error_detail);
                },
            }
            proof {
                lemma_appended_only_push(
                    log1,
                    record_of(
                        spec_pacman_status_probe(self.spec_package().unwrap()@),
                        Privilege::Usual,
                    ),
                    allowed,
                );
                lemma_appended_only_trans(log0, log1, host_handler.executed(), allowed);
            }
        }
        let assessment = self.decide(installed, privilege);
        Ok(assessment)
    }
}

/// Whether pacman reports the package installed: exit code 0 of the status
/// probe.
fn is_package_installed<Handler: HostHandler>(
    host_handler: &mut Handler,
    package: &String,
) -> (r: Result<bool, Error>)
    ensures
        final(host_handler).executed() == old(host_handler).executed().push(
            record_of(spec_pacman_status_probe(package@), Privilege::Usual),
        ),
{
    let mut probe = String::from_str("LC_ALL=en_US.UTF-8 pacman -Q -i ");
    probe.append(package.as_str());
    match host_handler.run_command(probe.as_str(), &Privilege::Usual) {
        Ok(cmd_result) => Ok(interpret_pacman_query(&cmd_result)),
        Err(error_detail) => Err(error_detail),
    }
}

/// The installation state the declared goal asks for.
pub open spec fn spec_pacman_goal_installed(block: &PacmanBlockExpectedState) -> bool {
    block.spec_state() == Some(PackageExpectedState::Present)
}

/// Convergence: once the host reports the installation state the declared
/// goal asks for, assessment is compliant; `upgrade: true` excepted, as it
/// is re-issued on every assessment.
pub proof fn lemma_pacman_convergence(block: PacmanBlockExpectedState, privilege: Privilege)
    requires
        block.spec_upgrade() != Some(true),
    ensures
        block.spec_assessment_of(
            privilege,
            spec_pacman_goal_installed(&block),
            AttributeComplianceAssessment::Compliant,
        ),
{
}

/// Read-only assessment: no probe of a pacman assessment is one of the
/// pacman remediation commands, so an assessment can never have executed
/// one.
pub proof fn lemma_pacman_probes_are_not_remediations(
    block: PacmanBlockExpectedState,
    call: PacmanApiCall,
    rec: (Seq<char>, Privilege),
)
    requires
        block.spec_is_probe(rec),
    ensures
        rec.0 != call.spec_command(),
{
    reveal_strlit("command -v ");
    reveal_strlit("LC_ALL=en_US.UTF-8 pacman -Q -i ");
    reveal_strlit("pacman --noconfirm -S ");
    reveal_strlit("pacman --noconfirm -R ");
    reveal_strlit("pacman -Syu");
    assert(rec.0[0] == 'c' || rec.0[0] == 'L');
    assert(call.spec_command()[0] == 'p');
}

} // verus!
