use vstd::prelude::*;

use crate::attribute::Remediation;
use crate::command::CommandResult;
use crate::compliance::{AttributeComplianceAssessment, InternalApiCallOutcome};
use crate::error::Error;
use crate::host_handler::{
    is_this_command_available, lemma_appended_only_push, lemma_appended_only_refl,
    lemma_appended_only_trans, record_of, spec_appended_only, spec_availability_probe, HostHandler,
};
use crate::privilege::Privilege;
use crate::util::{spec_contains_seq, string_contains};

verus! {

/// Whether a package is wanted on the host or not.
#[derive(Debug, Clone, Copy, PartialEq, Eq, Structural)]
pub enum PackageExpectedState {
    Present,
    Absent,
}

/// The three corrective actions the apt manager knows.
#[derive(Debug, Clone, PartialEq, Eq)]
pub enum AptModuleInternalApiCall {
    Install(String),
    Remove(String),
    Upgrade,
}

/// `apt-get update`, run before an installation.
pub open spec fn spec_apt_update_command() -> Seq<char> {
    "apt-get update"@
}

pub open spec fn spec_apt_install_command(package: Seq<char>) -> Seq<char> {
    "DEBIAN_FRONTEND=noninteractive apt-get install -y "@ + package
}

pub open spec fn spec_apt_remove_command(package: Seq<char>) -> Seq<char> {
    "DEBIAN_FRONTEND=noninteractive apt-get remove --purge -y "@ + package
}

pub open spec fn spec_apt_upgrade_command() -> Seq<char> {
    "apt-get update && DEBIAN_FRONTEND=noninteractive apt-get upgrade -y"@
}

/// The probe that decides whether a package is installed: `dpkg -s <pkg>`.
pub open spec fn spec_dpkg_status_probe(package: Seq<char>) -> Seq<char> {
    "dpkg -s "@ + package
}

/// What `dpkg -s` reports: installed exactly when the query exited 0 and
/// its output carries a `Status: install` line (a known but removed
/// package exits 0 with `Status: deinstall`).
pub fn interpret_dpkg_status(cmd_result: &CommandResult) -> (installed: bool)
    ensures
        installed == (cmd_result.return_code == 0 && spec_contains_seq(
            cmd_result.stdout@,
            "Status: install"@,
        )),
{
    cmd_result.return_code == 0 && string_contains(cmd_result.stdout.as_str(), "Status: install")
}

/// The failure an assessment reports when the apt toolchain is missing.
pub fn apt_unavailable_error() -> (e: Error)
    ensures
        e matches Error::FailedDryRunEvaluation(m) && m@ == "APT not working on this host"@,
{
    Error::FailedDryRunEvaluation(String::from_str("APT not working on this host"))
}

/// A concrete apt action carrying the privilege it runs under.
#[derive(Debug, Clone)]
pub struct AptApiCall {
    pub api_call: AptModuleInternalApiCall,
    pub privilege: Privilege,
}

impl AptApiCall {
    pub fn from(api_call: AptModuleInternalApiCall, privilege: Privilege) -> (r: AptApiCall)
        ensures
            r == (AptApiCall { api_call, privilege }),
    {
        AptApiCall { api_call, privilege }
    }

    /// A field-wise copy, equal to `self`.
    pub fn duplicate(&self) -> (r: AptApiCall)
        ensures
            r == *self,
    {
        let api_call = match &self.api_call {
            AptModuleInternalApiCall::Install(p) => AptModuleInternalApiCall::Install(p.clone()),
            AptModuleInternalApiCall::Remove(p) => AptModuleInternalApiCall::Remove(p.clone()),
            AptModuleInternalApiCall::Upgrade => AptModuleInternalApiCall::Upgrade,
        };
        AptApiCall { api_call, ..*self }
    }

    /// The exact shell command of this action.
    pub open spec fn spec_command(&self) -> Seq<char> {
        match self.api_call {
            AptModuleInternalApiCall::Install(package) => spec_apt_install_command(package@),
            AptModuleInternalApiCall::Remove(package) => spec_apt_remove_command(package@),
            AptModuleInternalApiCall::Upgrade => spec_apt_upgrade_command(),
        }
    }

    /// The raw commands this action sends, in order: an installation is
    /// preceded by `apt-get update`.
    pub open spec fn spec_commands_sent(&self) -> Seq<(Seq<char>, Privilege)> {
        match self.api_call {
            AptModuleInternalApiCall::Install(_) => seq![
                record_of(spec_apt_update_command(), self.privilege),
                record_of(self.spec_command(), self.privilege),
            ],
            _ => seq![record_of(self.spec_command(), self.privilege)],
        }
    }

    pub fn command(&self) -> (r: String)
        ensures
            r@ == self.spec_command(),
    {
        match &self.api_call {
            AptModuleInternalApiCall::Install(package) => {
                let mut c = String::from_str("DEBIAN_FRONTEND=noninteractive apt-get install -y ");
                c.append(package.as_str());
                c
            },
            AptModuleInternalApiCall::Remove(package) => {
                let mut c = String::from_str(
                    "DEBIAN_FRONTEND=noninteractive apt-get remove --purge -y ",
                );
                c.append(package.as_str());
                c
            },
            AptModuleInternalApiCall::Upgrade => String::from_str(
                "apt-get update && DEBIAN_FRONTEND=noninteractive apt-get upgrade -y",
            ),
        }
    }

    /// Executes this action on the host: sends its command(s) and classifies
    /// the exit code of the main command.
    pub fn call<Handler: HostHandler>(&self, host_handler: &mut Handler) -> (r: Result<
        InternalApiCallOutcome,
        Error,
    >)
        ensures
            r matches Ok(_) ==> final(host_handler).executed() == old(host_handler).executed()
                + self.spec_commands_sent(),
            spec_appended_only(
                old(host_handler).executed(),
                final(host_handler).executed(),
                |rec: (Seq<char>, Privilege)| self.spec_commands_sent().contains(rec),
            ),
            r matches Ok(o) ==> (o matches InternalApiCallOutcome::Success || o matches
                InternalApiCallOutcome::Failure(_)),
    {
        let ghost log0 = host_handler.executed();
        let ghost allowed = |rec: (Seq<char>, Privilege)| self.spec_commands_sent().contains(rec);
        proof {
            lemma_appended_only_refl(log0, allowed);
        }
        if let AptModuleInternalApiCall::Install(_) = &self.api_call {
            let ghost before = host_handler.executed();
            match host_handler.run_command("apt-get update", &self.privilege) {
                Ok(_) => {},
                Err(error_detail) => {
                    proof {
                        assert(self.spec_commands_sent()[0] == record_of(
                            spec_apt_update_command(),
                            self.privilege,
                        ));
                        assert(allowed(record_of(spec_apt_update_command(), self.privilege)));
                        lemma_appended_only_push(
                            before,
                            record_of(spec_apt_update_command(), self.privilege),
                            allowed,
                        );
                    }
                    return Err(error_detail);
                },
            }
            proof {
                assert(self.spec_commands_sent()[0] == record_of(
                    spec_apt_update_command(),
                    self.privilege,
                ));
                assert(allowed(record_of(spec_apt_update_command(), self.privilege)));
                lemma_appended_only_push(
                    before,
                    record_of(spec_apt_update_command(), self.privilege),
                    allowed,
                );
            }
        }
        let ghost mid = host_handler.executed();
        let cmd = self.command();
        match host_handler.run_command(cmd.as_str(), &self.privilege) {
            Ok(cmd_result) => {
                proof {
                    let cmds = self.spec_commands_sent();
                    assert(cmds[cmds.len() - 1] == record_of(self.spec_command(), self.privilege));
                    assert(allowed(record_of(self.spec_command(), self.privilege)));
                    lemma_appended_only_push(
                        mid,
                        record_of(self.spec_command(), self.privilege),
                        allowed,
                    );
                    lemma_appended_only_trans(log0, mid, host_handler.executed(), allowed);
                    assert(host_handler.executed() =~= log0 + self.spec_commands_sent());
                }
                Ok(InternalApiCallOutcome::of_command_result(&cmd_result))
            },
            Err(error_detail) => {
                proof {
                    let cmds = self.spec_commands_sent();
                    assert(cmds[cmds.len() - 1] == record_of(self.spec_command(), self.privilege));
                    assert(allowed(record_of(self.spec_command(), self.privilege)));
                    lemma_appended_only_push(
                        mid,
                        record_of(self.spec_command(), self.privilege),
                        allowed,
                    );
                    lemma_appended_only_trans(log0, mid, host_handler.executed(), allowed);
                }
                Err(error_detail)
            },
        }
    }
}

/// The declarative state of one package under the apt manager: either a
/// wanted presence state for a named package, an upgrade of the whole
/// system, or both.
#[derive(Debug, Clone)]
pub struct AptBlockExpectedState {
    state: Option<PackageExpectedState>,
    package: Option<String>,
    upgrade: Option<bool>,
}

impl AptBlockExpectedState {
    pub closed spec fn spec_state(&self) -> Option<PackageExpectedState> {
        self.state
    }

    pub closed spec fn spec_package(&self) -> Option<String> {
        self.package
    }

    pub closed spec fn spec_upgrade(&self) -> Option<bool> {
        self.upgrade
    }

    /// A block assembled from its parsed fields, as a document declares
    /// them; validation happens at build or assessment time.
    pub fn from_parts(
        state: Option<PackageExpectedState>,
        package: Option<String>,
        upgrade: Option<bool>,
    ) -> (r: AptBlockExpectedState)
        ensures
            r.spec_state() == state,
            r.spec_package() == package,
            r.spec_upgrade() == upgrade,
    {
        AptBlockExpectedState { state, package, upgrade }
    }

    pub fn state(&self) -> (r: &Option<PackageExpectedState>)
        ensures
            r == self.spec_state(),
    {
        &self.state
    }

    pub fn package(&self) -> (r: &Option<String>)
        ensures
            r == self.spec_package(),
    {
        &self.package
    }

    pub fn upgrade(&self) -> (r: &Option<bool>)
        ensures
            r == self.spec_upgrade(),
    {
        &self.upgrade
    }

    /// A package block is coherent when `state` and `package` come together
    /// and, if both are absent, an upgrade is asked for.
    pub open spec fn spec_is_coherent(&self) -> bool {
        &&& (self.spec_state() is Some <==> self.spec_package() is Some)
        &&& (self.spec_state() is Some || self.spec_upgrade() == Some(true))
    }

    pub fn builder() -> (r: AptBlockExpectedState)
        ensures
            r.spec_state() is None,
            r.spec_package() is None,
            r.spec_upgrade() is None,
    {
        AptBlockExpectedState { state: None, package: None, upgrade: None }
    }

    pub fn with_system_upgrade(&mut self) -> (r: &mut AptBlockExpectedState)
        ensures
            r.spec_upgrade() == Some(true),
            r.spec_state() == old(self).spec_state(),
            r.spec_package() == old(self).spec_package(),
            *final(self) == *final(r),
    {
        self.upgrade = Some(true);
        self
    }

    pub fn with_package_state(
        &mut self,
        package_name: &str,
        package_state: PackageExpectedState,
    ) -> (r: &mut AptBlockExpectedState)
        ensures
            r.spec_state() == Some(package_state),
            r.spec_package() matches Some(p) && p@ == package_name@,
            r.spec_upgrade() == old(self).spec_upgrade(),
            *final(self) == *final(r),
    {
        self.package = Some(package_name.to_owned());
        self.state = Some(package_state);
        self
    }

    /// Validates the declared state: every incoherent combination is
    /// rejected with `IncoherentExpectedState`, exactly when incoherent.
    pub fn build(&self) -> (r: Result<AptBlockExpectedState, Error>)
        ensures
            r matches Ok(b) ==> b == *self && self.spec_is_coherent(),
            r matches Err(e) ==> !self.spec_is_coherent() && e matches Error::IncoherentExpectedState(_),
    {
        if !self.is_coherent() {
            return Err(
                Error::IncoherentExpectedState(
                    String::from_str(
                        "a package expected state needs both 'package' and 'state', or 'upgrade: true'",
                    ),
                ),
            );
        }
        Ok(self.duplicate())
    }

    pub fn is_coherent(&self) -> (r: bool)
        ensures
            r == self.spec_is_coherent(),
    {
        let paired = match (&self.state, &self.package) {
            (Some(_), Some(_)) => true,
            (None, None) => true,
            _ => false,
        };
        paired && (self.state.is_some() || matches!(self.upgrade, Some(true)))
    }

    /// A field-wise copy, equal to `self`.
    pub fn duplicate(&self) -> (r: AptBlockExpectedState)
        ensures
            r == *self,
    {
        let package = match &self.package {
            Some(p) => Some(p.clone()),
            None => None,
        };
        AptBlockExpectedState { state: self.state, package, upgrade: self.upgrade }
    }

    /// The probes an apt assessment may send, all read-only: availability of
    /// `apt-get` and `dpkg`, and the `dpkg -s` status query of the declared
    /// package.
    pub open spec fn spec_is_probe(&self, rec: (Seq<char>, Privilege)) -> bool {
        &&& rec.1 == Privilege::Usual
        &&& {
            ||| rec.0 == spec_availability_probe("apt-get"@)
            ||| rec.0 == spec_availability_probe("dpkg"@)
            ||| (self.spec_package() matches Some(p) && rec.0 == spec_dpkg_status_probe(p@))
        }
    }

    /// Whether the observed installation state satisfies the declared one.
    pub open spec fn spec_goal_met(&self, installed: bool) -> bool {
        match self.spec_state() {
            Some(PackageExpectedState::Present) => installed,
            Some(PackageExpectedState::Absent) => !installed,
            None => true,
        }
    }

    /// The one remediation entry the declared `state` contributes, given the
    /// observed installation state.
    pub open spec fn spec_state_entry_ok(
        &self,
        installed: bool,
        privilege: Privilege,
        r: Remediation,
    ) -> bool {
        match self.spec_state() {
            Some(PackageExpectedState::Present) => if installed {
                r matches Remediation::AlreadyMet(m) && m@ == self.spec_package().unwrap()@
                    + " already present"@
            } else {
                r == Remediation::Apt(
                    AptApiCall {
                        api_call: AptModuleInternalApiCall::Install(self.spec_package().unwrap()),
                        privilege,
                    },
                )
            },
            Some(PackageExpectedState::Absent) => if installed {
                r == Remediation::Apt(
                    AptApiCall {
                        api_call: AptModuleInternalApiCall::Remove(self.spec_package().unwrap()),
                        privilege,
                    },
                )
            } else {
                r matches Remediation::AlreadyMet(m) && m@ == self.spec_package().unwrap()@
                    + " already absent"@
            },
            None => true,
        }
    }

    /// What an apt assessment says, as a function of the declared state and
    /// the observed installation state: `Compliant` exactly when every
    /// sub-goal is met and no upgrade is asked for; otherwise the ordered
    /// remediation list, state sub-goal first, upgrade last.
    pub open spec fn spec_assessment_of(
        &self,
        privilege: Privilege,
        installed: bool,
        a: AttributeComplianceAssessment,
    ) -> bool {
        if self.spec_goal_met(installed) && self.spec_upgrade() != Some(true) {
            a == AttributeComplianceAssessment::Compliant
        } else {
            a matches AttributeComplianceAssessment::NonCompliant(rems)
                && self.spec_remediations_ok(privilege, installed, rems@)
        }
    }

    pub open spec fn spec_remediations_ok(
        &self,
        privilege: Privilege,
        installed: bool,
        rems: Seq<Remediation>,
    ) -> bool {
        let with_state: int = if self.spec_state() is Some {
            1
        } else {
            0
        };
        let with_upgrade: int = if self.spec_upgrade() == Some(true) {
            1
        } else {
            0
        };
        &&& rems.len() == with_state + with_upgrade
        &&& (self.spec_state() is Some ==> self.spec_state_entry_ok(
            installed,
            privilege,
            rems[0],
        ))
        &&& (self.spec_upgrade() == Some(true) ==> rems.last() == Remediation::Apt(
            AptApiCall { api_call: AptModuleInternalApiCall::Upgrade, privilege },
        ))
    }

    /// The pure decision step of an apt assessment: given the observed
    /// installation state, produce the assessment. Everything the probes
    /// found goes in through `installed`; no host is consulted.
    pub fn decide(&self, installed: bool, privilege: &Privilege) -> (a:
        AttributeComplianceAssessment)
        requires
            self.spec_is_coherent(),
        ensures
            self.spec_assessment_of(*privilege, installed, a),
    {
        let mut remediations: Vec<Remediation> = Vec::new();
        let mut all_matched = true;
        match (&self.state, &self.package) {
            (Some(state), Some(package)) => {
                match state {
                    PackageExpectedState::Present => {
                        if installed {
                            let mut m = package.clone();
                            m.append(" already present");
                            remediations.push(Remediation::AlreadyMet(m));
                        } else {
                            all_matched = false;
                            remediations.push(
                                Remediation::Apt(
                                    AptApiCall {
                                        api_call: AptModuleInternalApiCall::Install(
                                            package.clone(),
                                        ),
                                        privilege: *privilege,
                                    },
                                ),
                            );
                        }
                    },
                    PackageExpectedState::Absent => {
                        if installed {
                            all_matched = false;
                            remediations.push(
                                Remediation::Apt(
                                    AptApiCall {
                                        api_call: AptModuleInternalApiCall::Remove(package.clone()),
                                        privilege: *privilege,
                                    },
                                ),
                            );
                        } else {
                            let mut m = package.clone();
                            m.append(" already absent");
                            remediations.push(Remediation::AlreadyMet(m));
                        }
                    },
                }
            },
            _ => {},
        }
        if matches!(self.upgrade, Some(true)) {
            all_matched = false;
            remediations.push(
                Remediation::Apt(
                    AptApiCall {
                        api_call: AptModuleInternalApiCall::Upgrade,
                        privilege: *privilege,
                    },
                ),
            );
        }
        if all_matched {
            AttributeComplianceAssessment::Compliant
        } else {
            AttributeComplianceAssessment::NonCompliant(remediations)
        }
    }

    /// Assesses the live host: verifies the apt toolchain is present, probes
    /// the package's installation state, and hands the observation to
    /// [`Self::decide`]. Read-only: only probe commands reach the host.
    pub fn assess_compliance<Handler: HostHandler>(
        &self,
        host_handler: &mut Handler,
        privilege: &Privilege,
    ) -> (r: Result<AttributeComplianceAssessment, Error>)
        ensures
            spec_appended_only(
                old(host_handler).executed(),
                final(host_handler).executed(),
                |rec: (Seq<char>, Privilege)| self.spec_is_probe(rec),
            ),
            r matches Ok(a) ==> exists|installed: bool|
                self.spec_assessment_of(*privilege, installed, a),
            !self.spec_is_coherent() ==> r matches Err(_),
    {
        let ghost log0 = host_handler.executed();
        let ghost allowed = |rec: (Seq<char>, Privilege)| self.spec_is_probe(rec);
        proof {
            lemma_appended_only_refl(log0, allowed);
        }
        let apt_available = match is_this_command_available(
            host_handler,
            "apt-get",
            &Privilege::Usual,
        ) {
            Ok(b) => b,
            Err(error_detail) => {
                proof {
                    lemma_appended_only_push(
                        log0,
                        record_of(spec_availability_probe("apt-get"@), Privilege::Usual),
                        allowed,
                    );
                }
                return Err(error_detail);
            },
        };
        proof {
            lemma_appended_only_push(
                log0,
                record_of(spec_availability_probe("apt-get"@), Privilege::Usual),
                allowed,
            );
        }
        if !apt_available {
            return Err(apt_unavailable_error());
        }
        let ghost log1 = host_handler.executed();
        let dpkg_available = match is_this_command_available(
            host_handler,
            "dpkg",
            &Privilege::Usual,
        ) {
            Ok(b) => b,
            Err(error_detail) => {
                proof {
                    lemma_appended_only_push(
                        log1,
                        record_of(spec_availability_probe("dpkg"@), Privilege::Usual),
                        allowed,
                    );
                    lemma_appended_only_trans(log0, log1, host_handler.executed(), allowed);
                }
                return Err(error_detail);
            },
        };
        proof {
            lemma_appended_only_push(
                log1,
                record_of(spec_availability_probe("dpkg"@), Privilege::Usual),
                allowed,
            );
            lemma_appended_only_trans(log0, log1, host_handler.executed(), allowed);
        }
        if !dpkg_available {
            return Err(apt_unavailable_error());
        }
        if !self.is_coherent() {
            return Err(
                Error::IncoherentExpectedState(
                    String::from_str(
                        "a package expected state needs both 'package' and 'state', or 'upgrade: true'",
                    ),
                ),
            );
        }
        let mut installed = false;
        if let Some(package) = &self.package {
            let ghost log2 = host_handler.executed();
            match is_package_installed(host_handler, package) {
                Ok(b) => {
                    installed = b;
                },
                Err(error_detail) => {
                    proof {
                        lemma_appended_only_push(
                            log2,
                            record_of(
                                spec_dpkg_status_probe(self.spec_package().unwrap()@),
                                Privilege::Usual,
                            ),
                            allowed,
                        );
                        lemma_appended_only_trans(log0, log2, host_handler.executed(), allowed);
                    }
                    return Err(error_detail);
                },
            }
            proof {
                lemma_appended_only_push(
                    log2,
                    record_of(
                        spec_dpkg_status_probe(self.spec_package().unwrap()@),
                        Privilege::Usual,
                    ),
                    allowed,
                );
                lemma_appended_only_trans(log0, log2, host_handler.executed(), allowed);
            }
        }
        let assessment = self.decide(installed, privilege);
        Ok(assessment)
    }
}

/// Whether dpkg reports the package installed: exit code 0 and a
/// `Status: install` line in the stdout of `dpkg -s <pkg>`.
fn is_package_installed<Handler: HostHandler>(
    host_handler: &mut Handler,
    package: &String,
) -> (r: Result<bool, Error>)
    ensures
        final(host_handler).executed() == old(host_handler).executed().push(
            record_of(spec_dpkg_status_probe(package@), Privilege::Usual),
        ),
{
    let mut probe = String::from_str("dpkg -s ");
    probe.append(package.as_str());
    match host_handler.run_command(probe.as_str(), &Privilege::Usual) {
        Ok(cmd_result) => Ok(interpret_dpkg_status(&cmd_result)),
        Err(error_detail) => Err(error_detail),
    }
}

/// The installation state the declared goal asks for: the state an
/// effective remediation leaves the host in.
pub open spec fn spec_apt_goal_installed(block: &AptBlockExpectedState) -> bool {
    block.spec_state() == Some(PackageExpectedState::Present)
}

/// Convergence: once the host reports the installation state the declared
/// goal asks for, assessment is compliant. An upgrade request is the one
/// exception: it is re-issued on every assessment, so a block with
/// `upgrade: true` never assesses compliant.
pub proof fn lemma_apt_convergence(block: AptBlockExpectedState, privilege: Privilege)
    requires
        block.spec_upgrade() != Some(true),
    ensures
        block.spec_assessment_of(
            privilege,
            spec_apt_goal_installed(&block),
            AttributeComplianceAssessment::Compliant,
        ),
{
}

/// Read-only assessment: no probe of an apt assessment is one of the apt
/// remediation commands, so an assessment can never have executed one.
pub proof fn lemma_apt_probes_are_not_remediations(
    block: AptBlockExpectedState,
    call: AptApiCall,
    rec: (Seq<char>, Privilege),
)
    requires
        block.spec_is_probe(rec),
    ensures
        rec.0 != call.spec_command(),
        rec.0 != spec_apt_update_command(),
{
    reveal_strlit("command -v ");
    reveal_strlit("dpkg -s ");
    reveal_strlit("apt-get update");
    reveal_strlit("DEBIAN_FRONTEND=noninteractive apt-get install -y ");
    reveal_strlit("DEBIAN_FRONTEND=noninteractive apt-get remove --purge -y ");
    reveal_strlit("apt-get update && DEBIAN_FRONTEND=noninteractive apt-get upgrade -y");
    assert(rec.0[0] == 'c' || rec.0[0] == 'd');
    assert(call.spec_command()[0] == 'D' || call.spec_command()[0] == 'a');
    assert(spec_apt_update_command()[0] == 'a');
}

} // verus!
