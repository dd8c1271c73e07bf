use vstd::prelude::*;

use crate::attribute::apt::PackageExpectedState;
use crate::attribute::Remediation;
use crate::command::CommandResult;
use crate::compliance::{AttributeComplianceAssessment, InternalApiCallOutcome};
use crate::error::Error;
use crate::host_handler::{
    is_this_command_available, lemma_appended_only_push, lemma_appended_only_refl,
    lemma_appended_only_trans, record_of, spec_appended_only, spec_availability_probe, HostHandler,
};
use crate::privilege::Privilege;

verus! {

/// Which of the two Red-Hat-flavored managers drives the host. DNF is
/// preferred over YUM when both are present.
#[derive(Debug, Clone, Copy, PartialEq, Eq, Structural)]
pub enum RedHatFlavoredPackageManager {
    Yum,
    Dnf,
}

impl RedHatFlavoredPackageManager {
    pub open spec fn spec_command_name(&self) -> Seq<char> {
        match self {
            RedHatFlavoredPackageManager::Dnf => "dnf"@,
            RedHatFlavoredPackageManager::Yum => "yum"@,
        }
    }

    pub fn command_name(&self) -> (r: &str)
        ensures
            r@ == self.spec_command_name(),
    {
        match self {
            RedHatFlavoredPackageManager::Dnf => "dnf",
            RedHatFlavoredPackageManager::Yum => "yum",
        }
    }
}

/// The three corrective actions the yum/dnf managers know.
#[derive(Debug, Clone, PartialEq, Eq)]
pub enum YumDnfModuleInternalApiCall {
    Install(String),
    Remove(String),
    Upgrade,
}

pub open spec fn spec_yumdnf_install_command(
    manager: RedHatFlavoredPackageManager,
    package: Seq<char>,
) -> Seq<char> {
    manager.spec_command_name() + " install -y "@ + package
}

pub open spec fn spec_yumdnf_remove_command(
    manager: RedHatFlavoredPackageManager,
    package: Seq<char>,
) -> Seq<char> {
    manager.spec_command_name() + " remove -y "@ + package
}

pub open spec fn spec_yumdnf_upgrade_command(manager: RedHatFlavoredPackageManager) -> Seq<char> {
    manager.spec_command_name() + " update -y --refresh"@
}

/// The probe that decides whether a package is installed:
/// `<mgr> list installed <pkg>`.
pub open spec fn spec_yumdnf_status_probe(
    manager: RedHatFlavoredPackageManager,
    package: Seq<char>,
) -> Seq<char> {
    manager.spec_command_name() + " list installed "@ + package
}

/// Which manager drives the host, from the two availability probes: DNF is
/// preferred over YUM; with neither, assessment cannot proceed.
pub fn select_manager(dnf_available: bool, yum_available: bool) -> (r: Result<
    RedHatFlavoredPackageManager,
    Error,
>)
    ensures
        dnf_available ==> r == Ok::<RedHatFlavoredPackageManager, Error>(
            RedHatFlavoredPackageManager::Dnf,
        ),
        !dnf_available && yum_available ==> r == Ok::<RedHatFlavoredPackageManager, Error>(
            RedHatFlavoredPackageManager::Yum,
        ),
        !dnf_available && !yum_available ==> (r matches Err(e) && e matches
            Error::FailedDryRunEvaluation(m) && m@ == "Neither YUM nor DNF work on this host"@),
{
    if dnf_available {
        Ok(RedHatFlavoredPackageManager::Dnf)
    } else if yum_available {
        Ok(RedHatFlavoredPackageManager::Yum)
    } else {
        Err(Error::FailedDryRunEvaluation(String::from_str(
            "Neither YUM nor DNF work on this host",
        )))
    }
}

/// What the `list installed` query reports: installed exactly when it
/// exited 0.
pub fn interpret_yumdnf_list(cmd_result: &CommandResult) -> (installed: bool)
    ensures
        installed == (cmd_result.return_code == 0),
{
    cmd_result.return_code == 0
}

/// A concrete yum/dnf action carrying the manager it goes through and the
/// privilege it runs under.
#[derive(Debug, Clone)]
pub struct YumDnfApiCall {
    pub api_call: YumDnfModuleInternalApiCall,
    pub package_manager: RedHatFlavoredPackageManager,
    pub privilege: Privilege,
}

impl YumDnfApiCall {
    pub fn from(
        api_call: YumDnfModuleInternalApiCall,
        package_manager: RedHatFlavoredPackageManager,
        privilege: Privilege,
    ) -> (r: YumDnfApiCall)
        ensures
            r == (YumDnfApiCall { api_call, package_manager, privilege }),
    {
        YumDnfApiCall { api_call, package_manager, privilege }
    }

    /// Human-readable description of the action.
    pub fn display(&self) -> (r: String)
        ensures
            match self.api_call {
                YumDnfModuleInternalApiCall::Install(package) => r@ == "Install - "@ + package@,
                YumDnfModuleInternalApiCall::Remove(package) => r@ == "Remove - "@ + package@,
                YumDnfModuleInternalApiCall::Upgrade => r@ == "Upgrade"@,
            },
    {
        match &self.api_call {
            YumDnfModuleInternalApiCall::Install(package) => {
                let mut d = String::from_str("Install - ");
                d.append(package.as_str());
                d
            },
            YumDnfModuleInternalApiCall::Remove(package) => {
                let mut d = String::from_str("Remove - ");
                d.append(package.as_str());
                d
            },
            YumDnfModuleInternalApiCall::Upgrade => String::from_str("Upgrade"),
        }
    }

    /// A field-wise copy, equal to `self`.
    pub fn duplicate(&self) -> (r: YumDnfApiCall)
        ensures
            r == *self,
    {
        let api_call = match &self.api_call {
            YumDnfModuleInternalApiCall::Install(p) => YumDnfModuleInternalApiCall::Install(p.clone()),
            YumDnfModuleInternalApiCall::Remove(p) => YumDnfModuleInternalApiCall::Remove(p.clone()),
            YumDnfModuleInternalApiCall::Upgrade => YumDnfModuleInternalApiCall::Upgrade,
        };
        YumDnfApiCall { api_call, ..*self }
    }

    /// The exact shell command of this action.
    pub open spec fn spec_command(&self) -> Seq<char> {
        match self.api_call {
            YumDnfModuleInternalApiCall::Install(package) => spec_yumdnf_install_command(
                self.package_manager,
                package@,
            ),
            YumDnfModuleInternalApiCall::Remove(package) => spec_yumdnf_remove_command(
                self.package_manager,
                package@,
            ),
            YumDnfModuleInternalApiCall::Upgrade => spec_yumdnf_upgrade_command(
                self.package_manager,
            ),
        }
    }

    pub fn command(&self) -> (r: String)
        ensures
            r@ == self.spec_command(),
    {
        let mut c = String::from_str(self.package_manager.command_name());
        match &self.api_call {
            YumDnfModuleInternalApiCall::Install(package) => {
                c.append(" install -y ");
                c.append(package.as_str());
            },
            YumDnfModuleInternalApiCall::Remove(package) => {
                c.append(" remove -y ");
                c.append(package.as_str());
            },
            YumDnfModuleInternalApiCall::Upgrade => {
                c.append(" update -y --refresh");
            },
        }
        c
    }

    /// Executes this action on the host and classifies its exit code.
    pub fn call<Handler: HostHandler>(&self, host_handler: &mut Handler) -> (r: Result<
        InternalApiCallOutcome,
        Error,
    >)
        ensures
            r matches Ok(_) ==> final(host_handler).executed() == old(host_handler).executed().push(
                record_of(self.spec_command(), self.privilege),
            ),
            spec_appended_only(
                old(host_handler).executed(),
                final(host_handler).executed(),
                |rec: (Seq<char>, Privilege)| rec == record_of(self.spec_command(), self.privilege),
            ),
            r matches Ok(o) ==> (o matches InternalApiCallOutcome::Success || o matches
                InternalApiCallOutcome::Failure(_)),
    {
        let ghost log0 = host_handler.executed();
        let ghost allowed = |rec: (Seq<char>, Privilege)|
            rec == record_of(self.spec_command(), self.privilege);
        let cmd = self.command();
        match host_handler.run_command(cmd.as_str(), &self.privilege) {
            Ok(cmd_result) => {
                proof {
                    lemma_appended_only_push(
                        log0,
                        record_of(self.spec_command(), self.privilege),
                        allowed,
                    );
                }
                Ok(InternalApiCallOutcome::of_command_result(&cmd_result))
            },
            Err(error_detail) => {
                proof {
                    lemma_appended_only_push(
                        log0,
                        record_of(self.spec_command(), self.privilege),
                        allowed,
                    );
                }
                Err(error_detail)
            },
        }
    }
}

/// The declarative state of one package under the yum/dnf managers.
#[derive(Debug, Clone)]
pub struct YumDnfBlockExpectedState {
    state: Option<PackageExpectedState>,
    package: Option<String>,
    upgrade: Option<bool>,
}

impl YumDnfBlockExpectedState {
    pub closed spec fn spec_state(&self) -> Option<PackageExpectedState> {
        self.state
    }

    pub closed spec fn spec_package(&self) -> Option<String> {
        self.package
    }

    pub closed spec fn spec_upgrade(&self) -> Option<bool> {
        self.upgrade
    }

    /// A block assembled from its parsed fields, as a document declares
    /// them; validation happens at build or assessment time.
    pub fn from_parts(
        state: Option<PackageExpectedState>,
        package: Option<String>,
        upgrade: Option<bool>,
    ) -> (r: YumDnfBlockExpectedState)
        ensures
            r.spec_state() == state,
            r.spec_package() == package,
            r.spec_upgrade() == upgrade,
    {
        YumDnfBlockExpectedState { state, package, upgrade }
    }

    pub fn state(&self) -> (r: &Option<PackageExpectedState>)
        ensures
            r == self.spec_state(),
    {
        &self.state
    }

    pub fn package(&self) -> (r: &Option<String>)
        ensures
            r == self.spec_package(),
    {
        &self.package
    }

    pub fn upgrade(&self) -> (r: &Option<bool>)
        ensures
            r == self.spec_upgrade(),
    {
        &self.upgrade
    }

    /// A package block is coherent when `state` and `package` come together
    /// and, if both are absent, an upgrade is asked for.
    pub open spec fn spec_is_coherent(&self) -> bool {
        &&& (self.spec_state() is Some <==> self.spec_package() is Some)
        &&& (self.spec_state() is Some || self.spec_upgrade() == Some(true))
    }

    pub fn builder() -> (r: YumDnfBlockExpectedState)
        ensures
            r.spec_state() is None,
            r.spec_package() is None,
            r.spec_upgrade() is None,
    {
        YumDnfBlockExpectedState { state: None, package: None, upgrade: None }
    }

    pub fn with_system_upgrade(&mut self) -> (r: &mut YumDnfBlockExpectedState)
        ensures
            r.spec_upgrade() == Some(true),
            r.spec_state() == old(self).spec_state(),
            r.spec_package() == old(self).spec_package(),
            *final(self) == *final(r),
    {
        self.upgrade = Some(true);
        self
    }

    pub fn with_package_state(
        &mut self,
        package_name: &str,
        package_state: PackageExpectedState,
    ) -> (r: &mut YumDnfBlockExpectedState)
        ensures
            r.spec_state() == Some(package_state),
            r.spec_package() matches Some(p) && p@ == package_name@,
            r.spec_upgrade() == old(self).spec_upgrade(),
            *final(self) == *final(r),
    {
        self.package = Some(package_name.to_owned());
        self.state = Some(package_state);
        self
    }

    /// Validates the declared state: every incoherent combination is
    /// rejected with `IncoherentExpectedState`, exactly when incoherent.
    pub fn build(&self) -> (r: Result<YumDnfBlockExpectedState, Error>)
        ensures
            r matches Ok(b) ==> b == *self && self.spec_is_coherent(),
            r matches Err(e) ==> !self.spec_is_coherent() && e matches Error::IncoherentExpectedState(_),
    {
        if !self.is_coherent() {
            return Err(
                Error::IncoherentExpectedState(
                    String::from_str(
                        "a package expected state needs both 'package' and 'state', or 'upgrade: true'",
                    ),
                ),
            );
        }
        Ok(self.duplicate())
    }

    pub fn is_coherent(&self) -> (r: bool)
        ensures
            r == self.spec_is_coherent(),
    {
        let paired = match (&self.state, &self.package) {
            (Some(_), Some(_)) => true,
            (None, None) => true,
            _ => false,
        };
        paired && (self.state.is_some() || matches!(self.upgrade, Some(true)))
    }

    /// A field-wise copy, equal to `self`.
    pub fn duplicate(&self) -> (r: YumDnfBlockExpectedState)
        ensures
            r == *self,
    {
        let package = match &self.package {
            Some(p) => Some(p.clone()),
            None => None,
        };
        YumDnfBlockExpectedState { state: self.state, package, upgrade: self.upgrade }
    }

    /// The probes a yum/dnf assessment may send, all read-only: manager
    /// availability under the usual identity, and the installation query
    /// under the attribute's privilege.
    pub open spec fn spec_is_probe(&self, privilege: Privilege, rec: (Seq<char>, Privilege)) -> bool {
        ||| (rec.1 == Privilege::Usual && (rec.0 == spec_availability_probe("dnf"@) || rec.0
            == spec_availability_probe("yum"@)))
        ||| (rec.1 == privilege && (self.spec_package() matches Some(p) && (rec.0
            == spec_yumdnf_status_probe(RedHatFlavoredPackageManager::Dnf, p@) || rec.0
            == spec_yumdnf_status_probe(RedHatFlavoredPackageManager::Yum, p@))))
    }

    /// Whether the observed installation state satisfies the declared one.
    pub open spec fn spec_goal_met(&self, installed: bool) -> bool {
        match self.spec_state() {
            Some(PackageExpectedState::Present) => installed,
            Some(PackageExpectedState::Absent) => !installed,
            None => true,
        }
    }

    /// The one remediation entry the declared `state` contributes.
    pub open spec fn spec_state_entry_ok(
        &self,
        manager: RedHatFlavoredPackageManager,
        installed: bool,
        privilege: Privilege,
        r: Remediation,
    ) -> bool {
        match self.spec_state() {
            Some(PackageExpectedState::Present) => if installed {
                r matches Remediation::AlreadyMet(m) && m@ == self.spec_package().unwrap()@
                    + " already present"@
            } else {
                r == Remediation::YumDnf(
                    YumDnfApiCall {
                        api_call: YumDnfModuleInternalApiCall::Install(
                            self.spec_package().unwrap(),
                        ),
                        package_manager: manager,
                        privilege,
                    },
                )
            },
            Some(PackageExpectedState::Absent) => if installed {
                r == Remediation::YumDnf(
                    YumDnfApiCall {
                        api_call: YumDnfModuleInternalApiCall::Remove(self.spec_package().unwrap()),
                        package_manager: manager,
                        privilege,
                    },
                )
            } else {
                r matches Remediation::AlreadyMet(m) && m@ == self.spec_package().unwrap()@
                    + " already absent"@
            },
            None => true,
        }
    }

    /// What a yum/dnf assessment says, as a function of the declared state,
    /// the manager found on the host, and the observed installation state.
    pub open spec fn spec_assessment_of(
        &self,
        privilege: Privilege,
        manager: RedHatFlavoredPackageManager,
        installed: bool,
        a: AttributeComplianceAssessment,
    ) -> bool {
        if self.spec_goal_met(installed) && self.spec_upgrade() != Some(true) {
            a == AttributeComplianceAssessment::Compliant
        } else {
            a matches AttributeComplianceAssessment::NonCompliant(rems)
                && self.spec_remediations_ok(privilege, manager, installed, rems@)
        }
    }

    pub open spec fn spec_remediations_ok(
        &self,
        privilege: Privilege,
        manager: RedHatFlavoredPackageManager,
        installed: bool,
        rems: Seq<Remediation>,
    ) -> bool {
        let with_state: int = if self.spec_state() is Some {
            1
        } else {
            0
        };
        let with_upgrade: int = if self.spec_upgrade() == Some(true) {
            1
        } else {
            0
        };
        &&& rems.len() == with_state + with_upgrade
        &&& (self.spec_state() is Some ==> self.spec_state_entry_ok(
            manager,
            installed,
            privilege,
            rems[0],
        ))
        &&& (self.spec_upgrade() == Some(true) ==> rems.last() == Remediation::YumDnf(
            YumDnfApiCall {
                api_call: YumDnfModuleInternalApiCall::Upgrade,
                package_manager: manager,
                privilege,
            },
        ))
    }

    /// The pure decision step of a yum/dnf assessment.
    pub fn decide(
        &self,
        manager: RedHatFlavoredPackageManager,
        installed: bool,
        privilege: &Privilege,
    ) -> (a: AttributeComplianceAssessment)
        requires
            self.spec_is_coherent(),
        ensures
            self.spec_assessment_of(*privilege, manager, installed, a),
    {
        let mut remediations: Vec<Remediation> = Vec::new();
        let mut all_matched = true;
        match (&self.state, &self.package) {
            (Some(state), Some(package)) => {
                match state {
                    PackageExpectedState::Present => {
                        if installed {
                            let mut m = package.clone();
                            m.append(" already present");
                            remediations.push(Remediation::AlreadyMet(m));
                        } else {
                            all_matched = false;
                            remediations.push(
                                Remediation::YumDnf(
                                    YumDnfApiCall {
                                        api_call: YumDnfModuleInternalApiCall::Install(
                                            package.clone(),
                                        ),
                                        package_manager: manager,
                                        privilege: *privilege,
                                    },
                                ),
                            );
                        }
                    },
                    PackageExpectedState::Absent => {
                        if installed {
                            all_matched = false;
                            remediations.push(
                                Remediation::YumDnf(
                                    YumDnfApiCall {
                                        api_call: YumDnfModuleInternalApiCall::Remove(
                                            package.clone(),
                                        ),
                                        package_manager: manager,
                                        privilege: *privilege,
                                    },
                                ),
                            );
                        } else {
                            let mut m = package.clone();
                            m.append(" already absent");
                            remediations.push(Remediation::AlreadyMet(m));
                        }
                    },
                }
            },
            _ => {},
        }
        if matches!(self.upgrade, Some(true)) {
            all_matched = false;
            remediations.push(
                Remediation::YumDnf(
                    YumDnfApiCall {
                        api_call: YumDnfModuleInternalApiCall::Upgrade,
                        package_manager: manager,
                        privilege: *privilege,
                    },
                ),
            );
        }
        if all_matched {
            AttributeComplianceAssessment::Compliant
        } else {
            AttributeComplianceAssessment::NonCompliant(remediations)
        }
    }

    /// Assesses the live host: finds the manager (DNF preferred over YUM),
    /// probes the package's installation state under the attribute's
    /// privilege, and hands both observations to [`Self::decide`].
    /// Read-only: only probe commands reach the host.
    pub fn assess_compliance<Handler: HostHandler>(
        &self,
        host_handler: &mut Handler,
        privilege: &Privilege,
    ) -> (r: Result<AttributeComplianceAssessment, Error>)
        ensures
            spec_appended_only(
                old(host_handler).executed(),
                final(host_handler).executed(),
                |rec: (Seq<char>, Privilege)| self.spec_is_probe(*privilege, rec),
            ),
            r matches Ok(a) ==> exists|manager: RedHatFlavoredPackageManager, installed: bool|
                self.spec_assessment_of(*privilege, manager, installed, a),
            !self.spec_is_coherent() ==> r matches Err(_),
    {
        let ghost log0 = host_handler.executed();
        let ghost allowed = |rec: (Seq<char>, Privilege)| self.spec_is_probe(*privilege, rec);
        proof {
            lemma_appended_only_refl(log0, allowed);
        }
        let dnf_available = match is_this_command_available(host_handler, "dnf", &Privilege::Usual) {
            Ok(b) => b,
            Err(error_detail) => {
                proof {
                    lemma_appended_only_push(
                        log0,
                        record_of(spec_availability_probe("dnf"@), Privilege::Usual),
                        allowed,
                    );
                }
                return Err(error_detail);
            },
        };
        proof {
            lemma_appended_only_push(
                log0,
                record_of(spec_availability_probe("dnf"@), Privilege::Usual),
                allowed,
            );
        }
        let manager: RedHatFlavoredPackageManager = if dnf_available {
            match select_manager(true, false) {
                Ok(m) => m,
                Err(error_detail) => {
                    return Err(error_detail);
                },
            }
        } else {
            let ghost log1 = host_handler.executed();
            let yum_available = match is_this_command_available(
                host_handler,
                "yum",
                &Privilege::Usual,
            ) {
                Ok(b) => b,
                Err(error_detail) => {
                    proof {
                        lemma_appended_only_push(
                            log1,
                            record_of(spec_availability_probe("yum"@), Privilege::Usual),
                            allowed,
                        );
                        lemma_appended_only_trans(log0, log1, host_handler.executed(), allowed);
                    }
                    return Err(error_detail);
                },
            };
            proof {
                lemma_appended_only_push(
                    log1,
                    record_of(spec_availability_probe("yum"@), Privilege::Usual),
                    allowed,
                );
                lemma_appended_only_trans(log0, log1, host_handler.executed(), allowed);
            }
            match select_manager(false, yum_available) {
                Ok(m) => m,
                Err(error_detail) => {
                    return Err(error_detail);
                },
            }
        };
        if !self.is_coherent() {
            return Err(
                Error::IncoherentExpectedState(
                    String::from_str(
                        "a package expected state needs both 'package' and 'state', or 'upgrade: true'",
                    ),
                ),
            );
        }
        let mut installed = false;
        if let Some(package) = &self.package {
            let ghost log2 = host_handler.executed();
            match is_package_installed(host_handler, &manager, package, privilege) {
                Ok(b) => {
                    installed = b;
                },
                Err(error_detail) => {
                    proof {
                        lemma_appended_only_push(
                            log2,
                            record_of(
                                spec_yumdnf_status_probe(manager, self.spec_package().unwrap()@),
                                *privilege,
                            ),
                            allowed,
                        );
                        lemma_appended_only_trans(log0, log2, host_handler.executed(), allowed);
                    }
                    return Err(error_detail);
                },
            }
            proof {
                lemma_appended_only_push(
                    log2,
                    record_of(
                        spec_yumdnf_status_probe(manager, self.spec_package().unwrap()@),
                        *privilege,
                    ),
                    allowed,
                );
                lemma_appended_only_trans(log0, log2, host_handler.executed(), allowed);
            }
        }
        let assessment = self.decide(manager, installed, privilege);
        Ok(assessment)
    }
}

/// Whether the manager reports the package installed: exit code 0 of
/// `<mgr> list installed <pkg>`.
fn is_package_installed<Handler: HostHandler>(
    host_handler: &mut Handler,
    manager: &RedHatFlavoredPackageManager,
    package: &String,
    privilege: &Privilege,
) -> (r: Result<bool, Error>)
    ensures
        final(host_handler).executed() == old(host_handler).executed().push(
            record_of(spec_yumdnf_status_probe(*manager, package@), *privilege),
        ),
{
    let mut probe = String::from_str(manager.command_name());
    probe.append(" list installed ");
    probe.append(package.as_str());
    match host_handler.run_command(probe.as_str(), privilege) {
        Ok(cmd_result) => Ok(interpret_yumdnf_list(&cmd_result)),
        Err(error_detail) => Err(error_detail),
    }
}

/// The installation state the declared goal asks for.
pub open spec fn spec_yumdnf_goal_installed(block: &YumDnfBlockExpectedState) -> bool {
    block.spec_state() == Some(PackageExpectedState::Present)
}

/// Convergence: once the host reports the installation state the declared
/// goal asks for, assessment is compliant under either manager;
/// `upgrade: true` excepted, as it is re-issued on every assessment.
pub proof fn lemma_yumdnf_convergence(
    block: YumDnfBlockExpectedState,
    privilege: Privilege,
    manager: RedHatFlavoredPackageManager,
)
    requires
        block.spec_upgrade() != Some(true),
    ensures
        block.spec_assessment_of(
            privilege,
            manager,
            spec_yumdnf_goal_installed(&block),
            AttributeComplianceAssessment::Compliant,
        ),
{
}

/// Read-only assessment: no probe of a yum/dnf assessment is one of its
/// remediation commands, so an assessment can never have executed one.
/// Availability probes differ in their first character; the installation
/// query differs from every remediation right after the manager's name.
pub proof fn lemma_yumdnf_probes_are_not_remediations(
    block: YumDnfBlockExpectedState,
    call: YumDnfApiCall,
    privilege: Privilege,
    rec: (Seq<char>, Privilege),
)
    requires
        block.spec_is_probe(privilege, rec),
    ensures
        rec.0 != call.spec_command(),
{
    reveal_strlit("command -v ");
    reveal_strlit("dnf");
    reveal_strlit("yum");
    reveal_strlit(" list installed ");
    reveal_strlit(" install -y ");
    reveal_strlit(" remove -y ");
    reveal_strlit(" update -y --refresh");
    let cmd = call.spec_command();
    assert(cmd[0] == 'd' || cmd[0] == 'y');
    if rec.1 == Privilege::Usual && (rec.0 == spec_availability_probe("dnf"@) || rec.0
        == spec_availability_probe("yum"@)) {
        assert(rec.0[0] == 'c');
    } else {
        assert(rec.0[3] == ' ' && rec.0[4] == 'l');
        assert(cmd[3] == ' ' && (cmd[4] == 'i' || cmd[4] == 'r' || cmd[4] == 'u'));
    }
}

} // verus!
