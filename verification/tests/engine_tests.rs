use std::collections::HashMap;

use regent_sdk::attribute::apt::{AptBlockExpectedState, PackageExpectedState};
use regent_sdk::attribute::lineinfile::{
    LineExpectedPosition, LineExpectedState, LineInFileBlockExpectedState,
};
use regent_sdk::attribute::pacman::PacmanBlockExpectedState;
use regent_sdk::attribute::service::{
    ServiceBlockExpectedState, ServiceExpectedAutoStart, ServiceExpectedStatus,
};
use regent_sdk::attribute::yumdnf::YumDnfBlockExpectedState;
use regent_sdk::privilege::final_command;
use regent_sdk::{
    aggregate_assessments, Attribute, AttributeComplianceStatus, Credentials, Error, ExpectedState,
    HostComplianceStatus, ManagedHost, Privilege, Remediation, ScriptedHostHandler, Ssh2AuthMode,
    Ssh2SessionState, Ssh2Step, WhichUser,
};

fn current_user_host(handler: ScriptedHostHandler) -> ManagedHost<ScriptedHostHandler> {
    ManagedHost::from("localhost", handler, HashMap::new())
}

#[test]
fn privilege_composition_matches_the_table() {
    let cmd = "ls /var";
    let current = WhichUser::CurrentUser;
    assert_eq!(final_command(cmd, &Privilege::Usual, &current), "ls /var 2>&1");
    assert_eq!(final_command(cmd, &Privilege::WithSudo, &current), "sudo ls /var 2>&1");
    assert_eq!(final_command(cmd, &Privilege::WithSudoRs, &current), "sudo-rs ls /var 2>&1");

    let passwordless = WhichUser::PasswordLessUser("deploy".to_string());
    assert_eq!(
        final_command(cmd, &Privilege::Usual, &passwordless),
        "sudo -u deploy ls /var 2>&1"
    );
    assert_eq!(
        final_command(cmd, &Privilege::WithSudo, &passwordless),
        "sudo -u deploy ls /var 2>&1"
    );
    assert_eq!(
        final_command(cmd, &Privilege::WithSudoRs, &passwordless),
        "sudo-rs -u deploy ls /var 2>&1"
    );

    let with_password = WhichUser::UsernamePassword(Credentials::from("deploy", "hunter2"));
    assert_eq!(
        final_command(cmd, &Privilege::Usual, &with_password),
        "echo hunter2 | sudo -S -u deploy ls /var 2>&1"
    );
    assert_eq!(
        final_command(cmd, &Privilege::WithSudo, &with_password),
        "echo hunter2 | sudo -S -u deploy ls /var 2>&1"
    );
    assert_eq!(
        final_command(cmd, &Privilege::WithSudoRs, &with_password),
        "echo hunter2 | sudo-rs -S -u deploy ls /var 2>&1"
    );
}

#[test]
fn endpoints_split_into_address_and_port() {
    assert_eq!(
        regent_sdk::parse_endpoint("10.20.0.203:2222").unwrap(),
        ("10.20.0.203".to_string(), 2222)
    );
    assert_eq!(
        regent_sdk::parse_endpoint("host.example.com").unwrap(),
        ("host.example.com".to_string(), 22)
    );
    assert!(regent_sdk::parse_endpoint("").is_err());
    assert!(regent_sdk::parse_endpoint(":22").is_err());
    assert!(regent_sdk::parse_endpoint("host:").is_err());
    assert!(regent_sdk::parse_endpoint("host:abc").is_err());
    assert!(regent_sdk::parse_endpoint("host:70000").is_err());
    assert!(regent_sdk::parse_endpoint("host:22extra").is_err());
}

#[test]
fn credentials_describe_redacts_the_password() {
    let credentials = Credentials::from("deploy", "hunter2");
    let described = credentials.describe();
    assert!(!described.contains("hunter2"));
    assert_eq!(
        described,
        "Credentials { username: deploy, password: \"********\" }"
    );
}

fn apt_apache_handler(dpkg_rc: i32, dpkg_stdout: &str) -> ScriptedHostHandler {
    let mut handler = ScriptedHostHandler::new(WhichUser::CurrentUser);
    handler.respond_to("command -v apt-get 2>&1", 0, "/usr/bin/apt-get");
    handler.respond_to("command -v dpkg 2>&1", 0, "/usr/bin/dpkg");
    handler.respond_to("dpkg -s apache2 2>&1", dpkg_rc, dpkg_stdout);
    handler
}

#[test]
fn apt_install_runs_update_then_install() {
    // The package is missing: dpkg -s exits 1.
    let mut handler = apt_apache_handler(1, "");
    handler.respond_to("sudo apt-get update 2>&1", 0, "");
    handler.respond_to(
        "sudo DEBIAN_FRONTEND=noninteractive apt-get install -y apache2 2>&1",
        0,
        "",
    );

    let block = {
        let mut builder = AptBlockExpectedState::builder();
        builder.with_package_state("apache2", PackageExpectedState::Present);
        builder.build().unwrap()
    };
    let attribute = Attribute::apt(block, Privilege::WithSudo);

    let assessment = attribute.assess(&mut handler).unwrap();
    assert!(!assessment.is_compliant());
    let remediations = assessment.remediations();
    assert_eq!(remediations.len(), 1);
    match remediations[0] {
        Remediation::Apt(call) => {
            assert_eq!(
                call.command(),
                "DEBIAN_FRONTEND=noninteractive apt-get install -y apache2"
            );
        }
        other => panic!("unexpected remediation: {:?}", other),
    }

    let result = attribute.reach_compliance(&mut handler).unwrap();
    assert_eq!(result.status(), AttributeComplianceStatus::ReachedCompliance);

    // The wire commands, in order: three probes for the assessment that
    // produced the remediation list, three more for the re-assessment
    // inside reach, then apt-get update and the installation.
    let commands: Vec<&str> = handler.log().iter().map(|e| e.command.as_str()).collect();
    assert_eq!(
        commands,
        vec![
            "command -v apt-get",
            "command -v dpkg",
            "dpkg -s apache2",
            "command -v apt-get",
            "command -v dpkg",
            "dpkg -s apache2",
            "apt-get update",
            "DEBIAN_FRONTEND=noninteractive apt-get install -y apache2",
        ]
    );
    assert_eq!(handler.log()[6].privilege, Privilege::WithSudo);
    assert_eq!(handler.log()[7].privilege, Privilege::WithSudo);
}

#[test]
fn apt_installed_package_is_compliant_and_reach_runs_nothing() {
    let mut handler = apt_apache_handler(0, "Status: install ok installed");
    let block = {
        let mut builder = AptBlockExpectedState::builder();
        builder.with_package_state("apache2", PackageExpectedState::Present);
        builder.build().unwrap()
    };
    let attribute = Attribute::apt(block, Privilege::WithSudo);

    let assessment = attribute.assess(&mut handler).unwrap();
    assert!(assessment.is_compliant());

    let result = attribute.reach_compliance(&mut handler).unwrap();
    assert_eq!(result.status(), AttributeComplianceStatus::AlreadyCompliant);
    assert!(result.details().is_none());

    // Only read-only probes ever reached the host: no apt-get install, no
    // apt-get update.
    for entry in handler.log() {
        assert!(
            entry.command == "command -v apt-get"
                || entry.command == "command -v dpkg"
                || entry.command == "dpkg -s apache2"
        );
    }
}

#[test]
fn apt_deinstalled_status_counts_as_absent() {
    // dpkg exits 0 for packages it knows, but only a `Status: install` line
    // means installed.
    let mut handler = apt_apache_handler(0, "Status: deinstall ok config-files");
    let block = {
        let mut builder = AptBlockExpectedState::builder();
        builder.with_package_state("apache2", PackageExpectedState::Present);
        builder.build().unwrap()
    };
    let attribute = Attribute::apt(block, Privilege::Usual);
    let assessment = attribute.assess(&mut handler).unwrap();
    assert!(!assessment.is_compliant());
}

#[test]
fn apt_missing_tool_is_a_dry_run_failure() {
    let mut handler = ScriptedHostHandler::new(WhichUser::CurrentUser);
    handler.respond_to("command -v apt-get 2>&1", 1, "");
    let block = {
        let mut builder = AptBlockExpectedState::builder();
        builder.with_package_state("apache2", PackageExpectedState::Present);
        builder.build().unwrap()
    };
    let attribute = Attribute::apt(block, Privilege::Usual);
    let outcome = attribute.assess(&mut handler);
    match outcome {
        Err(Error::FailedDryRunEvaluation(message)) => {
            assert_eq!(message, "APT not working on this host");
        }
        other => panic!("expected a dry run failure, got {:?}", other),
    }
}

#[test]
fn apt_converges_after_remediation() {
    // First sitting: the package is absent, reach installs it.
    let mut before = apt_apache_handler(1, "");
    before.respond_to("apt-get update 2>&1", 0, "");
    before.respond_to(
        "DEBIAN_FRONTEND=noninteractive apt-get install -y apache2 2>&1",
        0,
        "",
    );
    let block = {
        let mut builder = AptBlockExpectedState::builder();
        builder.with_package_state("apache2", PackageExpectedState::Present);
        builder.build().unwrap()
    };
    let attribute = Attribute::apt(block, Privilege::Usual);
    let result = attribute.reach_compliance(&mut before).unwrap();
    assert_eq!(result.status(), AttributeComplianceStatus::ReachedCompliance);

    // Second sitting: the host now reports the state the remediation
    // established, and assessment is compliant.
    let mut after = apt_apache_handler(0, "Status: install ok installed");
    let assessment = attribute.assess(&mut after).unwrap();
    assert!(assessment.is_compliant());
}

#[test]
fn pacman_absent_package_wants_removal() {
    let mut handler = ScriptedHostHandler::new(WhichUser::CurrentUser);
    handler.respond_to("command -v pacman 2>&1", 0, "/usr/bin/pacman");
    handler.respond_to("LC_ALL=en_US.UTF-8 pacman -Q -i apache 2>&1", 0, "Name : apache");
    let block = {
        let mut builder = PacmanBlockExpectedState::builder();
        builder.with_package_state("apache", PackageExpectedState::Absent);
        builder.build().unwrap()
    };
    let attribute = Attribute::pacman(block, Privilege::Usual);
    let assessment = attribute.assess(&mut handler).unwrap();
    let remediations = assessment.remediations();
    assert_eq!(remediations.len(), 1);
    match remediations[0] {
        Remediation::Pacman(call) => {
            assert_eq!(call.command(), "pacman --noconfirm -R apache");
        }
        other => panic!("unexpected remediation: {:?}", other),
    }
}

#[test]
fn dnf_is_preferred_over_yum() {
    let mut handler = ScriptedHostHandler::new(WhichUser::CurrentUser);
    handler.respond_to("command -v dnf 2>&1", 0, "/usr/bin/dnf");
    handler.respond_to("dnf list installed httpd 2>&1", 1, "");
    let block = {
        let mut builder = YumDnfBlockExpectedState::builder();
        builder.with_package_state("httpd", PackageExpectedState::Present);
        builder.build().unwrap()
    };
    let attribute = Attribute::yumdnf(block, Privilege::Usual);
    let assessment = attribute.assess(&mut handler).unwrap();
    let remediations = assessment.remediations();
    assert_eq!(remediations.len(), 1);
    match remediations[0] {
        Remediation::YumDnf(call) => {
            assert_eq!(call.command(), "dnf install -y httpd");
            assert_eq!(call.display(), "Install - httpd");
        }
        other => panic!("unexpected remediation: {:?}", other),
    }
}

#[test]
fn yum_serves_when_dnf_is_absent() {
    let mut handler = ScriptedHostHandler::new(WhichUser::CurrentUser);
    handler.respond_to("command -v dnf 2>&1", 1, "");
    handler.respond_to("command -v yum 2>&1", 0, "/usr/bin/yum");
    handler.respond_to("yum list installed httpd 2>&1", 1, "");
    let block = {
        let mut builder = YumDnfBlockExpectedState::builder();
        builder.with_package_state("httpd", PackageExpectedState::Present);
        builder.build().unwrap()
    };
    let attribute = Attribute::yumdnf(block, Privilege::Usual);
    let assessment = attribute.assess(&mut handler).unwrap();
    match assessment.remediations()[0] {
        Remediation::YumDnf(call) => {
            assert_eq!(call.command(), "yum install -y httpd");
        }
        other => panic!("unexpected remediation: {:?}", other),
    }
}

#[test]
fn absent_service_with_exists_false_is_compliant() {
    let mut handler = ScriptedHostHandler::new(WhichUser::CurrentUser);
    handler.respond_to("command -v systemctl 2>&1", 0, "/usr/bin/systemctl");
    handler.respond_to("systemctl is-active ghost 2>&1", 4, "");
    handler.respond_to("systemctl is-enabled ghost 2>&1", 4, "");
    let block = {
        let mut builder = ServiceBlockExpectedState::builder("ghost");
        builder.with_service_state(ServiceExpectedStatus::Inactive);
        builder.with_exists(false);
        builder.build().unwrap()
    };
    let attribute = Attribute::service(block, Privilege::Usual);
    let assessment = attribute.assess(&mut handler).unwrap();
    assert!(assessment.is_compliant());
}

#[test]
fn exists_false_ignores_the_live_state_once_coherent() {
    // The unit exists and is running, but the block says `exists: false`
    // with a wanted Inactive state: such a block only rules combinations
    // out and asks for nothing.
    let mut handler = ScriptedHostHandler::new(WhichUser::CurrentUser);
    handler.respond_to("command -v systemctl 2>&1", 0, "/usr/bin/systemctl");
    handler.respond_to("systemctl is-active zombie 2>&1", 0, "active");
    handler.respond_to("systemctl is-enabled zombie 2>&1", 1, "");
    let block = {
        let mut builder = ServiceBlockExpectedState::builder("zombie");
        builder.with_service_state(ServiceExpectedStatus::Inactive);
        builder.with_exists(false);
        builder.build().unwrap()
    };
    let attribute = Attribute::service(block, Privilege::Usual);
    let assessment = attribute.assess(&mut handler).unwrap();
    assert!(assessment.is_compliant());
}

#[test]
fn service_unit_not_failed_code_is_fatal() {
    let mut handler = ScriptedHostHandler::new(WhichUser::CurrentUser);
    handler.respond_to("command -v systemctl 2>&1", 0, "/usr/bin/systemctl");
    handler.respond_to("systemctl is-active flappy 2>&1", 1, "");
    let block = {
        let mut builder = ServiceBlockExpectedState::builder("flappy");
        builder.with_service_state(ServiceExpectedStatus::Active);
        builder.build().unwrap()
    };
    let attribute = Attribute::service(block, Privilege::Usual);
    match attribute.assess(&mut handler) {
        Err(Error::FailedDryRunEvaluation(message)) => {
            assert_eq!(message, "Unit not failed");
        }
        other => panic!("expected a dry run failure, got {:?}", other),
    }
}

#[test]
fn stopped_disabled_service_needs_start_then_enable() {
    let mut handler = ScriptedHostHandler::new(WhichUser::CurrentUser);
    // The availability probe runs under the attribute's privilege.
    handler.respond_to("sudo command -v systemctl 2>&1", 0, "/usr/bin/systemctl");
    handler.respond_to("systemctl is-active apache2 2>&1", 3, "");
    handler.respond_to("systemctl is-enabled apache2 2>&1", 1, "");
    let block = {
        let mut builder = ServiceBlockExpectedState::builder("apache2");
        builder.with_service_state(ServiceExpectedStatus::Active);
        builder.with_autostart_state(ServiceExpectedAutoStart::Enabled);
        builder.build().unwrap()
    };
    let attribute = Attribute::service(block, Privilege::WithSudo);
    let assessment = attribute.assess(&mut handler).unwrap();
    let remediations = assessment.remediations();
    assert_eq!(remediations.len(), 2);
    match remediations[0] {
        Remediation::Service(call) => {
            assert_eq!(call.command(), "systemctl start apache2");
            assert_eq!(call.display(), "Start service apache2");
        }
        other => panic!("unexpected remediation: {:?}", other),
    }
    match remediations[1] {
        Remediation::Service(call) => {
            assert_eq!(call.command(), "systemctl enable apache2");
        }
        other => panic!("unexpected remediation: {:?}", other),
    }
}

#[test]
fn lineinfile_top_enforcement_inserts_at_line_one() {
    let mut handler = ScriptedHostHandler::new(WhichUser::CurrentUser);
    handler.respond_to("command -v sed 2>&1", 0, "/usr/bin/sed");
    handler.respond_to("test -f /etc/hosts 2>&1", 0, "");
    handler.respond_to("wc -l /etc/hosts | cut -f 1 -d ' ' 2>&1", 0, "12\n");
    handler.respond_to("grep -n -F -w '127.0.0.1 foo' /etc/hosts 2>&1", 0, "7:127.0.0.1 foo\n");
    handler.respond_to("sed -i '1 i 127.0.0.1 foo' /etc/hosts 2>&1", 0, "");

    let block = {
        let mut builder =
            LineInFileBlockExpectedState::builder("/etc/hosts", LineExpectedState::Present);
        builder.with_line("127.0.0.1 foo");
        builder.with_position(LineExpectedPosition::Top);
        builder.build().unwrap()
    };
    let attribute = Attribute::lineinfile(block, Privilege::Usual);

    let assessment = attribute.assess(&mut handler).unwrap();
    assert!(!assessment.is_compliant());
    match assessment.remediations()[0] {
        Remediation::LineInFile(call) => {
            assert!(matches!(
                call.api_call,
                regent_sdk::attribute::lineinfile::LineInFileModuleInternalApiCall::Add(
                    LineExpectedPosition::Top
                )
            ));
        }
        other => panic!("unexpected remediation: {:?}", other),
    }

    let result = attribute.reach_compliance(&mut handler).unwrap();
    assert_eq!(result.status(), AttributeComplianceStatus::ReachedCompliance);
    let last = handler.log().last().unwrap();
    assert_eq!(last.command, "sed -i '1 i 127.0.0.1 foo' /etc/hosts");
}

#[test]
fn lineinfile_empty_file_appends_with_echo() {
    let mut handler = ScriptedHostHandler::new(WhichUser::CurrentUser);
    handler.respond_to("command -v sed 2>&1", 0, "/usr/bin/sed");
    handler.respond_to("test -f /tmp/notes 2>&1", 0, "");
    handler.respond_to("wc -l /tmp/notes | cut -f 1 -d ' ' 2>&1", 0, "0\n");
    handler.respond_to("grep -n -F -w 'first line' /tmp/notes 2>&1", 1, "");
    handler.respond_to("echo 'first line' >> /tmp/notes 2>&1", 0, "");

    let block = {
        let mut builder =
            LineInFileBlockExpectedState::builder("/tmp/notes", LineExpectedState::Present);
        builder.with_line("first line");
        builder.with_position(LineExpectedPosition::Bottom);
        builder.build().unwrap()
    };
    let attribute = Attribute::lineinfile(block, Privilege::Usual);
    let result = attribute.reach_compliance(&mut handler).unwrap();
    assert_eq!(result.status(), AttributeComplianceStatus::ReachedCompliance);
    let last = handler.log().last().unwrap();
    assert_eq!(last.command, "echo 'first line' >> /tmp/notes");
}

#[test]
fn lineinfile_deletes_every_occurrence() {
    let mut handler = ScriptedHostHandler::new(WhichUser::CurrentUser);
    handler.respond_to("command -v sed 2>&1", 0, "/usr/bin/sed");
    handler.respond_to("test -f /tmp/notes 2>&1", 0, "");
    handler.respond_to(
        "grep -n -F -w 'stale' /tmp/notes 2>&1",
        0,
        "7:stale\n12:stale\n16:stale\n",
    );
    handler.respond_to("sed -i '7d;12d;16d' /tmp/notes 2>&1", 0, "");

    let block = {
        let mut builder =
            LineInFileBlockExpectedState::builder("/tmp/notes", LineExpectedState::Absent);
        builder.with_line("stale");
        builder.build().unwrap()
    };
    let attribute = Attribute::lineinfile(block, Privilege::Usual);
    let result = attribute.reach_compliance(&mut handler).unwrap();
    assert_eq!(result.status(), AttributeComplianceStatus::ReachedCompliance);
    let last = handler.log().last().unwrap();
    assert_eq!(last.command, "sed -i '7d;12d;16d' /tmp/notes");
}

#[test]
fn lineinfile_position_beyond_file_end_is_out_of_range() {
    let mut handler = ScriptedHostHandler::new(WhichUser::CurrentUser);
    handler.respond_to("command -v sed 2>&1", 0, "/usr/bin/sed");
    handler.respond_to("test -f /tmp/notes 2>&1", 0, "");
    handler.respond_to("wc -l /tmp/notes | cut -f 1 -d ' ' 2>&1", 0, "3\n");
    let block = {
        let mut builder =
            LineInFileBlockExpectedState::builder("/tmp/notes", LineExpectedState::Present);
        builder.with_line("late line");
        builder.with_position(LineExpectedPosition::SpecificLineNumber(7));
        builder.build().unwrap()
    };
    let attribute = Attribute::lineinfile(block, Privilege::Usual);
    match attribute.assess(&mut handler) {
        Err(Error::FailedDryRunEvaluation(message)) => {
            assert_eq!(message, "Position value out of range (use \"bottom\" instead)");
        }
        other => panic!("expected a dry run failure, got {:?}", other),
    }
}

#[test]
fn remediation_short_circuit_skips_later_attributes() {
    let mut handler = ScriptedHostHandler::new(WhichUser::CurrentUser);
    handler.respond_to("command -v apt-get 2>&1", 0, "/usr/bin/apt-get");
    handler.respond_to("command -v dpkg 2>&1", 0, "/usr/bin/dpkg");
    handler.respond_to("dpkg -s boinc 2>&1", 1, "");
    handler.respond_to("sudo apt-get update 2>&1", 0, "");
    handler.respond_to(
        "sudo DEBIAN_FRONTEND=noninteractive apt-get install -y boinc 2>&1",
        100,
        "E: unable to fetch archives",
    );

    let package = {
        let mut builder = AptBlockExpectedState::builder();
        builder.with_package_state("boinc", PackageExpectedState::Present);
        builder.build().unwrap()
    };
    let service = {
        let mut builder = ServiceBlockExpectedState::builder("boinc-client");
        builder.with_service_state(ServiceExpectedStatus::Active);
        builder.with_autostart_state(ServiceExpectedAutoStart::Enabled);
        builder.build().unwrap()
    };
    let expected_state = ExpectedState::new()
        .with_attribute(Attribute::apt(package, Privilege::WithSudo))
        .with_attribute(Attribute::service(service, Privilege::WithSudo));

    let mut host = current_user_host(handler);
    host.connect().unwrap();
    let outcome = host.reach_compliance(&expected_state).unwrap();
    assert_eq!(outcome.status(), HostComplianceStatus::FailedReachedCompliance);
    // Only the failed package attribute was processed.
    assert_eq!(outcome.actions_taken().len(), 1);
    // The service attribute was never evaluated: no systemctl command ran.
    for entry in host.handler().log() {
        assert!(!entry.command.contains("systemctl"));
    }
}

#[test]
fn empty_expected_state_is_already_compliant_sequentially_and_in_parallel() {
    let handler = ScriptedHostHandler::new(WhichUser::CurrentUser);
    let mut host = current_user_host(handler);
    host.connect().unwrap();
    let assessment = host.assess_compliance(&ExpectedState::new()).unwrap();
    assert_eq!(assessment.status(), HostComplianceStatus::AlreadyCompliant);

    let reassembled = aggregate_assessments(Vec::new());
    assert_eq!(reassembled.status(), HostComplianceStatus::AlreadyCompliant);
}

#[test]
fn assessing_without_connecting_is_refused() {
    let handler = ScriptedHostHandler::new(WhichUser::CurrentUser);
    let mut host = current_user_host(handler);
    let outcome = host.assess_compliance(&ExpectedState::new());
    assert!(matches!(outcome, Err(Error::NotConnectedToHost)));
}

#[test]
fn unknown_command_is_a_dispatch_failure() {
    let mut handler = ScriptedHostHandler::new(WhichUser::CurrentUser);
    let block = {
        let mut builder = AptBlockExpectedState::builder();
        builder.with_package_state("apache2", PackageExpectedState::Present);
        builder.build().unwrap()
    };
    let attribute = Attribute::apt(block, Privilege::Usual);
    let outcome = attribute.assess(&mut handler);
    assert!(matches!(outcome, Err(Error::FailureToRunCommand(_))));
}

#[test]
fn already_met_entry_never_executes() {
    let mut handler = ScriptedHostHandler::new(WhichUser::CurrentUser);
    let entry = Remediation::AlreadyMet("nothing to do".to_string());
    let outcome = entry.reach_compliance(&mut handler);
    assert!(matches!(outcome, Err(Error::InternalLogicError(_))));
    assert!(handler.log().is_empty());
}

fn healthy_service_fleet(count: usize) -> (ScriptedHostHandler, ExpectedState) {
    let mut handler = ScriptedHostHandler::new(WhichUser::CurrentUser);
    handler.respond_to("command -v systemctl 2>&1", 0, "/usr/bin/systemctl");
    let mut expected_state = ExpectedState::new();
    for i in 0..count {
        let name = format!("svc{}", i);
        handler.respond_to(&format!("systemctl is-active {} 2>&1", name), 0, "active");
        handler.respond_to(&format!("systemctl is-enabled {} 2>&1", name), 0, "enabled");
        let block = {
            let mut builder = ServiceBlockExpectedState::builder(&name);
            builder.with_service_state(ServiceExpectedStatus::Active);
            builder.with_autostart_state(ServiceExpectedAutoStart::Enabled);
            builder.build().unwrap()
        };
        expected_state = expected_state.with_attribute(Attribute::service(block, Privilege::Usual));
    }
    (handler, expected_state)
}

#[test]
fn large_service_fleet_is_already_compliant() {
    let (handler, expected_state) = healthy_service_fleet(50);
    let mut host = current_user_host(handler);
    host.connect().unwrap();
    let assessment = host.assess_compliance(&expected_state).unwrap();
    assert_eq!(assessment.status(), HostComplianceStatus::AlreadyCompliant);
    assert_eq!(assessment.attributes_compliance_assessment().len(), 50);
}

#[test]
fn parallel_and_sequential_assessment_agree() {
    // Sequential run over one shared handler.
    let (handler, expected_state) = healthy_service_fleet(8);
    let mut host = current_user_host(handler);
    host.connect().unwrap();
    let sequential = host.assess_compliance(&expected_state).unwrap();

    // The parallel path assesses each attribute over its own fresh
    // connection and reassembles results in whatever order they arrive;
    // completion order is emulated here by reversing.
    let mut results = Vec::new();
    for attribute in expected_state.attributes.iter().rev() {
        let (mut worker, _) = healthy_service_fleet(8);
        let assessment = attribute.assess(&mut worker).unwrap();
        results.push((attribute.duplicate(), assessment));
    }
    let reassembled = aggregate_assessments(results);
    assert_eq!(reassembled.status(), sequential.status());
}

#[test]
fn upgrade_requests_are_reissued_on_every_assessment() {
    // An upgrade has no current-state probe: even an installed package
    // leaves the attribute non-compliant while `upgrade: true` stands.
    let mut handler = apt_apache_handler(0, "Status: install ok installed");
    let block = {
        let mut builder = AptBlockExpectedState::builder();
        builder.with_package_state("apache2", PackageExpectedState::Present);
        builder.with_system_upgrade();
        builder.build().unwrap()
    };
    let attribute = Attribute::apt(block, Privilege::Usual);
    let assessment = attribute.assess(&mut handler).unwrap();
    assert!(!assessment.is_compliant());
    let remediations = assessment.remediations();
    assert_eq!(remediations.len(), 2);
    assert!(!remediations[0].is_action());
    match remediations[1] {
        Remediation::Apt(call) => {
            assert_eq!(
                call.command(),
                "apt-get update && DEBIAN_FRONTEND=noninteractive apt-get upgrade -y"
            );
        }
        other => panic!("unexpected remediation: {:?}", other),
    }
}

#[test]
fn command_blocks_always_contribute_their_command() {
    let mut handler = ScriptedHostHandler::new(WhichUser::CurrentUser);
    handler.respond_to("ls -ltrh 2>&1", 0, "total 0");
    let block = regent_sdk::attribute::command::CommandBlockExpectedState::new("ls -ltrh");
    let attribute = Attribute::command(block, Privilege::Usual);
    let assessment = attribute.assess(&mut handler).unwrap();
    assert!(!assessment.is_compliant());
    // Assessment consulted nothing; only reach runs the command.
    assert!(handler.log().is_empty());
    let result = attribute.reach_compliance(&mut handler).unwrap();
    assert_eq!(result.status(), AttributeComplianceStatus::ReachedCompliance);
    assert_eq!(handler.log().len(), 1);
    assert_eq!(handler.log()[0].command, "ls -ltrh");
}

#[test]
fn ping_is_compliant_exactly_when_id_succeeds() {
    let mut reachable = ScriptedHostHandler::new(WhichUser::CurrentUser);
    reachable.respond_to("id 2>&1", 0, "uid=1000");
    let attribute = Attribute::ping(
        regent_sdk::attribute::ping::PingBlockExpectedState::new(),
        Privilege::Usual,
    );
    assert!(attribute.assess(&mut reachable).unwrap().is_compliant());

    let mut unreachable = ScriptedHostHandler::new(WhichUser::CurrentUser);
    unreachable.respond_to("id 2>&1", 1, "");
    match attribute.assess(&mut unreachable) {
        Err(Error::FailedDryRunEvaluation(message)) => {
            assert_eq!(message, "Host unreachable");
        }
        other => panic!("expected a dry run failure, got {:?}", other),
    }
}

#[test]
fn debug_blocks_report_their_message_and_never_execute() {
    let mut handler = ScriptedHostHandler::new(WhichUser::CurrentUser);
    let block = regent_sdk::attribute::debug::DebugBlockExpectedState::new("checkpoint reached");
    let attribute = Attribute::debug(block, Privilege::Usual);
    let assessment = attribute.assess(&mut handler).unwrap();
    let remediations = assessment.remediations();
    assert_eq!(remediations.len(), 1);
    match remediations[0] {
        Remediation::AlreadyMet(message) => assert_eq!(message, "checkpoint reached"),
        other => panic!("unexpected remediation: {:?}", other),
    }
    let result = attribute.reach_compliance(&mut handler).unwrap();
    assert_eq!(result.status(), AttributeComplianceStatus::ReachedCompliance);
    assert!(handler.log().is_empty());
}

#[test]
fn ssh_session_lifecycle_reaches_authentication_once() {
    let auth = Ssh2AuthMode::KeyFile {
        username: "dux".to_string(),
        key_file_path: "controller_key".to_string(),
    };
    let state = Ssh2SessionState::Unauthenticated;

    // An unset auth mode can never connect.
    assert!(matches!(
        state.connect_step("10.20.0.203", &Ssh2AuthMode::Unset),
        Err(Error::MissingInitialization(_))
    ));

    // Fresh session: open the transport to the parsed endpoint.
    let step = state.connect_step("10.20.0.203:2222", &auth).unwrap();
    match &step {
        Ssh2Step::OpenAndHandshake { address, port } => {
            assert_eq!(address, "10.20.0.203");
            assert_eq!(*port, 2222);
        }
        other => panic!("unexpected step: {:?}", other),
    }
    let state = state.advance(&step, true);
    assert_eq!(state, Ssh2SessionState::Connected);

    // Transport up: authenticate.
    let step = state.connect_step("10.20.0.203:2222", &auth).unwrap();
    assert_eq!(step, Ssh2Step::Authenticate);
    let state = state.advance(&step, true);
    assert!(state.is_authenticated());

    // A second connect is idempotent.
    let step = state.connect_step("10.20.0.203:2222", &auth).unwrap();
    assert_eq!(step, Ssh2Step::AlreadyAuthenticated);
    assert_eq!(state.advance(&step, true), Ssh2SessionState::Authenticated);

    // Disconnecting is terminal until the next connect.
    assert_eq!(state.after_disconnect(), Ssh2SessionState::Disconnected);
}
