use std::collections::HashMap;

use regent_sdk::attribute::apt::PackageExpectedState;
use regent_sdk::attribute::pacman::PacmanBlockExpectedState;
use regent_sdk::attribute::apt::AptBlockExpectedState;
use regent_sdk::attribute::service::{ServiceBlockExpectedState, ServiceExpectedStatus};
use regent_sdk::{
    Attribute, Check, Error, ExpectedState, HostConnectionInfo, Job, ModuleBlockExpectedState,
    Privilege, RegentTask, ScriptedHostHandler, WhichUser,
};

fn pacman_apache_task(job: Job) -> RegentTask {
    let block = {
        let mut builder = PacmanBlockExpectedState::builder();
        builder.with_package_state("apache", PackageExpectedState::Present);
        builder.build().unwrap()
    };
    let expected_state =
        ExpectedState::new().with_attribute(Attribute::pacman(block, Privilege::Usual));
    let mut vars = HashMap::new();
    vars.insert("fleet".to_string(), "canary".to_string());
    RegentTask::from(
        "localhost",
        HostConnectionInfo::LocalCurrentUser,
        vars,
        expected_state,
        job,
    )
}

#[test]
fn correlation_ids_are_21_characters_and_fresh() {
    let first = pacman_apache_task(Job::Assess);
    let second = pacman_apache_task(Job::Assess);
    assert_eq!(first.correlation_id().len(), 21);
    assert_eq!(second.correlation_id().len(), 21);
    assert_ne!(first.correlation_id(), second.correlation_id());
}

#[test]
fn serialize_transport_and_execute() {
    let task = pacman_apache_task(Job::Assess);

    // To the wire and back.
    let wire = task.to_json().unwrap();
    let restored = RegentTask::from_json(&wire).unwrap();
    assert_eq!(restored.correlation_id(), task.correlation_id());
    assert_eq!(restored.endpoint(), "localhost");
    assert_eq!(restored.job(), Job::Assess);
    assert_eq!(restored.vars().get("fleet").map(|v| v.as_str()), Some("canary"));
    assert_eq!(restored.expected_state().attributes.len(), 1);

    // A worker runs the unit against a host where the package is missing.
    let mut handler = ScriptedHostHandler::new(WhichUser::CurrentUser);
    handler.respond_to("command -v pacman 2>&1", 0, "/usr/bin/pacman");
    handler.respond_to("LC_ALL=en_US.UTF-8 pacman -Q -i apache 2>&1", 1, "");
    let report = restored.run(handler).unwrap();
    assert_eq!(report.correlation_id(), task.correlation_id());
    assert!(report.host_status().is_not_compliant());
    assert_eq!(report.host_status().all_remediations().len(), 1);
}

#[test]
fn reach_job_reports_success() {
    let task = pacman_apache_task(Job::Reach);
    let wire = task.to_json().unwrap();
    let restored = RegentTask::from_json(&wire).unwrap();

    let mut handler = ScriptedHostHandler::new(WhichUser::CurrentUser);
    handler.respond_to("command -v pacman 2>&1", 0, "/usr/bin/pacman");
    handler.respond_to("LC_ALL=en_US.UTF-8 pacman -Q -i apache 2>&1", 1, "");
    handler.respond_to("pacman --noconfirm -S apache 2>&1", 0, "");
    let report = restored.run(handler).unwrap();
    assert!(report.host_status().is_reach_compliance_success());
    let actions = report.host_status().actions_taken();
    assert_eq!(actions.len(), 1);
}

#[test]
fn attribute_details_survive_the_wire() {
    let yaml = "---
- name: full catalog
  steps:
    - with_sudo: true
      apt:
        package: apache2
        state: present
    - service:
        name: apache2
        current_status: active
        auto_start: enabled
    - lineinfile:
        filepath: /etc/hosts
        line: 127.0.0.1 foo
        state: present
        position: 2
    - command:
        cmd: ls -ltrh
    - ping:
    - debug:
        msg: hello there
        ";
    let tasklist =
        regent_sdk::TaskList::from_str(yaml, regent_sdk::TaskListFileType::Yaml).unwrap();
    let mut expected_state = ExpectedState::new();
    for step in &tasklist.tasks[0].steps {
        let privilege = step.privilege();
        let attribute = step.attribute.to_attribute(privilege).unwrap();
        expected_state = expected_state.with_attribute(attribute);
    }
    let task = RegentTask::from(
        "web1.example.com:2222",
        HostConnectionInfo::LocalCurrentUser,
        HashMap::new(),
        expected_state,
        Job::Assess,
    );
    let wire = task.to_json().unwrap();
    let restored = RegentTask::from_json(&wire).unwrap();
    let attributes = &restored.expected_state().attributes;
    assert_eq!(attributes.len(), 6);
    assert_eq!(attributes[0].privilege, Privilege::WithSudo);
    assert!(matches!(
        attributes[0].detail,
        regent_sdk::AttributeDetail::Apt(_)
    ));
    assert!(matches!(
        attributes[1].detail,
        regent_sdk::AttributeDetail::Service(_)
    ));
    assert!(matches!(
        attributes[2].detail,
        regent_sdk::AttributeDetail::LineInFile(_)
    ));
    assert!(matches!(
        attributes[3].detail,
        regent_sdk::AttributeDetail::Command(_)
    ));
    assert!(matches!(
        attributes[4].detail,
        regent_sdk::AttributeDetail::Ping(_)
    ));
    assert!(matches!(
        attributes[5].detail,
        regent_sdk::AttributeDetail::Debug(_)
    ));
}

#[test]
fn wire_format_escapes_awkward_strings() {
    let mut vars = HashMap::new();
    vars.insert(
        "motd".to_string(),
        "say \"hello\"\nand a backslash: \\ and a tab:\t".to_string(),
    );
    let task = RegentTask::from(
        "localhost",
        HostConnectionInfo::LocalCurrentUser,
        vars,
        ExpectedState::new(),
        Job::Assess,
    );
    let wire = task.to_json().unwrap();
    let restored = RegentTask::from_json(&wire).unwrap();
    assert_eq!(
        restored.vars().get("motd"),
        task.vars().get("motd"),
    );
}

#[test]
fn module_blocks_validate_their_coherence() {
    // A package attribute with `state` set but no package is rejected.
    let broken = AptBlockExpectedState::from_parts(
        Some(PackageExpectedState::Present),
        None,
        None,
    );
    assert!(matches!(broken.build(), Err(Error::IncoherentExpectedState(_))));
    let block = ModuleBlockExpectedState::Apt(broken);
    assert!(Check::check(&block).is_err());

    // A package attribute with every field unset is rejected.
    let empty = AptBlockExpectedState::builder().build();
    assert!(matches!(empty, Err(Error::IncoherentExpectedState(_))));

    // A service cannot be wanted active and not exist at the same time.
    let conflicted = {
        let mut builder = ServiceBlockExpectedState::builder("apache2");
        builder.with_service_state(ServiceExpectedStatus::Active);
        builder.with_exists(false);
        builder.build()
    };
    assert!(matches!(conflicted, Err(Error::IncoherentExpectedState(_))));

    // A coherent block passes.
    let sound = {
        let mut builder = AptBlockExpectedState::builder();
        builder.with_package_state("apache2", PackageExpectedState::Present);
        builder.build()
    };
    assert!(sound.is_ok());
}
