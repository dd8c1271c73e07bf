use regent_sdk::attribute::service::{ServiceExpectedAutoStart, ServiceExpectedStatus};
use regent_sdk::{ModuleBlockExpectedState, TaskList, TaskListFileType, TaskListFormat};

#[test]
fn apt_parsing_apt_module_block_from_yaml_str() {
    let raw_tasklist_description = "---
- name: Dummy steps to test deserialisation and syntax of this module
  steps:
    - name: Package must be present
      apt:
        package: apache2
        state: present
    - name: Package must be absent
      apt:
        package: apache2
        state: absent
    - name: Package must be present with upgrade
      apt:
        package: apache2
        state: present
        upgrade: true
        ";

    let parsed_tasklist = TaskList::from_str(raw_tasklist_description, TaskListFileType::Yaml);

    assert!(parsed_tasklist.is_ok());
}

#[test]
fn pacman_parsing_pacman_module_block_from_yaml_str() {
    let raw_tasklist_description = "---
- name: Dummy steps to test deserialization and syntax of this module
  steps:
    - name: Package must be present
      pacman:
        package: apache
        state: present
    - name: Package must be absent
      pacman:
        package: apache
        state: absent
    - name: Package must be present with upgrade
      pacman:
        package: apache
        state: present
        upgrade: true
        ";

    let parsed_tasklist = TaskList::from_str(raw_tasklist_description, TaskListFormat::Yaml);

    assert!(parsed_tasklist.is_ok());
}

#[test]
fn yumdnf_parsing_yumdnf_module_block_from_yaml_str() {
    let raw_tasklist_description = "---
- name: Dummy steps to test deserialization and syntax of this module
  steps:
    - name: Package must be present (yum)
      yum:
        package: httpd
        state: present
    - name: Package must be present (dnf)
      dnf:
        package: httpd
        state: present
        ";

    let parsed_tasklist = TaskList::from_str(raw_tasklist_description, TaskListFileType::Yaml);

    assert!(parsed_tasklist.is_ok());
}

#[test]
fn service_parsing_service_module_block_from_yaml_str() {
    let raw_tasklist_description = "---
- name: Dummy steps to test deserialization and syntax of this module
  steps:
    - name: Service must be started and enabled
      service:
        name: apache2
        state: started
        enabled: true
    - name: Service must be stopped and disabled
      service:
        name: apache2
        state: stopped
        enabled: false
        ";

    let parsed_tasklist = TaskList::from_str(raw_tasklist_description, TaskListFileType::Yaml);

    assert!(parsed_tasklist.is_ok());
}

#[test]
fn lineinfile_parsing_lineinfile_module_block_from_yaml_str() {
    let raw_tasklist_description = "---
- name: Dummy steps to test deserialization and syntax of this module
  steps:
    - name: Add a line at the top
      lineinfile:
        filepath: /path/to/my/file
        line: the first line
        state: present
        position: top

    - name: Add a line at the 2nd place
      lineinfile:
        filepath: /path/to/my/file
        line: 2nd line
        state: present
        position: 2

    - name: Add a line at the bottom
      lineinfile:
        filepath: /path/to/my/file
        line: the last line
        state: present
        position: bottom

    - name: Remove all occurences of a line based on its content
      lineinfile:
        filepath: /path/to/my/file
        line: the content expected not to be present at all
        state: absent
        ";

    let parsed_tasklist = TaskList::from_str(raw_tasklist_description, TaskListFileType::Yaml);

    assert!(parsed_tasklist.is_ok());
}

#[test]
fn parsing_from_yaml_str() {
    let raw_tasklist_description = "---
- name: Let's install a web server !
  steps:
    - name: First, we test the connectivity and authentication with the host.
      ping:

    - name: Then we can install the package...
      with_sudo: true
      apt:
        package: apache2
        state: present

    - name: ... and start & enable the service.
      with_sudo: true
      service:
        name: apache2
        current_state: started
        auto_start: enabled
        ";

    let parsed_tasklist = TaskList::from_str(raw_tasklist_description, TaskListFileType::Yaml);
    println!("{:?}", parsed_tasklist);
    assert!(parsed_tasklist.is_ok());
}

#[test]
fn parsing_keeps_blocks_steps_and_sudo() {
    let raw_tasklist_description = "---
- name: one block
  steps:
    - name: probe
      ping:
    - name: install
      with_sudo: true
      apt:
        package: nginx
        state: present
        ";

    let tasklist = TaskList::from_str(raw_tasklist_description, TaskListFileType::Yaml).unwrap();
    assert_eq!(tasklist.tasks.len(), 1);
    let block = &tasklist.tasks[0];
    assert_eq!(block.name.as_deref(), Some("one block"));
    assert_eq!(block.steps.len(), 2);
    assert!(matches!(block.steps[0].attribute, ModuleBlockExpectedState::Ping(_)));
    assert_eq!(block.steps[0].with_sudo, None);
    assert!(matches!(block.steps[1].attribute, ModuleBlockExpectedState::Apt(_)));
    assert_eq!(block.steps[1].with_sudo, Some(true));
}

#[test]
fn parsing_from_json_str() {
    let raw_tasklist_description = r#"[
        {"name": "block", "steps": [
            {"name": "probe", "ping": null},
            {"name": "run", "command": {"cmd": "ls -ltrh"}}
        ]}
    ]"#;

    let tasklist = TaskList::from_str(raw_tasklist_description, TaskListFileType::Json).unwrap();
    assert_eq!(tasklist.tasks.len(), 1);
    assert_eq!(tasklist.tasks[0].steps.len(), 2);
}

#[test]
fn rejecting_package_block_with_unknown_field() {
    let raw_tasklist_description = "---
- name: bad block
  steps:
    - name: unknown key sneaks in
      apt:
        package: apache2
        state: absent
        unknown_key: unknown_value
        ";

    let parsed_tasklist = TaskList::from_str(raw_tasklist_description, TaskListFileType::Yaml);
    assert!(parsed_tasklist.is_err());
}

#[test]
fn rejecting_garbage_content() {
    let parsed = TaskList::from_str(": : :", TaskListFileType::Unknown);
    assert!(parsed.is_err());
}

#[test]
fn older_service_spellings_map_onto_the_current_fields() {
    let raw_tasklist_description = "---
- steps:
    - service:
        name: apache2
        state: started
        enabled: true
    - service:
        name: apache2
        state: stopped
        enabled: false
        ";
    let tasklist = TaskList::from_str(raw_tasklist_description, TaskListFileType::Yaml).unwrap();
    let steps = &tasklist.tasks[0].steps;
    match &steps[0].attribute {
        ModuleBlockExpectedState::Service(block) => {
            assert_eq!(block.current_status(), &Some(ServiceExpectedStatus::Active));
            assert_eq!(block.auto_start(), &Some(ServiceExpectedAutoStart::Enabled));
        }
        other => panic!("unexpected block: {:?}", other),
    }
    match &steps[1].attribute {
        ModuleBlockExpectedState::Service(block) => {
            assert_eq!(block.current_status(), &Some(ServiceExpectedStatus::Inactive));
            assert_eq!(block.auto_start(), &Some(ServiceExpectedAutoStart::Disabled));
        }
        other => panic!("unexpected block: {:?}", other),
    }
}
