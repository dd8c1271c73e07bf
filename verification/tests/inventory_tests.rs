use std::collections::HashMap;

use regent_sdk::{find_host_in_list, Host, HostList};

#[test]
fn host_building() {
    // New host from_string
    let mut host = Host::from_string("192.168.1.1".to_string());

    assert_eq!(host.address, "192.168.1.1");
    assert_eq!(host.vars, None);
    assert_eq!(host.groups, None);

    // Add variables
    host.add_var("key1", "value1");
    host.add_var("key2", "value2");

    let mut expected_vars = HashMap::new();
    expected_vars.insert("key1".to_string(), "value1".to_string());
    expected_vars.insert("key2".to_string(), "value2".to_string());
    assert_eq!(host.vars, Some(expected_vars));

    // Add groups
    host.add_to_group("web_servers");
    host.add_to_group("database");

    assert_eq!(
        host.groups,
        Some(vec!["web_servers".to_string(), "database".to_string()])
    );
}

#[test]
fn test_hostlist_from_str() {
    let yaml_content = r#"
vars:
    global_key: global_value

hosts:
    - address: host1.example.com
      vars:
        key1: value1
      groups:
        - webserver
    - address: host2.example.com
      vars:
        key2: value2
      groups:
        - database
"#;
    let hostlist = HostList::from_str(yaml_content).unwrap();
    assert!(hostlist.hosts.is_some());

    let hosts = hostlist.hosts.unwrap();
    assert_eq!(hosts.len(), 2);
    assert_eq!(hosts[0].address, "host1.example.com");
    assert_eq!(hosts[1].address, "host2.example.com");
}

#[test]
fn finding_hosts_in_given_list() {
    let hosts_list: Vec<Host> = vec![
        Host::from_string("10.20.30.51".into()),
        Host::from_string("10.20.30.52".into()),
        Host::from_string("10.20.30.53".into()),
    ];

    assert!(find_host_in_list(&hosts_list, &"10.20.30.51".to_string()).is_some());
    assert!(find_host_in_list(&hosts_list, &"192.168.10.25".to_string()).is_none());
}

#[test]
fn hostlist_addresses_come_out_in_order() {
    let hostlist = HostList {
        hosts: Some(vec![
            Host::from_string("a.example.com".into()),
            Host::from_string("b.example.com".into()),
        ]),
        vars: None,
    };
    let addresses = regent_sdk::hostlist_get_all_hosts(&hostlist).unwrap();
    assert_eq!(addresses, vec!["a.example.com".to_string(), "b.example.com".to_string()]);

    let empty = HostList { hosts: None, vars: None };
    assert!(regent_sdk::hostlist_get_all_hosts(&empty).is_none());
}
