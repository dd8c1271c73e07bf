use vstd::prelude::*;

use std::collections::HashMap;

use crate::doc::{yaml::doc_from_yaml_str, DocValue};
use crate::error::Error;

verus! {

/// One machine of an inventory: where to reach it, its variables and the
/// groups it belongs to.
#[derive(Debug, Clone, PartialEq)]
pub struct Host {
    pub address: String,
    pub vars: Option<HashMap<String, String>>,
    pub groups: Option<Vec<String>>,
}

impl Host {
    pub fn new() -> (r: Host)
        ensures
            r.address@ == Seq::<char>::empty(),
            r.vars is None,
            r.groups is None,
    {
        Host { address: String::new(), vars: None, groups: None }
    }

    pub fn from_string(address: String) -> (r: Host)
        ensures
            r.address == address,
            r.vars is None,
            r.groups is None,
    {
        Host { address, vars: None, groups: None }
    }

    /// Appends the host to one more group, keeping the order of joining.
    pub fn add_to_group(&mut self, groupname: &str)
        ensures
            final(self).address == old(self).address,
            final(self).vars == old(self).vars,
            match old(self).groups {
                Some(groups) => final(self).groups matches Some(g) && g@.len() == groups@.len() + 1
                    && (forall|i: int| 0 <= i < groups@.len() ==> g@[i] == groups@[i])
                    && g@.last()@ == groupname@,
                None => final(self).groups matches Some(g) && g@.len() == 1 && g@[0]@
                    == groupname@,
            },
    {
        match &mut self.groups {
            Some(group_list) => {
                group_list.push(groupname.to_owned());
            },
            None => {
                let mut group_list: Vec<String> = Vec::new();
                group_list.push(groupname.to_owned());
                self.groups = Some(group_list);
            },
        }
    }

    /// Merges the given variables into the host's own; the host holds
    /// variables afterwards.
    pub fn add_vars(&mut self, newvars: &HashMap<String, String>)
        ensures
            final(self).address == old(self).address,
            final(self).groups == old(self).groups,
            final(self).vars is Some,
    {
        let entries = crate::util::hash_map_entries(newvars);
        if self.vars.is_none() {
            self.vars = Some(HashMap::new());
        }
        match &mut self.vars {
            Some(merged) => {
                let n = entries.len();
                let mut i: usize = 0;
                while i < n
                    invariant
                        0 <= i <= n,
                        n == entries@.len(),
                    decreases n - i,
                {
                    merged.insert(entries[i].0.clone(), entries[i].1.clone());
                    i = i + 1;
                }
            },
            None => {},
        }
    }

    /// Sets one variable; the host holds variables afterwards.
    pub fn add_var(&mut self, key: &str, value: &str)
        ensures
            final(self).address == old(self).address,
            final(self).groups == old(self).groups,
            final(self).vars is Some,
    {
        if self.vars.is_none() {
            self.vars = Some(HashMap::new());
        }
        match &mut self.vars {
            Some(vars) => {
                vars.insert(key.to_owned(), value.to_owned());
            },
            None => {},
        }
    }
}

/// A named group of hosts with shared variables.
#[derive(Debug, Clone, PartialEq)]
pub struct Group {
    pub name: String,
    pub vars: Option<HashMap<String, String>>,
    pub hosts: Option<Vec<String>>,
}

/// A flat host list as an inventory document declares it: the hosts and the
/// variables every host shares.
#[derive(Debug, Clone, PartialEq)]
pub struct HostList {
    pub hosts: Option<Vec<Host>>,
    pub vars: Option<HashMap<String, String>>,
}

impl HostList {
    /// Parses a YAML inventory document: an object with an optional `vars`
    /// table of strings and an optional `hosts` list, each host an object
    /// with a required `address` and optional `vars` and `groups`.
    pub fn from_str(raw_content: &str) -> Result<HostList, Error> {
        let document = match doc_from_yaml_str(raw_content) {
            Ok(d) => d,
            Err(parse_error) => {
                return Err(initialization_error(parse_error));
            },
        };
        let mut hosts: Option<Vec<Host>> = None;
        if let Some(host_docs) = document.get("hosts") {
            match host_docs {
                DocValue::List(items) => {
                    let mut parsed: Vec<Host> = Vec::new();
                    let n = items.len();
                    let mut i: usize = 0;
                    while i < n
                        invariant
                            0 <= i <= n,
                            n == items@.len(),
                        decreases n - i,
                    {
                        match host_from_doc(&items[i]) {
                            Ok(host) => parsed.push(host),
                            Err(conversion_error) => {
                                return Err(conversion_error);
                            },
                        }
                        i = i + 1;
                    }
                    hosts = Some(parsed);
                },
                _ => {
                    return Err(Error::FailedInitialization(String::from_str(
                        "'hosts' must be a list",
                    )));
                },
            }
        }
        let mut vars: Option<HashMap<String, String>> = None;
        if let Some(var_doc) = document.get("vars") {
            match string_map_from_doc(var_doc) {
                Ok(parsed) => {
                    vars = Some(parsed);
                },
                Err(conversion_error) => {
                    return Err(conversion_error);
                },
            }
        }
        Ok(HostList { hosts, vars })
    }
}

/// An inventory keyed by host identifier, with global variables and named
/// groups.
#[derive(Debug, Clone, PartialEq)]
pub struct Inventory {
    pub hosts: HashMap<String, Host>,
    pub global_vars: HashMap<String, String>,
    pub groups: HashMap<String, Vec<String>>,
}

impl Inventory {
    pub fn new() -> Inventory {
        Inventory { hosts: HashMap::new(), global_vars: HashMap::new(), groups: HashMap::new() }
    }

    /// Whether the inventory names no host at all.
    pub fn is_empty(&self) -> bool {
        self.hosts.len() == 0
    }
}

/// The position of the first host carrying this name, where one exists.
pub fn find_host_in_list(hosts_list: &Vec<Host>, host_name: &String) -> (r: Option<usize>)
    ensures
        match r {
            Some(i) => 0 <= i < hosts_list@.len() && hosts_list@[i as int].address@ == host_name@,
            None => forall|k: int|
                0 <= k < hosts_list@.len() ==> (#[trigger] hosts_list@[k]).address@ != host_name@,
        },
{
    let n = hosts_list.len();
    let mut i: usize = 0;
    while i < n
        invariant
            0 <= i <= n,
            n == hosts_list@.len(),
            forall|k: int| 0 <= k < i ==> (#[trigger] hosts_list@[k]).address@ != host_name@,
        decreases n - i,
    {
        if crate::util::str_eq(hosts_list[i].address.as_str(), host_name.as_str()) {
            return Some(i);
        }
        i = i + 1;
    }
    None
}

/// Every address of the list, in order, where the list holds hosts.
pub fn hostlist_get_all_hosts(hostlist: &HostList) -> (r: Option<Vec<String>>)
    ensures
        match hostlist.hosts {
            Some(hosts) => r matches Some(addresses) && addresses@.len() == hosts@.len() && forall|
                i: int,
            |
                0 <= i < addresses@.len() ==> (#[trigger] addresses@[i])@ == hosts@[i].address@,
            None => r is None,
        },
{
    match &hostlist.hosts {
        Some(host_list) => {
            let mut addresses: Vec<String> = Vec::new();
            let n = host_list.len();
            let mut i: usize = 0;
            while i < n
                invariant
                    0 <= i <= n,
                    n == host_list@.len(),
                    addresses@.len() == i,
                    forall|k: int|
                        0 <= k < i ==> (#[trigger] addresses@[k])@ == host_list@[k].address@,
                decreases n - i,
            {
                addresses.push(host_list[i].address.clone());
                i = i + 1;
            }
            Some(addresses)
        },
        None => None,
    }
}

/// One host from its inventory document.
fn host_from_doc(doc: &DocValue) -> Result<Host, Error> {
    let address = match doc.get("address") {
        Some(value) => match value.as_str() {
            Some(text) => text.to_owned(),
            None => {
                return Err(Error::FailedInitialization(String::from_str(
                    "a host's 'address' must be a string",
                )));
            },
        },
        None => {
            return Err(Error::FailedInitialization(String::from_str(
                "a host needs an 'address'",
            )));
        },
    };
    let mut host = Host::from_string(address);
    if let Some(var_doc) = doc.get("vars") {
        match string_map_from_doc(var_doc) {
            Ok(parsed) => {
                host.vars = Some(parsed);
            },
            Err(conversion_error) => {
                return Err(conversion_error);
            },
        }
    }
    if let Some(group_doc) = doc.get("groups") {
        match group_doc {
            DocValue::List(items) => {
                let mut groups: Vec<String> = Vec::new();
                let n = items.len();
                let mut i: usize = 0;
                while i < n
                    invariant
                        0 <= i <= n,
                        n == items@.len(),
                    decreases n - i,
                {
                    match items[i].as_str() {
                        Some(text) => groups.push(text.to_owned()),
                        None => {
                            return Err(Error::FailedInitialization(String::from_str(
                                "a host's groups must be strings",
                            )));
                        },
                    }
                    i = i + 1;
                }
                host.groups = Some(groups);
            },
            _ => {
                return Err(Error::FailedInitialization(String::from_str(
                    "a host's 'groups' must be a list",
                )));
            },
        }
    }
    Ok(host)
}

/// A table of string variables from its document form.
fn string_map_from_doc(doc: &DocValue) -> Result<HashMap<String, String>, Error> {
    match doc {
        DocValue::Object(entries) => {
            let mut vars: HashMap<String, String> = HashMap::new();
            let n = entries.len();
            let mut i: usize = 0;
            while i < n
                invariant
                    0 <= i <= n,
                    n == entries@.len(),
                decreases n - i,
            {
                match entries[i].value.as_str() {
                    Some(text) => {
                        vars.insert(entries[i].key.clone(), text.to_owned());
                    },
                    None => {
                        return Err(Error::FailedInitialization(String::from_str(
                            "variables must map names to strings",
                        )));
                    },
                }
                i = i + 1;
            }
            Ok(vars)
        },
        _ => Err(Error::FailedInitialization(String::from_str("variables must be a table"))),
    }
}

fn initialization_error(parse_error: Error) -> Error {
    match parse_error {
        Error::FailureToParseContent(message) => Error::FailedInitialization(message),
        other => other,
    }
}

} // verus!
