use vstd::prelude::*;

use std::collections::HashMap;

use crate::attribute::apt::PackageExpectedState;
use crate::attribute::lineinfile::{LineExpectedPosition, LineExpectedState};
use crate::attribute::service::{ServiceExpectedAutoStart, ServiceExpectedStatus};
use crate::attribute::{Attribute, AttributeDetail};
use crate::attribute::Remediation;
use crate::compliance::{
    Action, HostComplianceAssessment, HostComplianceResult, HostComplianceStatus,
    ManagedHostStatus,
};
use crate::doc::{doc_to_json, spec_object_lookup, DocEntry, DocValue};
use crate::error::Error;
use crate::expected_state::ExpectedState;
use crate::managed_host::ManagedHost;
use crate::host_handler::HostHandler;
use crate::privilege::{Credentials, Privilege, WhichUser};
use crate::tasklist::module_block_from_doc;

verus! {

/// How an SSH session authenticates, as declarative data: the key material
/// itself is plain text here; the connection substrate outside the library
/// turns it into a live session.
#[derive(Clone)]
pub enum Ssh2AuthMode {
    Unset,
    UsernamePassword(Credentials),
    KeyFile { username: String, key_file_path: String },
    KeyMemory { username: String, pem: String },
}

/// How a managed host is reached: locally under an identity, or over SSH.
#[derive(Clone)]
pub enum HostConnectionInfo {
    LocalCurrentUser,
    LocalPasswordLessUser(String),
    LocalUsernamePassword(Credentials),
    Ssh2(Ssh2AuthMode),
}

impl HostConnectionInfo {
    /// The local identity this connection runs commands under, where it is
    /// a local one.
    pub fn which_user(&self) -> Option<WhichUser> {
        match self {
            HostConnectionInfo::LocalCurrentUser => Some(WhichUser::CurrentUser),
            HostConnectionInfo::LocalPasswordLessUser(username) => Some(
                WhichUser::PasswordLessUser(username.clone()),
            ),
            HostConnectionInfo::LocalUsernamePassword(credentials) => Some(
                WhichUser::UsernamePassword(credentials.clone()),
            ),
            HostConnectionInfo::Ssh2(_) => None,
        }
    }
}

/// The job a work unit carries: assess only, or reach compliance.
#[derive(Debug, Clone, Copy, PartialEq, Eq, Structural)]
pub enum Job {
    Assess,
    Reach,
}

/// What a worker sends back: the correlation identifier of the work unit
/// and the host's terminal state.
#[derive(Debug, Clone)]
pub struct RegentTaskResult {
    correlation_id: String,
    host_status: ManagedHostStatus,
}

impl RegentTaskResult {
    pub closed spec fn spec_correlation_id(&self) -> Seq<char> {
        self.correlation_id@
    }

    pub closed spec fn spec_host_status(&self) -> ManagedHostStatus {
        self.host_status
    }

    pub fn from(correlation_id: String, host_status: ManagedHostStatus) -> (r: RegentTaskResult)
        ensures
            r.spec_correlation_id() == correlation_id@,
            r.spec_host_status() == host_status,
    {
        RegentTaskResult { correlation_id, host_status }
    }

    pub fn correlation_id(&self) -> (r: &str)
        ensures
            r@ == self.spec_correlation_id(),
    {
        self.correlation_id.as_str()
    }

    pub fn host_status(&self) -> (r: &ManagedHostStatus)
        ensures
            *r == self.spec_host_status(),
    {
        &self.host_status
    }
}

/// The name a job carries in the wire format.
pub open spec fn spec_job_name(job: Job) -> Seq<char> {
    match job {
        Job::Assess => "assess"@,
        Job::Reach => "reach"@,
    }
}

/// Relies on nanoid's `format` with its default URL-safe alphabet and
/// random source: a fresh identifier of exactly 21 characters. Nothing
/// more is promised of a random value.
#[verifier::external_body]
fn new_correlation_id() -> (r: String)
    ensures
        r@.len() == 21,
{
    nanoid::format(nanoid::rngs::default, &nanoid::alphabet::SAFE, 21)
}

/// A self-contained unit of work: which host to reach and how, the state it
/// is expected to satisfy, the job to run, and a correlation identifier to
/// track the unit across a distributed architecture. It serializes to JSON
/// so it can be shipped to a worker and executed there.
pub struct RegentTask {
    endpoint: String,
    connection: HostConnectionInfo,
    vars: HashMap<String, String>,
    expected_state: ExpectedState,
    job: Job,
    correlation_id: String,
}

impl RegentTask {
    pub closed spec fn spec_endpoint(&self) -> Seq<char> {
        self.endpoint@
    }

    pub closed spec fn spec_expected_state(&self) -> ExpectedState {
        self.expected_state
    }

    pub closed spec fn spec_job(&self) -> Job {
        self.job
    }

    pub closed spec fn spec_correlation_id(&self) -> Seq<char> {
        self.correlation_id@
    }

    /// A fresh work unit; its correlation identifier is a new 21-character
    /// random name.
    pub fn from(
        endpoint: &str,
        connection: HostConnectionInfo,
        vars: HashMap<String, String>,
        expected_state: ExpectedState,
        job: Job,
    ) -> (r: RegentTask)
        ensures
            r.spec_endpoint() == endpoint@,
            r.spec_expected_state() == expected_state,
            r.spec_job() == job,
            r.spec_correlation_id().len() == 21,
    {
        RegentTask {
            endpoint: endpoint.to_owned(),
            connection,
            vars,
            expected_state,
            job,
            correlation_id: new_correlation_id(),
        }
    }

    pub fn correlation_id(&self) -> (r: &str)
        ensures
            r@ == self.spec_correlation_id(),
    {
        self.correlation_id.as_str()
    }

    pub fn endpoint(&self) -> (r: &str)
        ensures
            r@ == self.spec_endpoint(),
    {
        self.endpoint.as_str()
    }

    pub fn connection(&self) -> &HostConnectionInfo {
        &self.connection
    }

    /// The host's variable context carried with the work unit.
    pub fn vars(&self) -> &HashMap<String, String> {
        &self.vars
    }

    pub fn expected_state(&self) -> (r: &ExpectedState)
        ensures
            *r == self.spec_expected_state(),
    {
        &self.expected_state
    }

    pub fn job(&self) -> (r: Job)
        ensures
            r == self.spec_job(),
    {
        self.job
    }

    /// Executes the work unit with the given handler: connects, runs the
    /// chosen job, and reports the host's terminal state under this unit's
    /// correlation identifier. An assessment reports `AlreadyCompliant` or
    /// `NotCompliant`; a remediation run reports `AlreadyCompliant`,
    /// success or failure.
    pub fn run<Handler: HostHandler>(&self, handler: Handler) -> (r: Result<
        RegentTaskResult,
        Error,
    >)
        ensures
            r matches Ok(res) ==> res.spec_correlation_id() == self.spec_correlation_id(),
            r matches Ok(res) ==> match self.spec_job() {
                Job::Assess => res.spec_host_status().spec_state()
                    == crate::compliance::HostStatus::AlreadyCompliant
                    || res.spec_host_status().spec_state()
                    == crate::compliance::HostStatus::NotCompliant,
                Job::Reach => res.spec_host_status().spec_state()
                    != crate::compliance::HostStatus::NotCompliant,
            },
    {
        let mut host = ManagedHost::from(self.endpoint.as_str(), handler, self.vars.clone());
        match host.connect() {
            Ok(_) => {},
            Err(error_detail) => {
                return Err(error_detail);
            },
        }
        let host_status: ManagedHostStatus = match self.job {
            Job::Assess => {
                let assessment = match host.assess_compliance(&self.expected_state) {
                    Ok(a) => a,
                    Err(error_detail) => {
                        return Err(error_detail);
                    },
                };
                match assessment.status() {
                    HostComplianceStatus::AlreadyCompliant => ManagedHostStatus::already_compliant(),
                    _ => ManagedHostStatus::not_compliant(remediations_of_assessment(&assessment)),
                }
            },
            Job::Reach => {
                let outcome = match host.reach_compliance(&self.expected_state) {
                    Ok(o) => o,
                    Err(error_detail) => {
                        return Err(error_detail);
                    },
                };
                match outcome.status() {
                    HostComplianceStatus::AlreadyCompliant => ManagedHostStatus::already_compliant(),
                    HostComplianceStatus::FailedReachedCompliance => ManagedHostStatus::reach_compliance_failed(
                        actions_of_result(&outcome),
                    ),
                    _ => ManagedHostStatus::reach_compliance_success(actions_of_result(&outcome)),
                }
            },
        };
        Ok(RegentTaskResult::from(self.correlation_id.clone(), host_status))
    }

    /// The work unit as JSON text, ready for the wire. Credentials and key
    /// material are retained: transport is expected to be a secure channel.
    /// The document it renders carries the shape [`Self::to_doc`] states;
    /// the text itself crosses the serde boundary on the way back in.
    pub fn to_json(&self) -> Result<String, Error> {
        let document = self.to_doc()?;
        Ok(doc_to_json(&document))
    }

    /// A work unit read back from its JSON form; the fields it reconstructs
    /// are tied to the document's entries by [`Self::from_doc`]'s contract.
    pub fn from_json(raw_content: &str) -> Result<RegentTask, Error> {
        match crate::doc::json::doc_from_json_str(raw_content) {
            Ok(document) => RegentTask::from_doc(&document),
            Err(parse_error) => Err(parse_error),
        }
    }

    /// The §-four-key shape a work unit takes on the wire: `host` (with its
    /// `endpoint`, `connection` and `vars`), `expected_state`, `job` and
    /// `correlation_id`. Together with [`Self::from_doc`]'s contract,
    /// reading a written document back preserves the correlation
    /// identifier, the endpoint and the job.
    pub fn to_doc(&self) -> (r: Result<DocValue, Error>)
        ensures
            r matches Ok(doc) ==> (doc matches DocValue::Object(entries) && {
                &&& (spec_object_lookup(entries@, "correlation_id"@) matches Some(cv) && (cv
                    matches DocValue::Str(c) && c@ == self.spec_correlation_id()))
                &&& (spec_object_lookup(entries@, "job"@) matches Some(jv) && (jv matches
                DocValue::Str(j) && j@ == spec_job_name(self.spec_job())))
                &&& (spec_object_lookup(entries@, "host"@) matches Some(hv) && (hv matches
                DocValue::Object(host_entries) && (spec_object_lookup(host_entries@, "endpoint"@)
                    matches Some(ev) && (ev matches DocValue::Str(s) && s@
                    == self.spec_endpoint()))))
                &&& (spec_object_lookup(entries@, "expected_state"@) matches Some(sv) && (sv
                    matches DocValue::List(items) && items@.len()
                    == self.spec_expected_state().attributes@.len()))
            }),
    {
        let mut host_entries: Vec<DocEntry> = Vec::new();
        host_entries.push(
            DocEntry {
                key: String::from_str("endpoint"),
                value: DocValue::Str(self.endpoint.clone()),
            },
        );
        host_entries.push(
            DocEntry {
                key: String::from_str("connection"),
                value: connection_to_doc(&self.connection),
            },
        );
        host_entries.push(
            DocEntry { key: String::from_str("vars"), value: vars_to_doc(&self.vars) },
        );
        let ghost host_entries_view = host_entries@;
        let mut attribute_docs: Vec<DocValue> = Vec::new();
        let n = self.expected_state.attributes.len();
        let mut i: usize = 0;
        while i < n
            invariant
                0 <= i <= n,
                n == self.expected_state.attributes@.len(),
                attribute_docs@.len() == i,
            decreases n - i,
        {
            match attribute_to_doc(&self.expected_state.attributes[i]) {
                Ok(doc) => attribute_docs.push(doc),
                Err(conversion_error) => {
                    return Err(conversion_error);
                },
            }
            i = i + 1;
        }
        let ghost attribute_docs_view = attribute_docs@;
        let job_name = match self.job {
            Job::Assess => String::from_str("assess"),
            Job::Reach => String::from_str("reach"),
        };
        let mut entries: Vec<DocEntry> = Vec::new();
        entries.push(
            DocEntry { key: String::from_str("host"), value: DocValue::Object(host_entries) },
        );
        entries.push(
            DocEntry {
                key: String::from_str("expected_state"),
                value: DocValue::List(attribute_docs),
            },
        );
        entries.push(DocEntry { key: String::from_str("job"), value: DocValue::Str(job_name) });
        entries.push(
            DocEntry {
                key: String::from_str("correlation_id"),
                value: DocValue::Str(self.correlation_id.clone()),
            },
        );
        proof {
            reveal_strlit("host");
            reveal_strlit("expected_state");
            reveal_strlit("job");
            reveal_strlit("correlation_id");
            reveal_strlit("endpoint");
            let es = entries@;
            let s1 = es.skip(1);
            let s2 = es.skip(2);
            let s3 = es.skip(3);
            assert(s1[0] == es[1] && s2[0] == es[2] && s3[0] == es[3]);
            assert("host"@.len() == 4);
            assert("expected_state"@.len() == 14);
            assert("job"@.len() == 3);
            assert("correlation_id"@.len() == 14);
            assert("expected_state"@[0] == 'e' && "correlation_id"@[0] == 'c');
            assert(s1.skip(1) =~= s2);
            assert(s2.skip(1) =~= s3);
            assert(s3.skip(1) =~= es.skip(4));
            assert(es.skip(4) =~= Seq::<DocEntry>::empty());
            assert(spec_object_lookup(es, "host"@) == Some(es[0].value));
            assert(spec_object_lookup(s1, "expected_state"@) == Some(s1[0].value));
            assert(spec_object_lookup(es, "expected_state"@) == spec_object_lookup(
                s1,
                "expected_state"@,
            ));
            assert(spec_object_lookup(s2, "job"@) == Some(s2[0].value));
            assert(spec_object_lookup(s1, "job"@) == spec_object_lookup(s2, "job"@));
            assert(spec_object_lookup(es, "job"@) == spec_object_lookup(s1, "job"@));
            assert(spec_object_lookup(s3, "correlation_id"@) == Some(s3[0].value));
            assert(spec_object_lookup(s2, "correlation_id"@) == spec_object_lookup(
                s3,
                "correlation_id"@,
            ));
            assert(spec_object_lookup(s1, "correlation_id"@) == spec_object_lookup(
                s2,
                "correlation_id"@,
            ));
            assert(spec_object_lookup(es, "correlation_id"@) == spec_object_lookup(
                s1,
                "correlation_id"@,
            ));
            assert(es[0].value matches DocValue::Object(h) && h@ == host_entries_view);
            assert(host_entries_view.len() > 0 && host_entries_view[0].key@ == "endpoint"@);
            assert(spec_object_lookup(host_entries_view, "endpoint"@) == Some(
                host_entries_view[0].value,
            ));
        }
        Ok(DocValue::Object(entries))
    }

    /// A work unit from its document form: the read-back fields are tied
    /// to the document's own entries, so a document written by
    /// [`Self::to_doc`] reads back with the same correlation identifier,
    /// endpoint and job.
    pub fn from_doc(document: &DocValue) -> (r: Result<RegentTask, Error>)
        ensures
            r matches Ok(t) ==> (document matches DocValue::Object(entries) && {
                &&& (spec_object_lookup(entries@, "correlation_id"@) matches Some(cv) && (cv
                    matches DocValue::Str(c) && t.spec_correlation_id() == c@))
                &&& (spec_object_lookup(entries@, "job"@) matches Some(jv) && (jv matches
                DocValue::Str(j) && spec_job_name(t.spec_job()) == j@))
                &&& (spec_object_lookup(entries@, "host"@) matches Some(hv) && (hv matches
                DocValue::Object(host_entries) && (spec_object_lookup(host_entries@, "endpoint"@)
                    matches Some(ev) && (ev matches DocValue::Str(s) && t.spec_endpoint()
                    == s@))))
            }),
    {
        let host_doc = match document.get("host") {
            Some(value) => value,
            None => {
                return Err(Error::FailureToParseContent(String::from_str(
                    "a work unit needs a 'host'",
                )));
            },
        };
        let endpoint = match host_doc.get("endpoint") {
            Some(value) => match value.as_str() {
                Some(text) => text.to_owned(),
                None => {
                    return Err(Error::FailureToParseContent(String::from_str(
                        "a host's 'endpoint' must be a string",
                    )));
                },
            },
            None => {
                return Err(Error::FailureToParseContent(String::from_str(
                    "a host needs an 'endpoint'",
                )));
            },
        };
        let connection = match host_doc.get("connection") {
            Some(value) => connection_from_doc(value)?,
            None => {
                return Err(Error::FailureToParseContent(String::from_str(
                    "a host needs a 'connection'",
                )));
            },
        };
        let vars = match host_doc.get("vars") {
            Some(value) => vars_from_doc(value)?,
            None => HashMap::new(),
        };
        let mut attributes: Vec<Attribute> = Vec::new();
        match document.get("expected_state") {
            Some(DocValue::List(items)) => {
                let n = items.len();
                let mut i: usize = 0;
                while i < n
                    invariant
                        0 <= i <= n,
                        n == items@.len(),
                    decreases n - i,
                {
                    match attribute_from_doc(&items[i]) {
                        Ok(attribute) => attributes.push(attribute),
                        Err(conversion_error) => {
                            return Err(conversion_error);
                        },
                    }
                    i = i + 1;
                }
            },
            _ => {
                return Err(Error::FailureToParseContent(String::from_str(
                    "a work unit needs an 'expected_state' list",
                )));
            },
        }
        let job = match document.get("job") {
            Some(value) => match value.as_str() {
                Some(text) => {
                    if crate::util::str_eq(text, "assess") {
                        Job::Assess
                    } else if crate::util::str_eq(text, "reach") {
                        Job::Reach
                    } else {
                        return Err(Error::FailureToParseContent(String::from_str(
                            "'job' is 'assess' or 'reach'",
                        )));
                    }
                },
                None => {
                    return Err(Error::FailureToParseContent(String::from_str(
                        "'job' is 'assess' or 'reach'",
                    )));
                },
            },
            None => {
                return Err(Error::FailureToParseContent(String::from_str(
                    "a work unit needs a 'job'",
                )));
            },
        };
        let correlation_id = match document.get("correlation_id") {
            Some(value) => match value.as_str() {
                Some(text) => text.to_owned(),
                None => {
                    return Err(Error::FailureToParseContent(String::from_str(
                        "'correlation_id' must be a string",
                    )));
                },
            },
            None => {
                return Err(Error::FailureToParseContent(String::from_str(
                    "a work unit needs a 'correlation_id'",
                )));
            },
        };
        Ok(
            RegentTask {
                endpoint,
                connection,
                vars,
                expected_state: ExpectedState { attributes },
                job,
                correlation_id,
            },
        )
    }
}

/// Every remediation an assessment proposes, attribute by attribute, in
/// declaration order.
fn remediations_of_assessment(assessment: &HostComplianceAssessment) -> Vec<Remediation> {
    let mut remediations: Vec<Remediation> = Vec::new();
    let entries = assessment.attributes_compliance_assessment();
    let n = entries.len();
    let mut i: usize = 0;
    while i < n
        invariant
            0 <= i <= n,
            n == entries@.len(),
        decreases n - i,
    {
        let listed = entries[i].1.remediations();
        let m = listed.len();
        let mut j: usize = 0;
        while j < m
            invariant
                0 <= j <= m,
                m == listed@.len(),
            decreases m - j,
        {
            remediations.push(listed[j].duplicate());
            j = j + 1;
        }
        i = i + 1;
    }
    remediations
}

/// Every action a remediation run took, attribute by attribute, each with
/// its outcome.
fn actions_of_result(outcome: &HostComplianceResult) -> Vec<Action> {
    let mut actions: Vec<Action> = Vec::new();
    let entries = outcome.actions_taken();
    let n = entries.len();
    let mut i: usize = 0;
    while i < n
        invariant
            0 <= i <= n,
            n == entries@.len(),
        decreases n - i,
    {
        match entries[i].1.details() {
            Some(listed) => {
                let m = listed.len();
                let mut j: usize = 0;
                while j < m
                    invariant
                        0 <= j <= m,
                        m == listed@.len(),
                    decreases m - j,
                {
                    actions.push(
                        Action::from(listed[j].0.duplicate(), Some(listed[j].1.duplicate())),
                    );
                    j = j + 1;
                }
            },
            None => {},
        }
        i = i + 1;
    }
    actions
}

fn vars_to_doc(vars: &HashMap<String, String>) -> DocValue {
    let pairs = crate::util::hash_map_entries(vars);
    let mut entries: Vec<DocEntry> = Vec::new();
    let n = pairs.len();
    let mut i: usize = 0;
    while i < n
        invariant
            0 <= i <= n,
            n == pairs@.len(),
        decreases n - i,
    {
        entries.push(
            DocEntry { key: pairs[i].0.clone(), value: DocValue::Str(pairs[i].1.clone()) },
        );
        i = i + 1;
    }
    DocValue::Object(entries)
}

fn vars_from_doc(document: &DocValue) -> Result<HashMap<String, String>, Error> {
    match document {
        DocValue::Object(entries) => {
            let mut vars: HashMap<String, String> = HashMap::new();
            let n = entries.len();
            let mut i: usize = 0;
            while i < n
                invariant
                    0 <= i <= n,
                    n == entries@.len(),
                decreases n - i,
            {
                match entries[i].value.as_str() {
                    Some(text) => {
                        vars.insert(entries[i].key.clone(), text.to_owned());
                    },
                    None => {
                        return Err(Error::FailureToParseContent(String::from_str(
                            "'vars' maps names to strings",
                        )));
                    },
                }
                i = i + 1;
            }
            Ok(vars)
        },
        _ => Err(Error::FailureToParseContent(String::from_str("'vars' must be a table"))),
    }
}

fn connection_to_doc(connection: &HostConnectionInfo) -> DocValue {
    let mut entries: Vec<DocEntry> = Vec::new();
    match connection {
        HostConnectionInfo::LocalCurrentUser => {
            entries.push(
                DocEntry {
                    key: String::from_str("kind"),
                    value: DocValue::Str(String::from_str("local_current_user")),
                },
            );
        },
        HostConnectionInfo::LocalPasswordLessUser(username) => {
            entries.push(
                DocEntry {
                    key: String::from_str("kind"),
                    value: DocValue::Str(String::from_str("local_passwordless_user")),
                },
            );
            entries.push(
                DocEntry {
                    key: String::from_str("username"),
                    value: DocValue::Str(username.clone()),
                },
            );
        },
        HostConnectionInfo::LocalUsernamePassword(credentials) => {
            entries.push(
                DocEntry {
                    key: String::from_str("kind"),
                    value: DocValue::Str(String::from_str("local_username_password")),
                },
            );
            entries.push(
                DocEntry {
                    key: String::from_str("username"),
                    value: DocValue::Str(credentials.username().to_owned()),
                },
            );
            entries.push(
                DocEntry {
                    key: String::from_str("password"),
                    value: DocValue::Str(credentials.password().to_owned()),
                },
            );
        },
        HostConnectionInfo::Ssh2(auth) => {
            entries.push(
                DocEntry {
                    key: String::from_str("kind"),
                    value: DocValue::Str(String::from_str("ssh2")),
                },
            );
            entries.push(DocEntry { key: String::from_str("auth"), value: auth_to_doc(auth) });
        },
    }
    DocValue::Object(entries)
}

fn auth_to_doc(auth: &Ssh2AuthMode) -> DocValue {
    let mut entries: Vec<DocEntry> = Vec::new();
    match auth {
        Ssh2AuthMode::Unset => {
            entries.push(
                DocEntry {
                    key: String::from_str("mode"),
                    value: DocValue::Str(String::from_str("unset")),
                },
            );
        },
        Ssh2AuthMode::UsernamePassword(credentials) => {
            entries.push(
                DocEntry {
                    key: String::from_str("mode"),
                    value: DocValue::Str(String::from_str("username_password")),
                },
            );
            entries.push(
                DocEntry {
                    key: String::from_str("username"),
                    value: DocValue::Str(credentials.username().to_owned()),
                },
            );
            entries.push(
                DocEntry {
                    key: String::from_str("password"),
                    value: DocValue::Str(credentials.password().to_owned()),
                },
            );
        },
        Ssh2AuthMode::KeyFile { username, key_file_path } => {
            entries.push(
                DocEntry {
                    key: String::from_str("mode"),
                    value: DocValue::Str(String::from_str("key_file")),
                },
            );
            entries.push(
                DocEntry {
                    key: String::from_str("username"),
                    value: DocValue::Str(username.clone()),
                },
            );
            entries.push(
                DocEntry {
                    key: String::from_str("key_file_path"),
                    value: DocValue::Str(key_file_path.clone()),
                },
            );
        },
        Ssh2AuthMode::KeyMemory { username, pem } => {
            entries.push(
                DocEntry {
                    key: String::from_str("mode"),
                    value: DocValue::Str(String::from_str("key_memory")),
                },
            );
            entries.push(
                DocEntry {
                    key: String::from_str("username"),
                    value: DocValue::Str(username.clone()),
                },
            );
            entries.push(
                DocEntry { key: String::from_str("pem"), value: DocValue::Str(pem.clone()) },
            );
        },
    }
    DocValue::Object(entries)
}

fn connection_from_doc(document: &DocValue) -> Result<HostConnectionInfo, Error> {
    let kind = match document.get("kind") {
        Some(value) => match value.as_str() {
            Some(text) => text,
            None => {
                return Err(Error::FailureToParseContent(String::from_str(
                    "a connection's 'kind' must be a string",
                )));
            },
        },
        None => {
            return Err(Error::FailureToParseContent(String::from_str(
                "a connection needs a 'kind'",
            )));
        },
    };
    if crate::util::str_eq(kind, "local_current_user") {
        return Ok(HostConnectionInfo::LocalCurrentUser);
    }
    if crate::util::str_eq(kind, "local_passwordless_user") {
        let username = required_string(document, "username")?;
        return Ok(HostConnectionInfo::LocalPasswordLessUser(username));
    }
    if crate::util::str_eq(kind, "local_username_password") {
        let username = required_string(document, "username")?;
        let password = required_string(document, "password")?;
        return Ok(
            HostConnectionInfo::LocalUsernamePassword(
                Credentials::from(username.as_str(), password.as_str()),
            ),
        );
    }
    if crate::util::str_eq(kind, "ssh2") {
        let auth_doc = match document.get("auth") {
            Some(value) => value,
            None => {
                return Err(Error::FailureToParseContent(String::from_str(
                    "an ssh2 connection needs an 'auth'",
                )));
            },
        };
        return Ok(HostConnectionInfo::Ssh2(auth_from_doc(auth_doc)?));
    }
    Err(Error::FailureToParseContent(String::from_str("unknown connection kind")))
}

fn auth_from_doc(document: &DocValue) -> Result<Ssh2AuthMode, Error> {
    let mode = match document.get("mode") {
        Some(value) => match value.as_str() {
            Some(text) => text,
            None => {
                return Err(Error::FailureToParseContent(String::from_str(
                    "an auth 'mode' must be a string",
                )));
            },
        },
        None => {
            return Err(Error::FailureToParseContent(String::from_str(
                "an auth needs a 'mode'",
            )));
        },
    };
    if crate::util::str_eq(mode, "unset") {
        return Ok(Ssh2AuthMode::Unset);
    }
    if crate::util::str_eq(mode, "username_password") {
        let username = required_string(document, "username")?;
        let password = required_string(document, "password")?;
        return Ok(
            Ssh2AuthMode::UsernamePassword(
                Credentials::from(username.as_str(), password.as_str()),
            ),
        );
    }
    if crate::util::str_eq(mode, "key_file") {
        let username = required_string(document, "username")?;
        let key_file_path = required_string(document, "key_file_path")?;
        return Ok(Ssh2AuthMode::KeyFile { username, key_file_path });
    }
    if crate::util::str_eq(mode, "key_memory") {
        let username = required_string(document, "username")?;
        let pem = required_string(document, "pem")?;
        return Ok(Ssh2AuthMode::KeyMemory { username, pem });
    }
    Err(Error::FailureToParseContent(String::from_str("unknown auth mode")))
}

fn required_string(document: &DocValue, key: &str) -> Result<String, Error> {
    match document.get(key) {
        Some(value) => match value.as_str() {
            Some(text) => Ok(text.to_owned()),
            None => Err(Error::FailureToParseContent(String::from_str(
                "expected a string field",
            ))),
        },
        None => Err(Error::FailureToParseContent(String::from_str("a required field is missing"))),
    }
}

fn privilege_name(privilege: Privilege) -> (r: String)
    ensures
        match privilege {
            Privilege::Usual => r@ == "usual"@,
            Privilege::WithSudo => r@ == "with_sudo"@,
            Privilege::WithSudoRs => r@ == "with_sudo_rs"@,
        },
{
    match privilege {
        Privilege::Usual => String::from_str("usual"),
        Privilege::WithSudo => String::from_str("with_sudo"),
        Privilege::WithSudoRs => String::from_str("with_sudo_rs"),
    }
}

/// One attribute as a document: its privilege and its module block, keyed
/// by module name exactly as an expected-state document declares it.
pub fn attribute_to_doc(attribute: &Attribute) -> Result<DocValue, Error> {
    let mut entries: Vec<DocEntry> = Vec::new();
    entries.push(
        DocEntry {
            key: String::from_str("privilege"),
            value: DocValue::Str(privilege_name(attribute.privilege)),
        },
    );
    let (key, block_doc): (&str, DocValue) = match &attribute.detail {
        AttributeDetail::Apt(block) => (
            "apt",
            package_block_to_doc(block.state(), block.package(), block.upgrade()),
        ),
        AttributeDetail::Pacman(block) => (
            "pacman",
            package_block_to_doc(block.state(), block.package(), block.upgrade()),
        ),
        AttributeDetail::YumDnf(block) => (
            "dnf",
            package_block_to_doc(block.state(), block.package(), block.upgrade()),
        ),
        AttributeDetail::Service(block) => {
            let mut fields: Vec<DocEntry> = Vec::new();
            fields.push(
                DocEntry {
                    key: String::from_str("name"),
                    value: DocValue::Str(block.name().to_owned()),
                },
            );
            match block.current_status() {
                Some(ServiceExpectedStatus::Active) => fields.push(
                    DocEntry {
                        key: String::from_str("current_status"),
                        value: DocValue::Str(String::from_str("active")),
                    },
                ),
                Some(ServiceExpectedStatus::Inactive) => fields.push(
                    DocEntry {
                        key: String::from_str("current_status"),
                        value: DocValue::Str(String::from_str("inactive")),
                    },
                ),
                None => {},
            }
            match block.auto_start() {
                Some(ServiceExpectedAutoStart::Enabled) => fields.push(
                    DocEntry {
                        key: String::from_str("auto_start"),
                        value: DocValue::Str(String::from_str("enabled")),
                    },
                ),
                Some(ServiceExpectedAutoStart::Disabled) => fields.push(
                    DocEntry {
                        key: String::from_str("auto_start"),
                        value: DocValue::Str(String::from_str("disabled")),
                    },
                ),
                None => {},
            }
            match block.existence() {
                Some(flag) => fields.push(
                    DocEntry { key: String::from_str("exists"), value: DocValue::Bool(*flag) },
                ),
                None => {},
            }
            ("service", DocValue::Object(fields))
        },
        AttributeDetail::LineInFile(block) => {
            let mut fields: Vec<DocEntry> = Vec::new();
            fields.push(
                DocEntry {
                    key: String::from_str("filepath"),
                    value: DocValue::Str(block.filepath().to_owned()),
                },
            );
            match block.line() {
                Some(line) => fields.push(
                    DocEntry { key: String::from_str("line"), value: DocValue::Str(line.clone()) },
                ),
                None => {},
            }
            let state_name = match block.state() {
                LineExpectedState::Present => String::from_str("present"),
                LineExpectedState::Absent => String::from_str("absent"),
            };
            fields.push(
                DocEntry { key: String::from_str("state"), value: DocValue::Str(state_name) },
            );
            match block.position() {
                Some(LineExpectedPosition::Top) => fields.push(
                    DocEntry {
                        key: String::from_str("position"),
                        value: DocValue::Str(String::from_str("top")),
                    },
                ),
                Some(LineExpectedPosition::Bottom) => fields.push(
                    DocEntry {
                        key: String::from_str("position"),
                        value: DocValue::Str(String::from_str("bottom")),
                    },
                ),
                Some(LineExpectedPosition::Anywhere) => fields.push(
                    DocEntry {
                        key: String::from_str("position"),
                        value: DocValue::Str(String::from_str("anywhere")),
                    },
                ),
                Some(LineExpectedPosition::SpecificLineNumber(line_number)) => {
                    if *line_number > (i64::MAX as u64) {
                        return Err(Error::FailureToParseContent(String::from_str(
                            "a position line number is too large for the wire format",
                        )));
                    }
                    fields.push(
                        DocEntry {
                            key: String::from_str("position"),
                            value: DocValue::Int(*line_number as i64),
                        },
                    );
                },
                None => {},
            }
            ("lineinfile", DocValue::Object(fields))
        },
        AttributeDetail::Command(block) => {
            let mut fields: Vec<DocEntry> = Vec::new();
            fields.push(
                DocEntry {
                    key: String::from_str("cmd"),
                    value: DocValue::Str(block.cmd().to_owned()),
                },
            );
            ("command", DocValue::Object(fields))
        },
        AttributeDetail::Ping(_) => ("ping", DocValue::Null),
        AttributeDetail::Debug(block) => {
            let mut fields: Vec<DocEntry> = Vec::new();
            fields.push(
                DocEntry {
                    key: String::from_str("msg"),
                    value: DocValue::Str(block.msg().to_owned()),
                },
            );
            ("debug", DocValue::Object(fields))
        },
    };
    entries.push(DocEntry { key: key.to_owned(), value: block_doc });
    Ok(DocValue::Object(entries))
}

fn package_block_to_doc(
    state: &Option<PackageExpectedState>,
    package: &Option<String>,
    upgrade: &Option<bool>,
) -> DocValue {
    let mut fields: Vec<DocEntry> = Vec::new();
    match package {
        Some(name) => fields.push(
            DocEntry { key: String::from_str("package"), value: DocValue::Str(name.clone()) },
        ),
        None => {},
    }
    match state {
        Some(PackageExpectedState::Present) => fields.push(
            DocEntry {
                key: String::from_str("state"),
                value: DocValue::Str(String::from_str("present")),
            },
        ),
        Some(PackageExpectedState::Absent) => fields.push(
            DocEntry {
                key: String::from_str("state"),
                value: DocValue::Str(String::from_str("absent")),
            },
        ),
        None => {},
    }
    match upgrade {
        Some(flag) => fields.push(
            DocEntry { key: String::from_str("upgrade"), value: DocValue::Bool(*flag) },
        ),
        None => {},
    }
    DocValue::Object(fields)
}

/// One attribute read back from its document form: the module block under
/// its key, run under the named privilege.
pub fn attribute_from_doc(document: &DocValue) -> Result<Attribute, Error> {
    let privilege = match document.get("privilege") {
        Some(value) => match value.as_str() {
            Some(text) => {
                if crate::util::str_eq(text, "usual") {
                    Privilege::Usual
                } else if crate::util::str_eq(text, "with_sudo") {
                    Privilege::WithSudo
                } else if crate::util::str_eq(text, "with_sudo_rs") {
                    Privilege::WithSudoRs
                } else {
                    return Err(Error::FailureToParseContent(String::from_str(
                        "unknown privilege name",
                    )));
                }
            },
            None => {
                return Err(Error::FailureToParseContent(String::from_str(
                    "'privilege' must be a string",
                )));
            },
        },
        None => Privilege::Usual,
    };
    let block = module_block_from_doc(document)?;
    match block.to_attribute(privilege) {
        Some(attribute) => Ok(attribute),
        None => Err(Error::FailureToParseContent(String::from_str(
            "an attribute document names no module",
        ))),
    }
}

} // verus!
