use vstd::prelude::*;

use crate::attribute::apt::{AptBlockExpectedState, PackageExpectedState};
use crate::attribute::command::CommandBlockExpectedState;
use crate::attribute::debug::DebugBlockExpectedState;
use crate::attribute::lineinfile::{
    LineExpectedPosition, LineExpectedState, LineInFileBlockExpectedState,
};
use crate::attribute::pacman::PacmanBlockExpectedState;
use crate::attribute::ping::PingBlockExpectedState;
use crate::attribute::service::{
    ServiceBlockExpectedState, ServiceExpectedAutoStart, ServiceExpectedStatus,
};
use crate::attribute::yumdnf::YumDnfBlockExpectedState;
use crate::attribute::{Attribute, AttributeDetail};
use crate::compliance::AttributeComplianceAssessment;
use crate::doc::json::doc_from_json_str;
use crate::doc::yaml::doc_from_yaml_str;
use crate::doc::{map_keys_subset, DocValue};
use crate::error::Error;
use crate::host_handler::{spec_appended_only, HostHandler};
use crate::privilege::Privilege;

verus! {

/// Whether a run only reports what would change, or applies it.
#[derive(Debug, Clone, Copy, PartialEq, Eq, Structural)]
pub enum RunningMode {
    DryRun,
    Apply,
}

/// The format a task list document comes in.
#[derive(Debug, Clone, Copy, PartialEq, Eq, Structural)]
pub enum TaskListFileType {
    Yaml,
    Json,
    Unknown,
}

/// The older name of [`TaskListFileType`], kept for callers that use it.
pub type TaskListFormat = TaskListFileType;

/// The validation capability every expected-state block offers.
pub trait Check {
    fn check(&self) -> Result<(), Error>;
}

/// One declarative block of a task list step, keyed by module name in the
/// document form.
#[derive(Debug, Clone)]
pub enum ModuleBlockExpectedState {
    /// No module was named; used for initialization and errors.
    Unset,
    Service(ServiceBlockExpectedState),
    Debug(DebugBlockExpectedState),
    LineInFile(LineInFileBlockExpectedState),
    Command(CommandBlockExpectedState),
    Apt(AptBlockExpectedState),
    Dnf(YumDnfBlockExpectedState),
    Ping(PingBlockExpectedState),
    Yum(YumDnfBlockExpectedState),
    Pacman(PacmanBlockExpectedState),
}

impl ModuleBlockExpectedState {
    pub fn new() -> (r: ModuleBlockExpectedState)
        ensures
            r matches ModuleBlockExpectedState::Unset,
    {
        ModuleBlockExpectedState::Unset
    }

    /// The attribute descriptor this block stands for, where one was named.
    pub open spec fn spec_detail_of(&self) -> Option<AttributeDetail> {
        match self {
            ModuleBlockExpectedState::Unset => None,
            ModuleBlockExpectedState::Service(block) => Some(AttributeDetail::Service(*block)),
            ModuleBlockExpectedState::Debug(block) => Some(AttributeDetail::Debug(*block)),
            ModuleBlockExpectedState::LineInFile(block) => Some(AttributeDetail::LineInFile(*block)),
            ModuleBlockExpectedState::Command(block) => Some(AttributeDetail::Command(*block)),
            ModuleBlockExpectedState::Apt(block) => Some(AttributeDetail::Apt(*block)),
            ModuleBlockExpectedState::Dnf(block) => Some(AttributeDetail::YumDnf(*block)),
            ModuleBlockExpectedState::Ping(block) => Some(AttributeDetail::Ping(*block)),
            ModuleBlockExpectedState::Yum(block) => Some(AttributeDetail::YumDnf(*block)),
            ModuleBlockExpectedState::Pacman(block) => Some(AttributeDetail::Pacman(*block)),
        }
    }

    /// The attribute descriptor this block stands for, where one was named.
    pub fn to_detail(&self) -> (r: Option<AttributeDetail>)
        ensures
            r == self.spec_detail_of(),
    {
        match self {
            ModuleBlockExpectedState::Unset => None,
            ModuleBlockExpectedState::Service(block) => Some(
                AttributeDetail::Service(block.duplicate()),
            ),
            ModuleBlockExpectedState::Debug(block) => Some(
                AttributeDetail::Debug(block.duplicate()),
            ),
            ModuleBlockExpectedState::LineInFile(block) => Some(
                AttributeDetail::LineInFile(block.duplicate()),
            ),
            ModuleBlockExpectedState::Command(block) => Some(
                AttributeDetail::Command(block.duplicate()),
            ),
            ModuleBlockExpectedState::Apt(block) => Some(AttributeDetail::Apt(block.duplicate())),
            ModuleBlockExpectedState::Dnf(block) => Some(
                AttributeDetail::YumDnf(block.duplicate()),
            ),
            ModuleBlockExpectedState::Ping(block) => Some(AttributeDetail::Ping(*block)),
            ModuleBlockExpectedState::Yum(block) => Some(
                AttributeDetail::YumDnf(block.duplicate()),
            ),
            ModuleBlockExpectedState::Pacman(block) => Some(
                AttributeDetail::Pacman(block.duplicate()),
            ),
        }
    }

    /// The attribute this block stands for under the given privilege.
    pub fn to_attribute(&self, privilege: Privilege) -> (r: Option<Attribute>)
        ensures
            match self.spec_detail_of() {
                Some(detail) => r matches Some(a) && a.privilege == privilege && a.detail == detail,
                None => r is None,
            },
    {
        match self.to_detail() {
            Some(detail) => Some(Attribute::from(detail, privilege)),
            None => None,
        }
    }

    /// Validates the block: exactly the incoherent declared states are
    /// rejected.
    pub fn check(&self) -> (r: Result<(), Error>)
        ensures
            r matches Ok(_) <==> match self.spec_detail_of() {
                Some(detail) => detail.spec_is_coherent(),
                None => true,
            },
    {
        let coherent = match self {
            ModuleBlockExpectedState::Unset => true,
            ModuleBlockExpectedState::Service(block) => block.is_coherent(),
            ModuleBlockExpectedState::Debug(_) => true,
            ModuleBlockExpectedState::LineInFile(block) => block.line().is_some(),
            ModuleBlockExpectedState::Command(_) => true,
            ModuleBlockExpectedState::Apt(block) => block.is_coherent(),
            ModuleBlockExpectedState::Dnf(block) => block.is_coherent(),
            ModuleBlockExpectedState::Ping(_) => true,
            ModuleBlockExpectedState::Yum(block) => block.is_coherent(),
            ModuleBlockExpectedState::Pacman(block) => block.is_coherent(),
        };
        if coherent {
            Ok(())
        } else {
            Err(Error::IncoherentExpectedState(String::from_str(
                "the declared expected state is incoherent",
            )))
        }
    }

    /// Assesses the block against the live host without changing anything:
    /// the dry run of one step.
    pub fn dry_run_moduleblock<Handler: HostHandler>(
        &self,
        host_handler: &mut Handler,
        privilege: &Privilege,
    ) -> (r: Result<AttributeComplianceAssessment, Error>)
        ensures
            match self.spec_detail_of() {
                Some(detail) => spec_appended_only(
                    old(host_handler).executed(),
                    final(host_handler).executed(),
                    |rec: (Seq<char>, Privilege)| detail.spec_is_probe(*privilege, rec),
                ) && (r matches Ok(a) ==> detail.spec_assessment_ok(*privilege, a)),
                None => *final(host_handler) == *old(host_handler) && (r matches Ok(a) && a
                    == AttributeComplianceAssessment::Compliant),
            },
    {
        match self.to_detail() {
            Some(detail) => detail.assess(host_handler, privilege),
            None => Ok(AttributeComplianceAssessment::Compliant),
        }
    }
}

impl Check for ModuleBlockExpectedState {
    fn check(&self) -> Result<(), Error> {
        ModuleBlockExpectedState::check(self)
    }
}

/// One step of a task block: an optional name, whether it runs with sudo,
/// and the declarative block itself.
#[derive(Debug, Clone)]
pub struct Step {
    pub name: Option<String>,
    pub with_sudo: Option<bool>,
    pub attribute: ModuleBlockExpectedState,
}

impl Step {
    /// The privilege the step asks for: sudo when `with_sudo: true`.
    pub fn privilege(&self) -> (r: Privilege)
        ensures
            r == (if self.with_sudo == Some(true) {
                Privilege::WithSudo
            } else {
                Privilege::Usual
            }),
    {
        if matches!(self.with_sudo, Some(true)) {
            Privilege::WithSudo
        } else {
            Privilege::Usual
        }
    }
}

/// One named block of steps of a task list.
#[derive(Debug, Clone)]
pub struct TaskBlock {
    pub name: Option<String>,
    pub steps: Vec<Step>,
}

/// A whole task list: the ordered blocks of steps a document declares.
#[derive(Debug, Clone)]
pub struct TaskList {
    pub tasks: Vec<TaskBlock>,
}

impl TaskList {
    pub fn new() -> (r: TaskList)
        ensures
            r.tasks@ == Seq::<TaskBlock>::empty(),
    {
        TaskList { tasks: Vec::new() }
    }

    pub fn from(tasks: Vec<TaskBlock>) -> (r: TaskList)
        ensures
            r.tasks == tasks,
    {
        TaskList { tasks }
    }

    /// Parses a task list from text: YAML, JSON, or — for an unknown
    /// format — YAML first and JSON as the fallback.
    pub fn from_str(raw_content: &str, content_type: TaskListFileType) -> Result<TaskList, Error> {
        match content_type {
            TaskListFileType::Yaml => yaml_tasklist_parser(raw_content),
            TaskListFileType::Json => json_tasklist_parser(raw_content),
            TaskListFileType::Unknown => match yaml_tasklist_parser(raw_content) {
                Ok(task_list) => Ok(task_list),
                Err(_) => match json_tasklist_parser(raw_content) {
                    Ok(task_list) => Ok(task_list),
                    Err(_) => Err(Error::FailedInitialization(String::from_str(
                        "unable to parse the task list as YAML or JSON",
                    ))),
                },
            },
        }
    }
}

fn yaml_tasklist_parser(raw_content: &str) -> Result<TaskList, Error> {
    match doc_from_yaml_str(raw_content) {
        Ok(document) => tasklist_from_doc(&document),
        Err(parse_error) => Err(parse_error),
    }
}

fn json_tasklist_parser(raw_content: &str) -> Result<TaskList, Error> {
    match doc_from_json_str(raw_content) {
        Ok(document) => tasklist_from_doc(&document),
        Err(parse_error) => Err(parse_error),
    }
}

/// A task list from its document form: a list of task blocks, each with an
/// optional `name` and its `steps`.
fn tasklist_from_doc(document: &DocValue) -> Result<TaskList, Error> {
    let block_docs = match document {
        DocValue::List(items) => items,
        _ => {
            return Err(Error::FailureToParseContent(String::from_str(
                "a task list is a list of task blocks",
            )));
        },
    };
    let mut tasks: Vec<TaskBlock> = Vec::new();
    let n = block_docs.len();
    let mut i: usize = 0;
    while i < n
        invariant
            0 <= i <= n,
            n == block_docs@.len(),
        decreases n - i,
    {
        match taskblock_from_doc(&block_docs[i]) {
            Ok(block) => tasks.push(block),
            Err(conversion_error) => {
                return Err(conversion_error);
            },
        }
        i = i + 1;
    }
    Ok(TaskList { tasks })
}

fn taskblock_from_doc(document: &DocValue) -> Result<TaskBlock, Error> {
    let name = match document.get("name") {
        Some(value) => match value.as_str() {
            Some(text) => Some(text.to_owned()),
            None => {
                return Err(Error::FailureToParseContent(String::from_str(
                    "a task block's 'name' must be a string",
                )));
            },
        },
        None => None,
    };
    let mut steps: Vec<Step> = Vec::new();
    if let Some(step_docs) = document.get("steps") {
        match step_docs {
            DocValue::List(items) => {
                let n = items.len();
                let mut i: usize = 0;
                while i < n
                    invariant
                        0 <= i <= n,
                        n == items@.len(),
                    decreases n - i,
                {
                    match step_from_doc(&items[i]) {
                        Ok(step) => steps.push(step),
                        Err(conversion_error) => {
                            return Err(conversion_error);
                        },
                    }
                    i = i + 1;
                }
            },
            _ => {
                return Err(Error::FailureToParseContent(String::from_str(
                    "a task block's 'steps' must be a list",
                )));
            },
        }
    }
    Ok(TaskBlock { name, steps })
}

fn step_from_doc(document: &DocValue) -> Result<Step, Error> {
    let name = match document.get("name") {
        Some(value) => match value.as_str() {
            Some(text) => Some(text.to_owned()),
            None => None,
        },
        None => None,
    };
    let with_sudo = match document.get("with_sudo") {
        Some(value) => value.as_bool(),
        None => None,
    };
    let attribute = module_block_from_doc(document)?;
    Ok(Step { name, with_sudo, attribute })
}

/// The declarative block a step document names, read off its module key.
pub fn module_block_from_doc(document: &DocValue) -> Result<ModuleBlockExpectedState, Error> {
    if let Some(value) = document.get("apt") {
        let (state, package, upgrade) = package_fields_from_doc(value)?;
        return Ok(
            ModuleBlockExpectedState::Apt(AptBlockExpectedState::from_parts(state, package, upgrade)),
        );
    }
    if let Some(value) = document.get("pacman") {
        let (state, package, upgrade) = package_fields_from_doc(value)?;
        return Ok(
            ModuleBlockExpectedState::Pacman(
                PacmanBlockExpectedState::from_parts(state, package, upgrade),
            ),
        );
    }
    if let Some(value) = document.get("dnf") {
        let (state, package, upgrade) = package_fields_from_doc(value)?;
        return Ok(
            ModuleBlockExpectedState::Dnf(
                YumDnfBlockExpectedState::from_parts(state, package, upgrade),
            ),
        );
    }
    if let Some(value) = document.get("yum") {
        let (state, package, upgrade) = package_fields_from_doc(value)?;
        return Ok(
            ModuleBlockExpectedState::Yum(
                YumDnfBlockExpectedState::from_parts(state, package, upgrade),
            ),
        );
    }
    if let Some(value) = document.get("service") {
        return Ok(ModuleBlockExpectedState::Service(service_block_from_doc(value)?));
    }
    if let Some(value) = document.get("lineinfile") {
        return Ok(ModuleBlockExpectedState::LineInFile(lineinfile_block_from_doc(value)?));
    }
    if let Some(value) = document.get("command") {
        return Ok(ModuleBlockExpectedState::Command(command_block_from_doc(value)?));
    }
    if let Some(value) = document.get("ping") {
        return Ok(ModuleBlockExpectedState::Ping(ping_block_from_doc(value)?));
    }
    if let Some(value) = document.get("debug") {
        return Ok(ModuleBlockExpectedState::Debug(debug_block_from_doc(value)?));
    }
    Ok(ModuleBlockExpectedState::Unset)
}

/// The fields of a package block. Unknown fields are rejected.
pub fn package_fields_from_doc(document: &DocValue) -> Result<
    (Option<PackageExpectedState>, Option<String>, Option<bool>),
    Error,
> {
    let entries = match document {
        DocValue::Object(entries) => entries,
        _ => {
            return Err(Error::FailureToParseContent(String::from_str(
                "a package block is a table of fields",
            )));
        },
    };
    let mut allowed: Vec<&str> = Vec::new();
    allowed.push("package");
    allowed.push("state");
    allowed.push("upgrade");
    if !map_keys_subset(entries, &allowed) {
        return Err(Error::FailureToParseContent(String::from_str(
            "a package block knows only 'package', 'state' and 'upgrade'",
        )));
    }
    let package = match document.get("package") {
        Some(value) => match value.as_str() {
            Some(text) => Some(text.to_owned()),
            None => {
                return Err(Error::FailureToParseContent(String::from_str(
                    "'package' must be a string",
                )));
            },
        },
        None => None,
    };
    let state = match document.get("state") {
        Some(value) => Some(package_state_from_doc(value)?),
        None => None,
    };
    let upgrade = match document.get("upgrade") {
        Some(value) => match value.as_bool() {
            Some(flag) => Some(flag),
            None => {
                return Err(Error::FailureToParseContent(String::from_str(
                    "'upgrade' must be a boolean",
                )));
            },
        },
        None => None,
    };
    Ok((state, package, upgrade))
}

fn package_state_from_doc(document: &DocValue) -> Result<PackageExpectedState, Error> {
    match document.as_str() {
        Some(text) => {
            if crate::util::str_eq(text, "present") {
                Ok(PackageExpectedState::Present)
            } else if crate::util::str_eq(text, "absent") {
                Ok(PackageExpectedState::Absent)
            } else {
                Err(Error::FailureToParseContent(String::from_str(
                    "'state' is 'present' or 'absent'",
                )))
            }
        },
        None => Err(Error::FailureToParseContent(String::from_str(
            "'state' is 'present' or 'absent'",
        ))),
    }
}

/// The fields of a service block. The older spellings `state:
/// started|stopped` and `enabled: bool` are accepted beside
/// `current_status` and `auto_start`; unknown fields are ignored.
pub fn service_block_from_doc(document: &DocValue) -> Result<ServiceBlockExpectedState, Error> {
    let name = match document.get("name") {
        Some(value) => match value.as_str() {
            Some(text) => text.to_owned(),
            None => {
                return Err(Error::FailureToParseContent(String::from_str(
                    "a service's 'name' must be a string",
                )));
            },
        },
        None => {
            return Err(Error::FailureToParseContent(String::from_str(
                "a service block needs a 'name'",
            )));
        },
    };
    let mut current_status: Option<ServiceExpectedStatus> = None;
    if let Some(value) = document.get("current_status") {
        match value.as_str() {
            Some(text) => {
                if crate::util::str_eq(text, "active") {
                    current_status = Some(ServiceExpectedStatus::Active);
                } else if crate::util::str_eq(text, "inactive") {
                    current_status = Some(ServiceExpectedStatus::Inactive);
                } else {
                    return Err(Error::FailureToParseContent(String::from_str(
                        "'current_status' is 'active' or 'inactive'",
                    )));
                }
            },
            None => {
                return Err(Error::FailureToParseContent(String::from_str(
                    "'current_status' is 'active' or 'inactive'",
                )));
            },
        }
    } else if let Some(value) = document.get("state") {
        if let Some(text) = value.as_str() {
            if crate::util::str_eq(text, "started") {
                current_status = Some(ServiceExpectedStatus::Active);
            } else if crate::util::str_eq(text, "stopped") {
                current_status = Some(ServiceExpectedStatus::Inactive);
            }
        }
    }
    let mut auto_start: Option<ServiceExpectedAutoStart> = None;
    if let Some(value) = document.get("auto_start") {
        match value.as_str() {
            Some(text) => {
                if crate::util::str_eq(text, "enabled") {
                    auto_start = Some(ServiceExpectedAutoStart::Enabled);
                } else if crate::util::str_eq(text, "disabled") {
                    auto_start = Some(ServiceExpectedAutoStart::Disabled);
                } else {
                    return Err(Error::FailureToParseContent(String::from_str(
                        "'auto_start' is 'enabled' or 'disabled'",
                    )));
                }
            },
            None => {
                return Err(Error::FailureToParseContent(String::from_str(
                    "'auto_start' is 'enabled' or 'disabled'",
                )));
            },
        }
    } else if let Some(value) = document.get("enabled") {
        if let Some(flag) = value.as_bool() {
            auto_start = Some(
                if flag {
                    ServiceExpectedAutoStart::Enabled
                } else {
                    ServiceExpectedAutoStart::Disabled
                },
            );
        }
    }
    let mut service_exists: Option<bool> = None;
    if let Some(value) = document.get("exists") {
        service_exists = value.as_bool();
    }
    Ok(ServiceBlockExpectedState::from_parts(name, current_status, auto_start, service_exists))
}

/// The fields of a line-in-file block.
pub fn lineinfile_block_from_doc(document: &DocValue) -> Result<
    LineInFileBlockExpectedState,
    Error,
> {
    let filepath = match document.get("filepath") {
        Some(value) => match value.as_str() {
            Some(text) => text.to_owned(),
            None => {
                return Err(Error::FailureToParseContent(String::from_str(
                    "'filepath' must be a string",
                )));
            },
        },
        None => {
            return Err(Error::FailureToParseContent(String::from_str(
                "a lineinfile block needs a 'filepath'",
            )));
        },
    };
    let line = match document.get("line") {
        Some(value) => match value.as_str() {
            Some(text) => Some(text.to_owned()),
            None => {
                return Err(Error::FailureToParseContent(String::from_str(
                    "'line' must be a string",
                )));
            },
        },
        None => None,
    };
    let state = match document.get("state") {
        Some(value) => match value.as_str() {
            Some(text) => {
                if crate::util::str_eq(text, "present") {
                    LineExpectedState::Present
                } else if crate::util::str_eq(text, "absent") {
                    LineExpectedState::Absent
                } else {
                    return Err(Error::FailureToParseContent(String::from_str(
                        "'state' is 'present' or 'absent'",
                    )));
                }
            },
            None => {
                return Err(Error::FailureToParseContent(String::from_str(
                    "'state' is 'present' or 'absent'",
                )));
            },
        },
        None => {
            return Err(Error::FailureToParseContent(String::from_str(
                "a lineinfile block needs a 'state'",
            )));
        },
    };
    let mut position: Option<LineExpectedPosition> = None;
    if let Some(value) = document.get("position") {
        if let Some(text) = value.as_str() {
            if crate::util::str_eq(text, "top") {
                position = Some(LineExpectedPosition::Top);
            } else if crate::util::str_eq(text, "bottom") {
                position = Some(LineExpectedPosition::Bottom);
            } else if crate::util::str_eq(text, "anywhere") {
                position = Some(LineExpectedPosition::Anywhere);
            } else {
                return Err(Error::FailureToParseContent(String::from_str(
                    "'position' is 'top', 'bottom', 'anywhere' or a line number",
                )));
            }
        } else if let Some(number) = value.as_int() {
            if number >= 0 {
                position = Some(LineExpectedPosition::SpecificLineNumber(number as u64));
            } else {
                return Err(Error::FailureToParseContent(String::from_str(
                    "a position line number is not negative",
                )));
            }
        } else {
            return Err(Error::FailureToParseContent(String::from_str(
                "'position' is 'top', 'bottom', 'anywhere' or a line number",
            )));
        }
    }
    Ok(LineInFileBlockExpectedState::from_parts(filepath, line, state, position))
}

/// The fields of a command block.
pub fn command_block_from_doc(document: &DocValue) -> Result<CommandBlockExpectedState, Error> {
    match document.get("cmd") {
        Some(value) => match value.as_str() {
            Some(text) => Ok(CommandBlockExpectedState::new(text)),
            None => Err(Error::FailureToParseContent(String::from_str(
                "'cmd' must be a string",
            ))),
        },
        None => Err(Error::FailureToParseContent(String::from_str(
            "a command block needs a 'cmd'",
        ))),
    }
}

/// A ping block: an empty document.
pub fn ping_block_from_doc(document: &DocValue) -> Result<PingBlockExpectedState, Error> {
    match document {
        DocValue::Null => Ok(PingBlockExpectedState::new()),
        DocValue::Object(entries) => {
            if entries.len() == 0 {
                Ok(PingBlockExpectedState::new())
            } else {
                Err(Error::FailureToParseContent(String::from_str(
                    "a ping block carries no fields",
                )))
            }
        },
        _ => Err(Error::FailureToParseContent(String::from_str(
            "a ping block carries no fields",
        ))),
    }
}

/// The fields of a debug block.
pub fn debug_block_from_doc(document: &DocValue) -> Result<DebugBlockExpectedState, Error> {
    match document.get("msg") {
        Some(value) => match value.as_str() {
            Some(text) => Ok(DebugBlockExpectedState::new(text)),
            None => Err(Error::FailureToParseContent(String::from_str(
                "'msg' must be a string",
            ))),
        },
        None => Err(Error::FailureToParseContent(String::from_str(
            "a debug block needs a 'msg'",
        ))),
    }
}

} // verus!
