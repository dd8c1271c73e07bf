pub mod attribute;
pub mod command;
pub mod compliance;
pub mod doc;
pub mod error;
pub mod expected_state;
pub mod host_handler;
pub mod inventory;
pub mod managed_host;
pub mod privilege;
pub mod ssh2_session;
pub mod task;
pub mod tasklist;
pub mod util;

pub use crate::attribute::{Attribute, AttributeDetail, Remediation};
pub use crate::command::CommandResult;
pub use crate::compliance::{
    Action, AttributeComplianceAssessment, AttributeComplianceResult, AttributeComplianceStatus,
    HostComplianceAssessment, HostComplianceResult, HostComplianceStatus, HostStatus,
    InternalApiCallOutcome, ManagedHostStatus,
};
pub use crate::error::Error;
pub use crate::expected_state::{DryRunMode, ExpectedState};
pub use crate::host_handler::{parse_endpoint, HostHandler, LocalHostHandler, ScriptedHostHandler};
pub use crate::inventory::{
    find_host_in_list, hostlist_get_all_hosts, Group, Host, HostList, Inventory,
};
pub use crate::managed_host::{
    aggregate_assessments, AssessCompliance, ManagedHost, ReachCompliance,
};
pub use crate::privilege::{Credentials, Privilege, WhichUser};
pub use crate::ssh2_session::{Ssh2SessionState, Ssh2Step};
pub use crate::task::{HostConnectionInfo, Job, RegentTask, RegentTaskResult, Ssh2AuthMode};
pub use crate::tasklist::{
    Check, ModuleBlockExpectedState, RunningMode, Step, TaskBlock, TaskList, TaskListFileType,
    TaskListFormat,
};
