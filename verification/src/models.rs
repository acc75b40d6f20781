//! Data model of the Kafka Connect REST API.
//!
//! Every value here is an immutable snapshot built from one response; the
//! client keeps no entity state across calls.

use vstd::prelude::*;

verus! {

/// Immutable snapshot of a cluster: version, commit, and cluster identifier.
#[derive(Clone, Debug, PartialEq, Eq)]
pub struct ClusterInfo {
    pub version: String,
    pub commit: String,
    pub kafka_cluster_id: String,
}

/// One entry of an expanded connector listing.
///
/// At least one of `info` and `status` is present in any well-formed value;
/// a response carrying neither is malformed and is rejected before a
/// `Connector` is built.
#[derive(Clone, Debug, PartialEq, Eq)]
pub struct Connector {
    pub info: Option<ConnectorInfo>,
    pub status: Option<ConnectorStatus>,
}

impl Connector {
    /// Well-formedness: at least one of the two optional parts is present.
    pub open spec fn wf(self) -> bool {
        self.info is Some || self.status is Some
    }

    /// The name the connector was registered under, preferring `info.name`
    /// and falling back to `status.name`.
    pub open spec fn spec_name(self) -> Seq<char> {
        if self.info is Some {
            self.info->0.name@
        } else {
            self.status->0.name@
        }
    }

    /// Returns `info.name` when info is present, else `status.name`.
    pub fn name(&self) -> (r: &str)
        requires
            self.wf(),
        ensures
            r@ == self.spec_name(),
    {
        match &self.info {
            Some(info) => info.name.as_str(),
            None => match &self.status {
                Some(status) => status.name.as_str(),
                None => vstd::pervasive::unreached(),
            },
        }
    }
}

/// Registration data of one connector: its name, configuration, running
/// tasks, and connector kind tag.
#[derive(Clone, Debug, PartialEq, Eq)]
pub struct ConnectorInfo {
    pub name: String,
    pub config: std::collections::HashMap<String, String>,
    pub tasks: Vec<TaskInfo>,
    pub kind: String,
}

/// One task of a connector, by owning connector name and task number.
#[derive(Clone, Debug, PartialEq, Eq)]
pub struct TaskInfo {
    pub connector: String,
    pub task: u64,
}

/// Runtime status of one connector and its tasks.
#[derive(Clone, Debug, PartialEq, Eq)]
pub struct ConnectorStatus {
    pub connector: ConnectorState,
    pub name: String,
    pub tasks: Vec<TaskStatus>,
    pub kind: String,
}

/// State of the connector itself: status and the worker it runs on.
#[derive(Clone, Debug, PartialEq, Eq)]
pub struct ConnectorState {
    pub connector: Option<String>,
    pub state: Status,
    pub worker_id: String,
}

/// State of one task; `trace` is present only for a failed task.
#[derive(Clone, Debug, PartialEq, Eq)]
pub struct TaskStatus {
    pub id: u64,
    pub state: Status,
    pub worker_id: String,
    pub trace: Option<String>,
}

impl TaskStatus {
    /// Well-formedness: a trace accompanies only a failed task.
    pub open spec fn wf(self) -> bool {
        self.trace is Some ==> self.state is Failed
    }
}

/// Status a task or connector may be in.
///
/// On the wire each value is the upper-case token given by
/// [`Status::spec_wire`], and encoding then decoding yields the value back
/// ([`lemma_status_wire_round_trip`]).
#[derive(Clone, Copy, Debug, PartialEq, Eq, Structural)]
pub enum Status {
    Paused,
    Running,
    Restarting,
    Failed,
    Unassigned,
    Stopped,
}

impl Status {
    /// The exact upper-case wire token of this status.
    pub open spec fn spec_wire(self) -> Seq<char> {
        match self {
            Status::Paused => "PAUSED"@,
            Status::Running => "RUNNING"@,
            Status::Restarting => "RESTARTING"@,
            Status::Failed => "FAILED"@,
            Status::Unassigned => "UNASSIGNED"@,
            Status::Stopped => "STOPPED"@,
        }
    }

    /// Encodes this status as its wire token.
    pub fn wire_name(&self) -> (r: &'static str)
        ensures
            r@ == self.spec_wire(),
    {
        match self {
            Status::Paused => "PAUSED",
            Status::Running => "RUNNING",
            Status::Restarting => "RESTARTING",
            Status::Failed => "FAILED",
            Status::Unassigned => "UNASSIGNED",
            Status::Stopped => "STOPPED",
        }
    }

    /// The status whose wire token is `s`, if any.
    pub open spec fn spec_from_wire(s: Seq<char>) -> Option<Status> {
        if s == "PAUSED"@ {
            Some(Status::Paused)
        } else if s == "RUNNING"@ {
            Some(Status::Running)
        } else if s == "RESTARTING"@ {
            Some(Status::Restarting)
        } else if s == "FAILED"@ {
            Some(Status::Failed)
        } else if s == "UNASSIGNED"@ {
            Some(Status::Unassigned)
        } else if s == "STOPPED"@ {
            Some(Status::Stopped)
        } else {
            None
        }
    }

    /// Decodes a wire token; any string that is not one of the six tokens
    /// is rejected with `None`.
    pub fn from_wire(s: &str) -> (r: Option<Status>)
        ensures
            r == Status::spec_from_wire(s@),
    {
        let owned: String = s.to_owned();
        if owned == "PAUSED".to_owned() {
            Some(Status::Paused)
        } else if owned == "RUNNING".to_owned() {
            Some(Status::Running)
        } else if owned == "RESTARTING".to_owned() {
            Some(Status::Restarting)
        } else if owned == "FAILED".to_owned() {
            Some(Status::Failed)
        } else if owned == "UNASSIGNED".to_owned() {
            Some(Status::Unassigned)
        } else if owned == "STOPPED".to_owned() {
            Some(Status::Stopped)
        } else {
            None
        }
    }

    /// The human-readable display name of this status.
    pub open spec fn spec_display(self) -> Seq<char> {
        match self {
            Status::Paused => "Paused"@,
            Status::Running => "Running"@,
            Status::Restarting => "Restarting"@,
            Status::Failed => "Failed"@,
            Status::Unassigned => "Unassigned"@,
            Status::Stopped => "Stopped"@,
        }
    }

    /// Human-readable name, for diagnostics.
    pub fn display_name(&self) -> (r: &'static str)
        ensures
            r@ == self.spec_display(),
    {
        match self {
            Status::Paused => "Paused",
            Status::Running => "Running",
            Status::Restarting => "Restarting",
            Status::Failed => "Failed",
            Status::Unassigned => "Unassigned",
            Status::Stopped => "Stopped",
        }
    }
}

/// Encoding a status and decoding the token yields the status back, for
/// every status value.
pub proof fn lemma_status_wire_round_trip(s: Status)
    ensures
        Status::spec_from_wire(s.spec_wire()) == Some(s),
{
    reveal_strlit("PAUSED");
    reveal_strlit("RUNNING");
    reveal_strlit("RESTARTING");
    reveal_strlit("FAILED");
    reveal_strlit("UNASSIGNED");
    reveal_strlit("STOPPED");
    assert("RUNNING"@.len() != "PAUSED"@.len());
    assert("RESTARTING"@.len() != "PAUSED"@.len());
    assert("RESTARTING"@.len() != "RUNNING"@.len());
    assert("FAILED"@[0] != "PAUSED"@[0]);
    assert("FAILED"@.len() != "RUNNING"@.len());
    assert("FAILED"@.len() != "RESTARTING"@.len());
    assert("UNASSIGNED"@.len() != "PAUSED"@.len());
    assert("UNASSIGNED"@.len() != "RUNNING"@.len());
    assert("UNASSIGNED"@[0] != "RESTARTING"@[0]);
    assert("UNASSIGNED"@.len() != "FAILED"@.len());
    assert("STOPPED"@.len() != "PAUSED"@.len());
    assert("STOPPED"@[0] != "RUNNING"@[0]);
    assert("STOPPED"@.len() != "RESTARTING"@.len());
    assert("STOPPED"@.len() != "FAILED"@.len());
    assert("STOPPED"@.len() != "UNASSIGNED"@.len());
}

/// A wire token decodes to at most one status, and that status encodes
/// back to the very token: decoding is inverse to encoding.
pub proof fn lemma_status_wire_parse_inverse(s: Seq<char>)
    ensures
        Status::spec_from_wire(s) matches Some(st) ==> st.spec_wire() == s,
{
}

/// Offset record of a source connector; source connectors choose their own
/// partition and offset shapes, supplied here as the type parameters.
#[derive(Clone, Debug, PartialEq, Eq)]
pub struct SourceConnectorOffset<P, O> {
    pub partition: P,
    pub offset: O,
}

/// Partition part of a sink connector offset: a topic and a partition
/// number of the underlying log.
#[derive(Clone, Debug, PartialEq, Eq)]
pub struct SinkConnectorOffsetPartition {
    pub kafka_topic: String,
    pub kafka_partition: u64,
}

/// Offset part of a sink connector offset.
#[derive(Clone, Debug, PartialEq, Eq)]
pub struct SinkConnectorOffsetOffset {
    pub offset: String,
}

/// Offset record of a sink connector: a fixed shape tied to log-based
/// partitioning.
#[derive(Clone, Debug, PartialEq, Eq)]
pub struct SinkConnectorOffset {
    pub partition: SinkConnectorOffsetPartition,
    pub offset: SinkConnectorOffsetOffset,
}

/// One offset record of either connector family.
///
/// The wire format carries no discriminator between the two shapes; a
/// record is decoded by trial, source shape first (see
/// [`crate::offsets::decode_offset`]).
#[derive(Clone, Debug, PartialEq, Eq)]
pub enum ConnectorOffset<P, O> {
    Source(SourceConnectorOffset<P, O>),
    Sink(SinkConnectorOffset),
}

} // verus!
