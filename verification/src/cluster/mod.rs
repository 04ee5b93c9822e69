//! Errors of cluster membership and node bookkeeping.

use vstd::prelude::*;

pub mod node;
pub mod remote_handle;

verus! {

/// What can go wrong while a node joins or serves a cluster; most kinds carry
/// a description of the underlying failure.
#[derive(Debug)]
pub enum ClusterError {
    MissingNodeID,
    MissingClusterID,
    FailedWritingNodeID(String),
    FailedRegisteringCluster(String),
    FailedRegisteringNode(String),
    FailedReadingNodeID(String),
    FailedGettingDirectoryMetadata(String),
    FailedGettingBlockDeviceMetadata(String),
    NoMatchingDirectoryFound(String),
    NoMatchingBlockDeviceFound(String),
    FailedGettingRAMMetadata(String),
    FailedGettingCPUMetadata(String),
    UnableToReadUTF8,
    FailedCreatingPrimaryShard(String),
    FailedGettingIndex(String),
    FailedCreatingReplicaShard(String),
    FailedFetchingNodes(String),
    UnableToGetIndexName(String),
    ErrorParsingConsulJSON(String),
    ErrorInConsulResponse(String),
    UnableToGetIndexHandle,
    UnableToStoreServices,
}

/// The text of a message whose fixed part is followed by a detail.
fn with_detail(fixed: &str, detail: &String) -> (r: String)
    ensures
        r@ == fixed@ + detail@,
{
    String::from_str(fixed).concat(detail.as_str())
}

impl ClusterError {
    /// The human-readable message of an error.
    pub open spec fn message_text(&self) -> Seq<char> {
        match self {
            ClusterError::MissingNodeID => "Node has no ID"@,
            ClusterError::MissingClusterID => "Unable to determine cluster ID"@,
            ClusterError::FailedWritingNodeID(detail) => "Unable to write node ID: "@ + detail@,
            ClusterError::FailedRegisteringCluster(detail) => "Failed registering cluster: "@ + detail@,
            ClusterError::FailedRegisteringNode(detail) => "Failed registering Node: "@ + detail@,
            ClusterError::FailedReadingNodeID(detail) => "Failed reading NodeID: "@ + detail@,
            ClusterError::FailedGettingDirectoryMetadata(detail) => "Unable to retrieve disk metadata: "@ + detail@,
            ClusterError::FailedGettingBlockDeviceMetadata(detail) => "Unable to retrieve block device metadata: "@ + detail@,
            ClusterError::NoMatchingDirectoryFound(detail) => "Unable to find that directory: "@ + detail@,
            ClusterError::NoMatchingBlockDeviceFound(detail) => "Unable to find that block device: "@ + detail@,
            ClusterError::FailedGettingRAMMetadata(detail) => "Unable to read device RAM information: "@ + detail@,
            ClusterError::FailedGettingCPUMetadata(detail) => "Unable to get CPU metadata: "@ + detail@,
            ClusterError::UnableToReadUTF8 => "Unable to read content as UTF-8"@,
            ClusterError::FailedCreatingPrimaryShard(detail) => "Unable to create PrimaryShard: "@ + detail@,
            ClusterError::FailedGettingIndex(detail) => "Unable to get index: "@ + detail@,
            ClusterError::FailedCreatingReplicaShard(detail) => "Unable to create ReplicaShard: "@ + detail@,
            ClusterError::FailedFetchingNodes(detail) => "Failed to fetch nodes: "@ + detail@,
            ClusterError::UnableToGetIndexName(detail) => "Unable to get index name: "@ + detail@,
            ClusterError::ErrorParsingConsulJSON(detail) => "Error parsing response from Consul: "@ + detail@,
            ClusterError::ErrorInConsulResponse(detail) => "Request from Consul returned an error: "@ + detail@,
            ClusterError::UnableToGetIndexHandle => "Unable to get index handle"@,
            ClusterError::UnableToStoreServices => "Unable to store services"@,
        }
    }

    /// Renders the error as its human-readable message: a fixed sentence,
    /// followed by the carried description where the kind has one.
    pub fn message(&self) -> (r: String)
        ensures
            r@ == self.message_text(),
    {
        match self {
            ClusterError::MissingNodeID => String::from_str("Node has no ID"),
            ClusterError::MissingClusterID => String::from_str("Unable to determine cluster ID"),
            ClusterError::FailedWritingNodeID(detail) => with_detail("Unable to write node ID: ", detail),
            ClusterError::FailedRegisteringCluster(detail) => with_detail("Failed registering cluster: ", detail),
            ClusterError::FailedRegisteringNode(detail) => with_detail("Failed registering Node: ", detail),
            ClusterError::FailedReadingNodeID(detail) => with_detail("Failed reading NodeID: ", detail),
            ClusterError::FailedGettingDirectoryMetadata(detail) => with_detail("Unable to retrieve disk metadata: ", detail),
            ClusterError::FailedGettingBlockDeviceMetadata(detail) => with_detail("Unable to retrieve block device metadata: ", detail),
            ClusterError::NoMatchingDirectoryFound(detail) => with_detail("Unable to find that directory: ", detail),
            ClusterError::NoMatchingBlockDeviceFound(detail) => with_detail("Unable to find that block device: ", detail),
            ClusterError::FailedGettingRAMMetadata(detail) => with_detail("Unable to read device RAM information: ", detail),
            ClusterError::FailedGettingCPUMetadata(detail) => with_detail("Unable to get CPU metadata: ", detail),
            ClusterError::UnableToReadUTF8 => String::from_str("Unable to read content as UTF-8"),
            ClusterError::FailedCreatingPrimaryShard(detail) => with_detail("Unable to create PrimaryShard: ", detail),
            ClusterError::FailedGettingIndex(detail) => with_detail("Unable to get index: ", detail),
            ClusterError::FailedCreatingReplicaShard(detail) => with_detail("Unable to create ReplicaShard: ", detail),
            ClusterError::FailedFetchingNodes(detail) => with_detail("Failed to fetch nodes: ", detail),
            ClusterError::UnableToGetIndexName(detail) => with_detail("Unable to get index name: ", detail),
            ClusterError::ErrorParsingConsulJSON(detail) => with_detail("Error parsing response from Consul: ", detail),
            ClusterError::ErrorInConsulResponse(detail) => with_detail("Request from Consul returned an error: ", detail),
            ClusterError::UnableToGetIndexHandle => String::from_str("Unable to get index handle"),
            ClusterError::UnableToStoreServices => String::from_str("Unable to store services"),
        }
    }
}

} // verus!
