use std::collections::hash_map::DefaultHasher;
use std::hash::{Hash, Hasher};

use toshi::cluster::node::{node_id_from_stored, try_node_id_from_stored};
use toshi::cluster::remote_handle::{add_reply_code, RemoteIndex};
use toshi::cluster::ClusterError;

fn d(s: &str) -> String {
    s.to_string()
}

#[test]
fn messages_without_detail() {
    assert_eq!(ClusterError::MissingNodeID.message(), "Node has no ID");
    assert_eq!(ClusterError::MissingClusterID.message(), "Unable to determine cluster ID");
    assert_eq!(ClusterError::UnableToReadUTF8.message(), "Unable to read content as UTF-8");
    assert_eq!(ClusterError::UnableToGetIndexHandle.message(), "Unable to get index handle");
    assert_eq!(ClusterError::UnableToStoreServices.message(), "Unable to store services");
}

#[test]
fn messages_with_detail() {
    let cases = vec![
        (ClusterError::FailedWritingNodeID(d("e")), "Unable to write node ID: e"),
        (ClusterError::FailedRegisteringCluster(d("e")), "Failed registering cluster: e"),
        (ClusterError::FailedRegisteringNode(d("e")), "Failed registering Node: e"),
        (ClusterError::FailedReadingNodeID(d("e")), "Failed reading NodeID: e"),
        (ClusterError::FailedGettingDirectoryMetadata(d("e")), "Unable to retrieve disk metadata: e"),
        (
            ClusterError::FailedGettingBlockDeviceMetadata(d("e")),
            "Unable to retrieve block device metadata: e",
        ),
        (ClusterError::NoMatchingDirectoryFound(d("e")), "Unable to find that directory: e"),
        (ClusterError::NoMatchingBlockDeviceFound(d("e")), "Unable to find that block device: e"),
        (ClusterError::FailedGettingRAMMetadata(d("e")), "Unable to read device RAM information: e"),
        (ClusterError::FailedGettingCPUMetadata(d("e")), "Unable to get CPU metadata: e"),
        (ClusterError::FailedCreatingPrimaryShard(d("e")), "Unable to create PrimaryShard: e"),
        (ClusterError::FailedGettingIndex(d("e")), "Unable to get index: e"),
        (ClusterError::FailedCreatingReplicaShard(d("e")), "Unable to create ReplicaShard: e"),
        (ClusterError::FailedFetchingNodes(d("e")), "Failed to fetch nodes: e"),
        (ClusterError::UnableToGetIndexName(d("e")), "Unable to get index name: e"),
        (ClusterError::ErrorParsingConsulJSON(d("e")), "Error parsing response from Consul: e"),
        (ClusterError::ErrorInConsulResponse(d("e")), "Request from Consul returned an error: e"),
    ];
    for (err, text) in cases {
        assert_eq!(err.message(), text);
    }
}

#[test]
fn stored_hyphenated_id_is_kept() {
    let id = "936da01f-9abd-4d9d-80c7-02af85c822a8";
    assert_eq!(node_id_from_stored(&Ok(d(id))), id);
    assert_eq!(try_node_id_from_stored(&Ok(d(id))), Some(d(id)));
}

#[test]
fn stored_id_is_rewritten_in_lower_case_hyphenated_form() {
    let expected = "936da01f-9abd-4d9d-80c7-02af85c822a8";
    assert_eq!(node_id_from_stored(&Ok(d("936DA01F-9ABD-4D9D-80C7-02AF85C822A8"))), expected);
    assert_eq!(node_id_from_stored(&Ok(d("936da01f9abd4d9d80c702af85c822a8"))), expected);
    assert_eq!(
        node_id_from_stored(&Ok(d("urn:uuid:936da01f-9abd-4d9d-80c7-02af85c822a8"))),
        expected
    );
}

#[test]
fn stored_text_that_is_no_uuid_stops_start_up() {
    assert_eq!(try_node_id_from_stored(&Ok(d("not a uuid"))), None);
    assert_eq!(try_node_id_from_stored(&Ok(d("936da01f-9abd-4d9d-80c7-02af85c822a8\n"))), None);
}

#[test]
fn failed_read_gives_a_fresh_random_id() {
    let id = node_id_from_stored(&Err(ClusterError::FailedReadingNodeID(d("missing"))));
    let chars: Vec<char> = id.chars().collect();
    assert_eq!(chars.len(), 36);
    for i in [8, 13, 18, 23] {
        assert_eq!(chars[i], '-');
    }
    assert_eq!(chars[14], '4');
    assert!("89ab".contains(chars[19]));
    assert!(id.chars().all(|c| c == '-' || c.is_ascii_digit() || ('a'..='f').contains(&c)));
    let again = try_node_id_from_stored(&Ok(id.clone()));
    assert_eq!(again, Some(id));
}

#[test]
fn remote_indexes_are_equal_by_name() {
    let a = RemoteIndex::new(d("idx"), 1u8);
    let b = RemoteIndex::with_clients(d("idx"), vec![2u8, 3u8]);
    let c = RemoteIndex::new(d("other"), 1u8);
    assert!(a == b);
    assert!(a != c);
    let mut h1 = DefaultHasher::new();
    a.hash(&mut h1);
    let mut h2 = DefaultHasher::new();
    b.hash(&mut h2);
    assert_eq!(h1.finish(), h2.finish());
    assert_eq!(a.name(), "idx");
    assert_eq!(b.remotes(), &vec![2u8, 3u8]);
}

#[test]
fn a_new_document_goes_to_one_of_the_clients() {
    let index = RemoteIndex::with_clients(d("idx"), vec![10u8, 20u8, 30u8]);
    for _ in 0..50 {
        assert!(index.choose_remote() < 3);
    }
    let single = RemoteIndex::new(d("idx"), 7u8);
    assert_eq!(single.choose_remote(), 0);
}

#[test]
fn reply_codes_add_up() {
    assert_eq!(add_reply_code(0, 3), 3);
    assert_eq!(add_reply_code(3, 4), 7);
    assert_eq!(add_reply_code(0, -1), u64::MAX);
}
