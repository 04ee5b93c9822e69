//! Request routing, bulk-body line splitting, node identity and cluster error
//! handling of the Toshi search server, with their contracts proved by Verus.

pub mod cluster;
pub mod handlers;
pub mod router;
