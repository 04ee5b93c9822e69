//! Indexes that live on other nodes of the cluster.
//!
//! A remote index is known by its name and the clients of the nodes that hold
//! it. Searches and deletions go to every client in turn; a new document goes
//! to one client picked at random. The calls themselves stand outside the
//! library; this module holds the index's identity and the decisions between
//! the calls.

use vstd::prelude::*;
use vstd::std_specs::cmp::{PartialEqSpec, PartialEqSpecImpl};

use rand::rngs::SmallRng;
use rand::seq::IteratorRandom;
use rand::SeedableRng;

verus! {

/// An index stored on other nodes, reached through one client per node.
#[derive(Clone)]
pub struct RemoteIndex<C> {
    name: String,
    remotes: Vec<C>,
}

impl<C> RemoteIndex<C> {
    /// The index's name.
    pub closed spec fn name_view(&self) -> Seq<char> {
        self.name@
    }

    /// The clients of the nodes that hold the index, in order.
    pub closed spec fn remotes_view(&self) -> Seq<C> {
        self.remotes@
    }

    /// A remote index held by a single node.
    pub fn new(name: String, remote: C) -> (r: Self)
        ensures
            r.name_view() == name@,
            r.remotes_view() == seq![remote],
    {
        let mut remotes = Vec::new();
        remotes.push(remote);
        RemoteIndex::with_clients(name, remotes)
    }

    /// A remote index held by the nodes of the given clients.
    pub fn with_clients(name: String, remotes: Vec<C>) -> (r: Self)
        ensures
            r.name_view() == name@,
            r.remotes_view() == remotes@,
    {
        RemoteIndex { name, remotes }
    }

    /// The index's name.
    pub fn name(&self) -> (r: &String)
        ensures
            r@ == self.name_view(),
    {
        &self.name
    }

    /// The clients of the nodes that hold the index.
    pub fn remotes(&self) -> (r: &Vec<C>)
        ensures
            r@ == self.remotes_view(),
    {
        &self.remotes
    }

    /// Picks, at random, the client that receives a new document: an index
    /// into the clients. The index must have at least one client.
    pub fn choose_remote(&self) -> (r: usize)
        requires
            self.remotes_view().len() > 0,
        ensures
            r < self.remotes_view().len(),
    {
        random_index(self.remotes.len())
    }
}

/// Picks one of `0..n` with `rand`'s `IteratorRandom::choose`, driven by a
/// `SmallRng` seeded from the operating system. Stated is only that the pick
/// lies in range, which the source shows for a range of known length; which
/// one comes out is chance.
#[verifier::external_body]
fn random_index(n: usize) -> (r: usize)
    requires
        n > 0,
    ensures
        r < n,
{
    (0..n).choose(&mut SmallRng::from_entropy()).unwrap()
}

/// Feeds the bytes of `bytes` to a hasher with `std::hash::Hasher::write`.
/// Nothing is stated of the hasher's state afterwards.
#[verifier::external_body]
fn hasher_write<H: core::hash::Hasher>(state: &mut H, bytes: &[u8]) {
    state.write(bytes)
}

impl<C> PartialEq for RemoteIndex<C> {
    fn eq(&self, other: &Self) -> (r: bool)
        ensures
            r == (self.name_view() == other.name_view()),
    {
        self.name == other.name
    }
}

impl<C> PartialEqSpecImpl for RemoteIndex<C> {
    open spec fn obeys_eq_spec() -> bool {
        true
    }

    open spec fn eq_spec(&self, other: &Self) -> bool {
        self.name_view() == other.name_view()
    }
}

impl<C> Eq for RemoteIndex<C> {

}

impl<C> core::hash::Hash for RemoteIndex<C> {
    fn hash<H: core::hash::Hasher>(&self, state: &mut H) {
        hasher_write(state, self.name.as_str().as_bytes())
    }
}

/// The number of documents that a node's reply code adds to the count of
/// deleted documents: the code taken as an unsigned 64-bit number.
pub open spec fn reply_count(code: i32) -> int {
    (code as u64) as int
}

/// Adds the documents that one node reports deleted to the running count.
/// The sum must fit in 64 bits.
pub fn add_reply_code(total: u64, code: i32) -> (r: u64)
    requires
        total + reply_count(code) <= u64::MAX,
    ensures
        r == total + reply_count(code),
        code >= 0 ==> r == total + code,
        code < 0 ==> r == total + code + 0x1_0000_0000_0000_0000,
{
    proof {
        assert(code >= 0 ==> (code as u64) as int == code as int) by (bit_vector);
        assert(code < 0 ==> (code as u64) as int == code as int + 0x1_0000_0000_0000_0000) by (
        bit_vector);
    }
    total + code as u64
}

/// A count a node reports is added in full when it is not negative; a
/// negative code counts as its 64-bit two's-complement value.
pub proof fn law_reply_count(code: i32)
    ensures
        code >= 0 ==> reply_count(code) == code,
        code < 0 ==> reply_count(code) == code + 0x1_0000_0000_0000_0000,
{
    assert(code >= 0 ==> (code as u64) as int == code as int) by (bit_vector);
    assert(code < 0 ==> (code as u64) as int == code as int + 0x1_0000_0000_0000_0000) by (
    bit_vector);
}

/// Two remote indexes are equal exactly when their names are equal.
pub proof fn law_remote_index_equality<C>(a: RemoteIndex<C>, b: RemoteIndex<C>)
    ensures
        PartialEqSpec::eq_spec(&a, &b) <==> a.name_view() == b.name_view(),
{
}

} // verus!
