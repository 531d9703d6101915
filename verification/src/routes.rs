//! Which channels are mirrored, and to where.
//!
//! A route table maps the identifier of a source channel to the handle of its
//! destination. It is filled once and then only read; a channel without an
//! entry is not mirrored. The handle's type `H` is the caller's: the table
//! keeps it and hands it back, and never looks inside.

use vstd::prelude::*;
use std::collections::HashMap;

verus! {

broadcast use vstd::std_specs::hash::group_hash_axioms;

/// The routes that a list of pairs describes: each pair maps its channel to
/// its handle, and of two pairs for one channel the later one counts.
pub open spec fn routes_of<H>(pairs: Seq<(u64, H)>) -> Map<u64, H>
    decreases pairs.len(),
{
    if pairs.len() == 0 {
        Map::empty()
    } else {
        routes_of(pairs.drop_last()).insert(pairs.last().0, pairs.last().1)
    }
}

/// The mapping from source channel to destination handle.
pub struct RouteTable<H> {
    routes: HashMap<u64, H>,
}

impl<H> View for RouteTable<H> {
    type V = Map<u64, H>;

    closed spec fn view(&self) -> Map<u64, H> {
        self.routes@
    }
}

impl<H> RouteTable<H> {
    /// A table without routes: nothing is mirrored.
    pub fn new() -> (table: Self)
        ensures
            table@ == Map::<u64, H>::empty(),
    {
        RouteTable { routes: HashMap::new() }
    }

    /// Routes `channel` to `handle`. Returns the handle that the channel was
    /// routed to before, if there was one.
    pub fn insert(&mut self, channel: u64, handle: H) -> (previous: Option<H>)
        ensures
            final(self)@ == old(self)@.insert(channel, handle),
            previous == if old(self)@.contains_key(channel) {
                Some(old(self)@[channel])
            } else {
                None
            },
    {
        self.routes.insert(channel, handle)
    }

    /// Builds the table from a list of pairs of channel and handle.
    pub fn from_pairs(pairs: Vec<(u64, H)>) -> (table: Self)
        ensures
            table@ == routes_of(pairs@),
    {
        let mut table = RouteTable::new();
        let ghost all = pairs@;
        for pair in it: pairs
            invariant
                it.seq() == all,
                table@ == routes_of(all.take(it.index() as int)),
        {
            proof {
                let next = all.take(it.index() + 1);
                assert(next.drop_last() =~= all.take(it.index() as int));
                assert(next.last() == pair);
            }
            let (channel, handle) = pair;
            table.insert(channel, handle);
        }
        proof {
            assert(all.take(all.len() as int) =~= all);
        }
        table
    }

    /// The destination of `channel`, or `None` where the channel is not
    /// mirrored.
    pub fn lookup(&self, channel: u64) -> (handle: Option<&H>)
        ensures
            match handle {
                Some(h) => self@.contains_key(channel) && *h == self@[channel],
                None => !self@.contains_key(channel),
            },
    {
        self.routes.get(&channel)
    }

    /// Whether `channel` is mirrored.
    pub fn contains(&self, channel: u64) -> (b: bool)
        ensures
            b == self@.contains_key(channel),
    {
        self.routes.contains_key(&channel)
    }

    /// The number of mirrored channels.
    pub fn len(&self) -> (n: usize)
        ensures
            n == self@.len(),
            self@.dom().finite(),
    {
        self.routes.len()
    }
}

} // verus!
