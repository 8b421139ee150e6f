//! Per-cluster fan-out of wake commands: one latest-value channel for each
//! cluster, found by namespace and cluster name.

use vstd::prelude::*;
use crate::api::GatewayCommand;

verus! {

/// A command for the computers of one cluster, as its listeners receive it.
pub enum Command {
    /// Asks the computer to check its desired state and reconcile itself, and to
    /// wake up first if it is offline.
    Wake { computer_id: String },
}

/// The ids of the computers that a list of channel commands wakes, in order.
pub open spec fn command_ids(cmds: Seq<Command>) -> Seq<Seq<char>> {
    cmds.map_values(|c: Command| match c {
        Command::Wake { computer_id } => computer_id@,
    })
}

/// The commands a reconcile pass publishes to its cluster's channel.
pub fn channel_commands(cmds: &Vec<GatewayCommand>) -> (r: Vec<Command>)
    ensures
        command_ids(r@) == crate::api::wake_ids(cmds@),
{
    let mut out: Vec<Command> = Vec::new();
    let mut i: usize = 0;
    while i < cmds.len()
        invariant
            i <= cmds@.len(),
            command_ids(out@) == crate::api::wake_ids(cmds@.subrange(0, i as int)),
        decreases cmds@.len() - i,
    {
        let ghost before = out@;
        let id = match &cmds[i] {
            GatewayCommand::Wake { computer_id } => computer_id.clone(),
        };
        out.push(Command::Wake { computer_id: id });
        assert(cmds@.subrange(0, i + 1) =~= cmds@.subrange(0, i as int).push(cmds@[i as int]));
        assert(command_ids(out@) =~= command_ids(before).push(id@));
        assert(crate::api::wake_ids(cmds@.subrange(0, i + 1)) =~= crate::api::wake_ids(cmds@.subrange(0, i as int)).push(id@));
        i += 1;
    }
    assert(cmds@.subrange(0, cmds@.len() as int) =~= cmds@);
    out
}

/// The channels of the clusters, keyed by namespace and cluster name. `S` is the
/// sending side of a channel.
pub struct C2Server<S> {
    cluster_watchers: Vec<(String, String, S)>,
}

impl<S> C2Server<S> {
    /// The channels, with the namespace and cluster each belongs to.
    pub closed spec fn entries(&self) -> Seq<(String, String, S)> {
        self.cluster_watchers@
    }

    /// The entry at `i` belongs to the cluster `cluster` of `namespace`.
    pub open spec fn keyed(&self, i: int, namespace: Seq<char>, cluster: Seq<char>) -> bool {
        self.entries()[i].0@ == namespace && self.entries()[i].1@ == cluster
    }

    /// No two entries belong to the same cluster.
    pub open spec fn wf(&self) -> bool {
        forall|i: int, j: int|
            0 <= i < j < self.entries().len() ==> !(#[trigger] self.keyed(i, self.entries()[j].0@, self.entries()[j].1@)
                && #[trigger] self.keyed(j, self.entries()[j].0@, self.entries()[j].1@))
    }

    /// A registry without channels.
    pub fn new() -> (r: Self)
        ensures
            r.entries().len() == 0,
            r.wf(),
    {
        C2Server { cluster_watchers: Vec::new() }
    }

    /// The position of the channel of `cluster` in `namespace`, if it has one.
    pub fn find(&self, namespace: &String, cluster: &String) -> (r: Option<usize>)
        ensures
            match r {
                Some(i) => i < self.entries().len() && self.keyed(i as int, namespace@, cluster@),
                None => forall|i: int| 0 <= i < self.entries().len() ==> !self.keyed(i, namespace@, cluster@),
            },
    {
        let mut i: usize = 0;
        while i < self.cluster_watchers.len()
            invariant
                i <= self.entries().len(),
                forall|j: int| 0 <= j < i ==> !self.keyed(j, namespace@, cluster@),
            decreases self.entries().len() - i,
        {
            if self.cluster_watchers[i].0.eq(namespace) && self.cluster_watchers[i].1.eq(cluster) {
                return Some(i);
            }
            i += 1;
        }
        None
    }

    /// The position of the channel of `cluster` in `namespace`; `fresh` becomes
    /// that channel when the cluster has none yet.
    pub fn sender(&mut self, namespace: String, cluster: String, fresh: S) -> (r: usize)
        requires
            old(self).wf(),
        ensures
            final(self).wf(),
            r < final(self).entries().len(),
            final(self).keyed(r as int, namespace@, cluster@),
            (exists|i: int| 0 <= i < old(self).entries().len() && old(self).keyed(i, namespace@, cluster@))
                ==> final(self).entries() == old(self).entries(),
            !(exists|i: int| 0 <= i < old(self).entries().len() && old(self).keyed(i, namespace@, cluster@))
                ==> final(self).entries() == old(self).entries().push((namespace, cluster, fresh)),
    {
        match self.find(&namespace, &cluster) {
            Some(i) => i,
            None => {
                let ghost before = *self;
                self.cluster_watchers.push((namespace, cluster, fresh));
                let n = self.cluster_watchers.len() - 1;
                assert forall|i: int, j: int| 0 <= i < j < self.entries().len() implies !(#[trigger] self.keyed(i, self.entries()[j].0@, self.entries()[j].1@)
                    && #[trigger] self.keyed(j, self.entries()[j].0@, self.entries()[j].1@)) by {
                    if j < n {
                        assert(self.entries()[i] == before.entries()[i]);
                        assert(self.entries()[j] == before.entries()[j]);
                        assert(!(before.keyed(i, before.entries()[j].0@, before.entries()[j].1@)
                            && before.keyed(j, before.entries()[j].0@, before.entries()[j].1@)));
                    } else {
                        assert(self.entries()[i] == before.entries()[i]);
                        assert(!before.keyed(i, namespace@, cluster@));
                    }
                }
                n
            },
        }
    }

    /// The sending side of the channel at `i`.
    pub fn watcher(&self, i: usize) -> (r: &S)
        requires
            i < self.entries().len(),
        ensures
            *r == self.entries()[i as int].2,
    {
        &self.cluster_watchers[i].2
    }
}

} // verus!
