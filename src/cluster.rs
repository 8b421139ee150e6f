//! The cluster reconciler's decisions: which computers to wake, which statuses
//! to correct, and when to look again.

use vstd::prelude::*;
use crate::api::{Computer, ComputerCluster, GatewayCommand, wake_ids};
use crate::error::Error;

verus! {

/// Seconds without a heartbeat after which a computer counts as offline.
pub const OFFLINE_AFTER_SECS: i64 = 300;

/// Seconds until the next pass when nothing is pending.
pub const STEADY_REQUEUE_SECS: u64 = 300;

/// Seconds until the next pass when work is pending or a pass failed.
pub const PENDING_REQUEUE_SECS: u64 = 10;

/// When the reconciler should look at an object again.
pub struct Action {
    pub requeue_after_secs: u64,
}

impl Action {
    /// Look again after `secs` seconds.
    pub fn requeue(secs: u64) -> (r: Action)
        ensures
            r.requeue_after_secs == secs,
    {
        Action { requeue_after_secs: secs }
    }
}

/// A correction of the `online` flag of the computer at `computer` in the list.
pub struct StatusPatch {
    pub computer: usize,
    pub online: bool,
}

/// A correction as a pair of the computer's position and the new flag.
pub open spec fn patch_view(p: StatusPatch) -> (int, bool) {
    (p.computer as int, p.online)
}

/// What one pass over a cluster's computers decided.
pub struct ClusterDiff {
    pub commands: Vec<GatewayCommand>,
    pub status_patches: Vec<StatusPatch>,
}

/// The computer names the cluster with uid `cluster_uid` among its owners.
pub open spec fn owned_by(c: Computer, cluster_uid: Option<String>) -> bool {
    &&& c.metadata.owner_references is Some
    &&& cluster_uid is Some
    &&& exists|j: int|
        0 <= j < c.metadata.owner_references->0@.len()
            && #[trigger] c.metadata.owner_references->0@[j].uid@ == cluster_uid->0@
}

/// The observed state differs from the declared one, or nothing was observed yet.
pub open spec fn diverged(c: Computer) -> bool {
    match c.status {
        Some(st) => !st.state.same_as(c.spec.state),
        None => true,
    }
}

/// A computer is online at `now` when its last heartbeat is at most
/// `OFFLINE_AFTER_SECS` old.
pub open spec fn online_at(last_heartbeat: Option<i64>, now: int) -> bool {
    match last_heartbeat {
        Some(t) => t >= now - OFFLINE_AFTER_SECS,
        None => false,
    }
}

/// The recomputed `online` flag of a computer that has a status.
pub open spec fn recomputed_online(c: Computer, now: int) -> bool {
    online_at(c.status->0.last_heartbeat_unix_sec, now)
}

/// The stored `online` flag must be corrected.
pub open spec fn needs_patch(c: Computer, now: int) -> bool {
    &&& !diverged(c)
    &&& c.status is Some
    &&& c.status->0.online != recomputed_online(c, now)
}

/// The computer is to be woken: its state diverged, or it has just gone offline.
pub open spec fn needs_wake(c: Computer, now: int) -> bool {
    diverged(c) || (needs_patch(c, now) && !recomputed_online(c, now))
}

/// The ids woken by a pass over `cs`, in list order.
pub open spec fn wake_seq(cs: Seq<Computer>, uid: Option<String>, now: int) -> Seq<Seq<char>>
    decreases cs.len(),
{
    if cs.len() == 0 {
        Seq::empty()
    } else {
        let prev = wake_seq(cs.drop_last(), uid, now);
        let c = cs.last();
        if owned_by(c, uid) && needs_wake(c, now) {
            prev.push(c.spec.id@)
        } else {
            prev
        }
    }
}

/// The status corrections of a pass over `cs`, in list order.
pub open spec fn patch_seq(cs: Seq<Computer>, uid: Option<String>, now: int) -> Seq<(int, bool)>
    decreases cs.len(),
{
    if cs.len() == 0 {
        Seq::empty()
    } else {
        let prev = patch_seq(cs.drop_last(), uid, now);
        let c = cs.last();
        if owned_by(c, uid) && needs_patch(c, now) {
            prev.push(((cs.len() - 1) as int, recomputed_online(c, now)))
        } else {
            prev
        }
    }
}

/// Whether a heartbeat at `last_heartbeat_unix_sec` keeps a computer online at `now`.
pub fn is_online(last_heartbeat_unix_sec: Option<i64>, now: i64) -> (r: bool)
    ensures
        r == online_at(last_heartbeat_unix_sec, now as int),
{
    match last_heartbeat_unix_sec {
        Some(t) => (t as i128) >= (now as i128) - (OFFLINE_AFTER_SECS as i128),
        None => false,
    }
}

fn is_owned_by(c: &Computer, cluster_uid: &Option<String>) -> (r: bool)
    ensures
        r == owned_by(*c, *cluster_uid),
{
    match (&c.metadata.owner_references, cluster_uid) {
        (Some(refs), Some(uid)) => {
            let mut j: usize = 0;
            while j < refs.len()
                invariant
                    j <= refs@.len(),
                    c.metadata.owner_references == Some(*refs),
                    *cluster_uid == Some(*uid),
                    forall|k: int| 0 <= k < j ==> #[trigger] refs@[k].uid@ != uid@,
                decreases refs@.len() - j,
            {
                if refs[j].uid.eq(uid) {
                    assert(refs@[j as int].uid@ == uid@);
                    assert(c.metadata.owner_references->0@[j as int].uid@ == cluster_uid->0@);
                    assert(owned_by(*c, *cluster_uid));
                    return true;
                }
                j += 1;
            }
            false
        },
        _ => false,
    }
}

/// Decides, for each computer of the cluster, whether to wake it and whether to
/// correct its `online` flag, as seen at `now`. Computers that the cluster does
/// not own are passed over.
pub fn compute_cluster_diff(cluster: &ComputerCluster, computers: &Vec<Computer>, now: i64) -> (r: ClusterDiff)
    ensures
        wake_ids(r.commands@) == wake_seq(computers@, cluster.metadata.uid, now as int),
        r.status_patches@.map_values(|p: StatusPatch| patch_view(p)) == patch_seq(computers@, cluster.metadata.uid, now as int),
{
    let ghost cs = computers@;
    let ghost uid = cluster.metadata.uid;
    let mut commands: Vec<GatewayCommand> = Vec::new();
    let mut status_patches: Vec<StatusPatch> = Vec::new();
    let mut i: usize = 0;
    while i < computers.len()
        invariant
            i <= cs.len(),
            cs == computers@,
            uid == cluster.metadata.uid,
            wake_ids(commands@) == wake_seq(cs.subrange(0, i as int), uid, now as int),
            status_patches@.map_values(|p: StatusPatch| patch_view(p)) == patch_seq(cs.subrange(0, i as int), uid, now as int),
        decreases cs.len() - i,
    {
        let c = &computers[i];
        let ghost pre = cs.subrange(0, i as int);
        let ghost cmds0 = commands@;
        let ghost patches0 = status_patches@;
        assert(cs.subrange(0, i + 1).drop_last() =~= pre);
        assert(cs.subrange(0, i + 1).last() == *c);
        if is_owned_by(c, &cluster.metadata.uid) {
            let in_sync = match &c.status {
                Some(st) => st.state == c.spec.state,
                None => false,
            };
            if !in_sync {
                commands.push(GatewayCommand::Wake { computer_id: c.spec.id.clone() });
                assert(wake_ids(commands@) =~= wake_ids(cmds0).push(c.spec.id@));
            } else {
                match &c.status {
                    Some(st) => {
                        let online = is_online(st.last_heartbeat_unix_sec, now);
                        if st.online != online {
                            status_patches.push(StatusPatch { computer: i, online });
                            assert(status_patches@.map_values(|p: StatusPatch| patch_view(p))
                                =~= patches0.map_values(|p: StatusPatch| patch_view(p)).push((i as int, online)));
                            if !online {
                                commands.push(GatewayCommand::Wake { computer_id: c.spec.id.clone() });
                                assert(wake_ids(commands@) =~= wake_ids(cmds0).push(c.spec.id@));
                            }
                        }
                    },
                    None => {},
                }
            }
        }
        i += 1;
    }
    assert(cs.subrange(0, cs.len() as int) =~= cs);
    ClusterDiff { commands, status_patches }
}

/// Every computer of the cluster whose observed state differs from its declared
/// state is woken by a pass over the list that holds it, whatever the time.
pub proof fn lemma_diverged_computer_is_woken(cs: Seq<Computer>, uid: Option<String>, now: int, i: int)
    requires
        0 <= i < cs.len(),
        owned_by(cs[i], uid),
        diverged(cs[i]),
    ensures
        wake_seq(cs, uid, now).contains(cs[i].spec.id@),
    decreases cs.len(),
{
    let prev = wake_seq(cs.drop_last(), uid, now);
    if i == cs.len() - 1 {
        assert(wake_seq(cs, uid, now) == prev.push(cs[i].spec.id@));
        assert(wake_seq(cs, uid, now)[prev.len() as int] == cs[i].spec.id@);
    } else {
        assert(cs.drop_last()[i] == cs[i]);
        lemma_diverged_computer_is_woken(cs.drop_last(), uid, now, i);
        let k = choose|k: int| 0 <= k < prev.len() && prev[k] == cs[i].spec.id@;
        assert(wake_seq(cs, uid, now)[k] == cs[i].spec.id@);
    }
}

/// Being online follows the heartbeat monotonically: a heartbeat no older than one
/// that keeps a computer online keeps it online, at the same moment or earlier.
pub proof fn lemma_online_monotone(t1: i64, t2: i64, now1: int, now2: int)
    requires
        t1 <= t2,
        now2 <= now1,
        online_at(Some(t1), now1),
    ensures
        online_at(Some(t2), now2),
{
}

/// A pass corrects the `online` flag of each computer of the cluster at most once,
/// exactly when the stored flag differs from the recomputed one, and to the
/// recomputed value.
pub proof fn lemma_status_patched_once(cs: Seq<Computer>, uid: Option<String>, now: int)
    ensures
        forall|a: int, b: int|
            0 <= a < b < patch_seq(cs, uid, now).len() ==> (#[trigger] patch_seq(cs, uid, now)[a]).0
                < (#[trigger] patch_seq(cs, uid, now)[b]).0,
        forall|k: int|
            #![trigger patch_seq(cs, uid, now)[k]]
            0 <= k < patch_seq(cs, uid, now).len() ==> {
                let p = patch_seq(cs, uid, now)[k];
                &&& 0 <= p.0 < cs.len()
                &&& owned_by(cs[p.0], uid)
                &&& needs_patch(cs[p.0], now)
                &&& p.1 == recomputed_online(cs[p.0], now)
            },
        forall|i: int|
            0 <= i < cs.len() && owned_by(cs[i], uid) && needs_patch(#[trigger] cs[i], now) ==> exists|k: int|
                0 <= k < patch_seq(cs, uid, now).len() && (#[trigger] patch_seq(cs, uid, now)[k]).0 == i,
    decreases cs.len(),
{
    if cs.len() > 0 {
        let pre = cs.drop_last();
        lemma_status_patched_once(pre, uid, now);
        let prev = patch_seq(pre, uid, now);
        let ps = patch_seq(cs, uid, now);
        assert(forall|j: int| 0 <= j < pre.len() ==> pre[j] == cs[j]);
        assert forall|i: int|
            0 <= i < cs.len() && owned_by(cs[i], uid) && needs_patch(#[trigger] cs[i], now) implies exists|k: int|
                0 <= k < ps.len() && (#[trigger] ps[k]).0 == i by {
            if i < cs.len() - 1 {
                assert(pre[i] == cs[i]);
                let k = choose|k: int| 0 <= k < prev.len() && (#[trigger] prev[k]).0 == i;
                assert(ps[k] == prev[k]);
            } else {
                assert(ps[prev.len() as int].0 == i);
            }
        }
    }
}

/// Relies on chrono::Utc::now and DateTime::timestamp: the current time in whole
/// seconds since the Unix epoch. Nothing is promised of the value.
#[verifier::external_body]
fn unix_now() -> (r: i64) {
    chrono::Utc::now().timestamp()
}

/// One pass over the cluster's computers, as seen at the current time.
pub fn cluster_diff_now(cluster: &ComputerCluster, computers: &Vec<Computer>) -> (r: ClusterDiff)
    ensures
        exists|now: int|
            wake_ids(r.commands@) == wake_seq(computers@, cluster.metadata.uid, now)
                && r.status_patches@.map_values(|p: StatusPatch| patch_view(p)) == patch_seq(
                computers@,
                cluster.metadata.uid,
                now,
            ),
{
    let now = unix_now();
    compute_cluster_diff(cluster, computers, now)
}

/// When to look at a cluster again after a pass that produced `commands`:
/// soon while commands are pending, later when all is in order.
pub fn reconcile_action(commands: &Vec<GatewayCommand>) -> (r: Action)
    ensures
        r.requeue_after_secs == if commands@.len() == 0 {
            STEADY_REQUEUE_SECS
        } else {
            PENDING_REQUEUE_SECS
        },
{
    if commands.len() == 0 {
        Action::requeue(STEADY_REQUEUE_SECS)
    } else {
        Action::requeue(PENDING_REQUEUE_SECS)
    }
}

/// When to look at an object again after a failed pass: soon, whatever failed.
pub fn error_policy(error: &Error) -> (r: Action)
    ensures
        r.requeue_after_secs == PENDING_REQUEUE_SECS,
{
    Action::requeue(PENDING_REQUEUE_SECS)
}

} // verus!
