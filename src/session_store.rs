use vstd::prelude::*;
use vstd::string::StringExecFns;

verus! {

/// The file the session records are stored in.
pub const SESSION_STORE_KEY: &'static str = "sessions.dat";

/// The key, inside the store, of the list of session records.
pub const SESSIONS_KEY: &'static str = "sessions";

/// What is kept about a session between runs; times are Unix seconds.
#[derive(Debug, Clone, PartialEq, Eq)]
pub struct SessionMetadata {
    pub id: String,
    pub name: String,
    pub workspace_path: String,
    pub created_at: u64,
    pub last_active: u64,
}

/// Relies on `SystemTime::elapsed` on the Unix epoch: the time since then,
/// in whole seconds, or `None` when the clock reads earlier than the epoch.
#[verifier::external_body]
fn unix_time_now() -> (r: Option<u64>) {
    std::time::UNIX_EPOCH.elapsed().ok().map(|d| d.as_secs())
}

/// The current time in Unix seconds; a clock set before the epoch reads 0.
fn now_secs() -> u64 {
    match unix_time_now() {
        Some(t) => t,
        None => 0,
    }
}

impl SessionMetadata {
    /// A record created, and last active, at Unix time `now`.
    pub fn new_at(id: String, name: String, workspace_path: String, now: u64) -> (r: Self)
        ensures
            r.id == id,
            r.name == name,
            r.workspace_path == workspace_path,
            r.created_at == now,
            r.last_active == now,
    {
        SessionMetadata { id, name, workspace_path, created_at: now, last_active: now }
    }

    /// A record created, and last active, now.
    pub fn new(id: String, name: String, workspace_path: String) -> (r: Self)
        ensures
            r.id == id,
            r.name == name,
            r.workspace_path == workspace_path,
            r.created_at == r.last_active,
    {
        let now = now_secs();
        Self::new_at(id, name, workspace_path, now)
    }

    /// Marks the session active at Unix time `now`; nothing else changes.
    pub fn set_last_active(&mut self, now: u64)
        ensures
            final(self).last_active == now,
            final(self).id == old(self).id,
            final(self).name == old(self).name,
            final(self).workspace_path == old(self).workspace_path,
            final(self).created_at == old(self).created_at,
    {
        self.last_active = now;
    }

    /// Marks the session active now; nothing else changes.
    pub fn update_last_active(&mut self)
        ensures
            final(self).id == old(self).id,
            final(self).name == old(self).name,
            final(self).workspace_path == old(self).workspace_path,
            final(self).created_at == old(self).created_at,
    {
        let now = now_secs();
        self.set_last_active(now);
    }
}

/// `s` is the list of records with `session` stored by id: it replaces the
/// first record with the same id, or is appended when there is none.
pub open spec fn is_upsert(old: Seq<SessionMetadata>, session: SessionMetadata, s: Seq<SessionMetadata>) -> bool {
    (exists|p: int|
        0 <= p < old.len() && (#[trigger] old[p]).id@ == session.id@ && (forall|j: int|
            0 <= j < p ==> (#[trigger] old[j]).id@ != session.id@) && s == old.update(p, session))
        || ((forall|j: int| 0 <= j < old.len() ==> (#[trigger] old[j]).id@ != session.id@) && s
        == old.push(session))
}

/// Stores `session`, replacing the record with the same id if there is one.
pub fn upsert_session(sessions: &mut Vec<SessionMetadata>, session: SessionMetadata)
    ensures
        is_upsert(old(sessions)@, session, final(sessions)@),
{
    let mut i: usize = 0;
    while i < sessions.len()
        invariant
            sessions@ == old(sessions)@,
            0 <= i <= sessions@.len(),
            forall|j: int| 0 <= j < i ==> (#[trigger] sessions@[j]).id@ != session.id@,
        decreases sessions@.len() - i,
    {
        if sessions[i].id == session.id {
            let ghost before = sessions@;
            sessions.set(i, session);
            assert(before[i as int].id@ == session.id@);
            return;
        }
        i = i + 1;
    }
    sessions.push(session);
}

/// The records of `s` whose id is not `id`, in order.
pub open spec fn without_id(s: Seq<SessionMetadata>, id: Seq<char>) -> Seq<SessionMetadata> {
    s.filter(|m: SessionMetadata| m.id@ != id)
}

/// Removes every record with id `id`, keeping the others in order.
pub fn remove_session(sessions: &mut Vec<SessionMetadata>, id: &str)
    ensures
        final(sessions)@ == without_id(old(sessions)@, id@),
{
    let target = String::from_str(id);
    let ghost orig = sessions@;
    let ghost n = orig.len();
    let ghost mut k: int = 0;
    let mut i: usize = 0;
    while i < sessions.len()
        invariant
            target@ == id@,
            n == orig.len(),
            0 <= k <= n,
            i == without_id(orig.subrange(0, k), id@).len(),
            sessions@ == without_id(orig.subrange(0, k), id@) + orig.subrange(k, n as int),
        decreases n - k,
    {
        proof {
            reveal(Seq::filter);
            assert(orig.subrange(0, k + 1).drop_last() =~= orig.subrange(0, k));
            assert(sessions@[i as int] == orig[k]);
            assert(orig.subrange(0, k + 1).last() == orig[k]);
            assert(without_id(orig.subrange(0, k + 1), id@) == if orig[k].id@ != id@ {
                without_id(orig.subrange(0, k), id@).push(orig[k])
            } else {
                without_id(orig.subrange(0, k), id@)
            });
        }
        let ghost pre = sessions@;
        let ghost kept = without_id(orig.subrange(0, k), id@);
        if sessions[i].id == target {
            sessions.remove(i);
            proof {
                assert(pre == kept + orig.subrange(k, n as int));
                assert(sessions@ =~= kept + orig.subrange(k + 1, n as int));
                assert(sessions@ =~= without_id(orig.subrange(0, k + 1), id@) + orig.subrange(
                    k + 1,
                    n as int,
                ));
                k = k + 1;
            }
        } else {
            i = i + 1;
            proof {
                assert(pre == kept + orig.subrange(k, n as int));
                assert(sessions@ =~= kept.push(orig[k]) + orig.subrange(k + 1, n as int));
                assert(sessions@ =~= without_id(orig.subrange(0, k + 1), id@) + orig.subrange(
                    k + 1,
                    n as int,
                ));
                k = k + 1;
            }
        }
    }
    proof {
        reveal(Seq::filter);
        if k < n {
            assert(sessions@.len() > i);
        }
        assert(orig.subrange(0, n as int) =~= orig);
        assert(sessions@ =~= without_id(orig, id@));
    }
}

} // verus!
