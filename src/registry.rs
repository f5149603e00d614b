//! The root node's table of registered nodes.
//!
//! Entries are keyed by the session id of the connection that registered
//! them: a node that reconnects registers again under a new session, and the
//! entry of a session goes when that session closes.
use vstd::prelude::*;

use crate::address::SocketAddress;
use crate::identity::NodeInfo;

verus! {

/// One registered node: who it is, the certificate it will present, and the
/// connection (by session id and observed address) that registered it.
pub struct RegistryEntry {
    pub session_id: u64,
    pub identity: NodeInfo,
    pub certificate_der: Vec<u8>,
    pub address: SocketAddress,
}

/// No two entries belong to the same session.
pub open spec fn unique_sessions(s: Seq<RegistryEntry>) -> bool {
    forall|i: int, j: int|
        0 <= i < s.len() && 0 <= j < s.len() && #[trigger] s[i].session_id == #[trigger] s[j].session_id
            ==> i == j
}

/// Some entry belongs to session `sid`.
pub open spec fn has_session(s: Seq<RegistryEntry>, sid: u64) -> bool {
    exists|i: int| 0 <= i < s.len() && #[trigger] s[i].session_id == sid
}

/// Some entry carries identity `uuid`.
pub open spec fn has_uuid(s: Seq<RegistryEntry>, uuid: u128) -> bool {
    exists|i: int| 0 <= i < s.len() && #[trigger] s[i].identity.uuid == uuid
}

/// The entries after registering `e`: it replaces the entry of its session,
/// in place, or is appended when its session has none.
pub open spec fn with_entry(s: Seq<RegistryEntry>, e: RegistryEntry) -> Seq<RegistryEntry> {
    if has_session(s, e.session_id) {
        s.update(choose|i: int| 0 <= i < s.len() && s[i].session_id == e.session_id, e)
    } else {
        s.push(e)
    }
}

/// The entries after removing those of session `sid`.
pub open spec fn without_session(s: Seq<RegistryEntry>, sid: u64) -> Seq<RegistryEntry> {
    s.filter(|e: RegistryEntry| e.session_id != sid)
}

/// The identities listed, in table order.
pub open spec fn identities(s: Seq<RegistryEntry>) -> Seq<NodeInfo> {
    s.map_values(|e: RegistryEntry| e.identity)
}

/// `i` is the first entry of identity `uuid`.
pub open spec fn first_with_uuid(s: Seq<RegistryEntry>, uuid: u128, i: int) -> bool {
    &&& 0 <= i < s.len()
    &&& s[i].identity.uuid == uuid
    &&& forall|j: int| 0 <= j < i ==> #[trigger] s[j].identity.uuid != uuid
}

/// The registered nodes, one entry per live session.
pub struct Registry {
    entries: Vec<RegistryEntry>,
}

impl View for Registry {
    type V = Seq<RegistryEntry>;

    closed spec fn view(&self) -> Seq<RegistryEntry> {
        self.entries@
    }
}

impl Registry {
    /// At most one entry per session. `new` makes it hold and every method
    /// keeps it, and the entries are private, so it holds of every registry.
    pub open spec fn wf(&self) -> bool {
        unique_sessions(self@)
    }

    /// An empty table.
    pub fn new() -> (r: Registry)
        ensures
            r@ == Seq::<RegistryEntry>::empty(),
            r.wf(),
    {
        Registry { entries: Vec::new() }
    }

    /// Number of entries.
    pub fn len(&self) -> (r: usize)
        ensures
            r == self@.len(),
    {
        self.entries.len()
    }

    /// The position of the entry of session `sid`, if there is one.
    fn position_of_session(&self, sid: u64) -> (r: Option<usize>)
        ensures
            match r {
                Some(i) => i < self@.len() && self@[i as int].session_id == sid,
                None => !has_session(self@, sid),
            },
    {
        let mut i: usize = 0;
        while i < self.entries.len()
            invariant
                i <= self.entries@.len(),
                forall|j: int| 0 <= j < i ==> #[trigger] self.entries@[j].session_id != sid,
            decreases self.entries@.len() - i,
        {
            if self.entries[i].session_id == sid {
                return Some(i);
            }
            i = i + 1;
        }
        None
    }

    /// Records that `identity` registered over session `session_id`, replacing
    /// what that session registered before. Other sessions' entries, including
    /// ones of the same identity, stay.
    pub fn register(
        &mut self,
        session_id: u64,
        identity: NodeInfo,
        certificate_der: Vec<u8>,
        address: SocketAddress,
    )
        requires
            old(self).wf(),
        ensures
            final(self)@ == with_entry(
                old(self)@,
                (RegistryEntry { session_id, identity, certificate_der, address }),
            ),
            final(self).wf(),
    {
        let e = RegistryEntry { session_id, identity, certificate_der, address };
        let ghost old_s = self@;
        proof {
            lemma_with_entry_unique(old_s, e);
        }
        match self.position_of_session(session_id) {
            Some(i) => {
                proof {
                    let k = choose|k: int| 0 <= k < old_s.len() && old_s[k].session_id == session_id;
                    assert(old_s[k].session_id == old_s[i as int].session_id);
                }
                self.entries.set(i, e);
            },
            None => {
                self.entries.push(e);
            },
        }
    }

    /// Removes the entry of session `session_id`. Nothing happens when the
    /// session has none.
    pub fn unregister(&mut self, session_id: u64)
        requires
            old(self).wf(),
        ensures
            final(self)@ == without_session(old(self)@, session_id),
            final(self).wf(),
    {
        let ghost old_s = self@;
        proof {
            lemma_without_session_unique(old_s, session_id);
        }
        match self.position_of_session(session_id) {
            Some(i) => {
                proof {
                    lemma_remove_only_match(old_s, i as int);
                }
                self.entries.remove(i);
            },
            None => {
                proof {
                    lemma_without_absent(old_s, session_id);
                }
            },
        }
    }

    /// The registered identities, in table order.
    pub fn list(&self) -> (r: Vec<NodeInfo>)
        ensures
            r@ == identities(self@),
    {
        let mut r: Vec<NodeInfo> = Vec::new();
        let mut i: usize = 0;
        while i < self.entries.len()
            invariant
                i <= self.entries@.len(),
                r@ == identities(self.entries@.subrange(0, i as int)),
            decreases self.entries@.len() - i,
        {
            r.push(self.entries[i].identity.snapshot());
            proof {
                assert(self.entries@.subrange(0, i + 1) == self.entries@.subrange(0, i as int).push(
                    self.entries@[i as int],
                ));
            }
            i = i + 1;
        }
        proof {
            assert(self.entries@.subrange(0, i as int) == self.entries@);
        }
        r
    }

    /// The first entry whose identity is `uuid`; `None` when no entry has it.
    pub fn resolve(&self, uuid: u128) -> (r: Option<&RegistryEntry>)
        ensures
            match r {
                Some(e) => exists|i: int| first_with_uuid(self@, uuid, i) && self@[i] == *e,
                None => !has_uuid(self@, uuid),
            },
    {
        let mut i: usize = 0;
        while i < self.entries.len()
            invariant
                i <= self.entries@.len(),
                forall|j: int| 0 <= j < i ==> #[trigger] self.entries@[j].identity.uuid != uuid,
            decreases self.entries@.len() - i,
        {
            if self.entries[i].identity.uuid == uuid {
                assert(first_with_uuid(self@, uuid, i as int));
                return Some(&self.entries[i]);
            }
            i = i + 1;
        }
        None
    }
}

proof fn lemma_with_entry_unique(s: Seq<RegistryEntry>, e: RegistryEntry)
    requires
        unique_sessions(s),
    ensures
        unique_sessions(with_entry(s, e)),
{
    if has_session(s, e.session_id) {
        let k = choose|k: int| 0 <= k < s.len() && s[k].session_id == e.session_id;
        let t = s.update(k, e);
        assert forall|i: int, j: int|
            0 <= i < t.len() && 0 <= j < t.len() && #[trigger] t[i].session_id
                == #[trigger] t[j].session_id implies i == j by {
            if i != k && j != k {
                assert(s[i].session_id == s[j].session_id);
            } else if i == k && j != k {
                assert(s[k].session_id == s[j].session_id);
            } else if j == k && i != k {
                assert(s[i].session_id == s[k].session_id);
            }
        }
    } else {
        let t = s.push(e);
        assert forall|i: int, j: int|
            0 <= i < t.len() && 0 <= j < t.len() && #[trigger] t[i].session_id
                == #[trigger] t[j].session_id implies i == j by {
            if i < s.len() && j < s.len() {
                assert(s[i].session_id == s[j].session_id);
            } else if i < s.len() {
                assert(s[i].session_id == e.session_id);
            } else if j < s.len() {
                assert(s[j].session_id == e.session_id);
            }
        }
    }
}

proof fn lemma_without_session_unique(s: Seq<RegistryEntry>, sid: u64)
    requires
        unique_sessions(s),
    ensures
        unique_sessions(without_session(s, sid)),
    decreases s.len(),
{
    reveal(Seq::filter);
    let f = |e: RegistryEntry| e.session_id != sid;
    if s.len() > 0 {
        let init = s.drop_last();
        assert(unique_sessions(init)) by {
            assert forall|i: int, j: int|
                0 <= i < init.len() && 0 <= j < init.len() && #[trigger] init[i].session_id
                    == #[trigger] init[j].session_id implies i == j by {
                assert(s[i].session_id == s[j].session_id);
            }
        }
        lemma_without_session_unique(init, sid);
        assert(s == init.push(s.last()));
        let t = without_session(s, sid);
        let ti = without_session(init, sid);
        if f(s.last()) {
            assert(t == ti.push(s.last()));
            assert forall|i: int| 0 <= i < ti.len() implies #[trigger] ti[i].session_id
                != s.last().session_id by {
                let x = ti[i];
                assert(ti.contains(x));
                init.lemma_filter_contains_rev(f, x);
                let m = choose|m: int| 0 <= m < init.len() && init[m] == x;
                assert(s[m].session_id == s[s.len() - 1].session_id ==> m == s.len() - 1);
            }
            assert forall|i: int, j: int|
                0 <= i < t.len() && 0 <= j < t.len() && #[trigger] t[i].session_id
                    == #[trigger] t[j].session_id implies i == j by {
                if i < ti.len() && j < ti.len() {
                    assert(ti[i].session_id == ti[j].session_id);
                } else if i < ti.len() {
                    assert(ti[i].session_id != s.last().session_id);
                } else if j < ti.len() {
                    assert(ti[j].session_id != s.last().session_id);
                }
            }
        } else {
            assert(t == ti);
        }
    }
}

/// Filtering out a session that has no entry keeps the table as it is.
proof fn lemma_without_absent(s: Seq<RegistryEntry>, sid: u64)
    requires
        !has_session(s, sid),
    ensures
        without_session(s, sid) == s,
    decreases s.len(),
{
    reveal(Seq::filter);
    if s.len() > 0 {
        let init = s.drop_last();
        assert(!has_session(init, sid)) by {
            if has_session(init, sid) {
                let k = choose|k: int| 0 <= k < init.len() && init[k].session_id == sid;
                assert(s[k].session_id == sid);
            }
        }
        lemma_without_absent(init, sid);
        assert(s == init.push(s.last()));
        assert(s[s.len() - 1].session_id != sid);
        assert(s.drop_last() == init);
        assert(without_session(s, sid) == without_session(init, sid).push(s.last()));
    }
}

/// Where the entry at `k` is the only one of its session, filtering that
/// session out is removing position `k`.
proof fn lemma_remove_only_match(s: Seq<RegistryEntry>, k: int)
    requires
        unique_sessions(s),
        0 <= k < s.len(),
    ensures
        without_session(s, s[k].session_id) == s.remove(k),
    decreases s.len(),
{
    reveal(Seq::filter);
    let sid = s[k].session_id;
    let init = s.drop_last();
    assert(s == init.push(s.last()));
    if k == s.len() - 1 {
        assert(!has_session(init, sid)) by {
            if has_session(init, sid) {
                let m = choose|m: int| 0 <= m < init.len() && init[m].session_id == sid;
                assert(s[m].session_id == s[k].session_id);
            }
        }
        lemma_without_absent(init, sid);
        assert(s.drop_last() == init);
        assert(without_session(s, sid) == without_session(init, sid));
        assert(s.remove(k) == init);
    } else {
        assert(unique_sessions(init)) by {
            assert forall|i: int, j: int|
                0 <= i < init.len() && 0 <= j < init.len() && #[trigger] init[i].session_id
                    == #[trigger] init[j].session_id implies i == j by {
                assert(s[i].session_id == s[j].session_id);
            }
        }
        lemma_remove_only_match(init, k);
        assert(init[k] == s[k]);
        assert(s.last().session_id != sid) by {
            assert(s[s.len() - 1].session_id == s[k].session_id ==> s.len() - 1 == k);
        }
        assert(s.drop_last() == init);
        assert(without_session(s, sid) == without_session(init, sid).push(s.last()));
        assert(s.remove(k) == init.remove(k).push(s.last()));
    }
}

/// Unregistering is idempotent: a second unregister of the same session
/// changes nothing, and unregistering a session with no entry changes nothing.
pub proof fn lemma_unregister_idempotent(s: Seq<RegistryEntry>, sid: u64)
    ensures
        without_session(without_session(s, sid), sid) == without_session(s, sid),
        !has_session(s, sid) ==> without_session(s, sid) == s,
{
    let t = without_session(s, sid);
    assert(!has_session(t, sid)) by {
        if has_session(t, sid) {
            let k = choose|k: int| 0 <= k < t.len() && t[k].session_id == sid;
            s.lemma_filter_pred(|e: RegistryEntry| e.session_id != sid, k);
        }
    }
    lemma_without_absent(t, sid);
    if !has_session(s, sid) {
        lemma_without_absent(s, sid);
    }
}

/// At most one entry per session: registering and unregistering keep every
/// session id to a single entry, starting from the empty table.
pub proof fn lemma_sessions_stay_unique(s: Seq<RegistryEntry>, e: RegistryEntry, sid: u64)
    requires
        unique_sessions(s),
    ensures
        unique_sessions(Seq::<RegistryEntry>::empty()),
        unique_sessions(with_entry(s, e)),
        unique_sessions(without_session(s, sid)),
{
    lemma_with_entry_unique(s, e);
    lemma_without_session_unique(s, sid);
}

/// Resolve completeness: a registered entry stays in the table, where
/// resolving its uuid finds an entry, until its own session registers again
/// or is unregistered; a uuid that no registration brought is never found.
pub proof fn lemma_resolve_complete(
    s: Seq<RegistryEntry>,
    e: RegistryEntry,
    other: RegistryEntry,
    sid: u64,
    uuid: u128,
)
    requires
        unique_sessions(s),
        other.session_id != e.session_id,
        sid != e.session_id,
    ensures
        with_entry(s, e).contains(e),
        s.contains(e) ==> with_entry(s, other).contains(e),
        s.contains(e) ==> without_session(s, sid).contains(e),
        s.contains(e) ==> exists|i: int| first_with_uuid(s, e.identity.uuid, i),
        !has_uuid(s, uuid) && other.identity.uuid != uuid ==> !has_uuid(with_entry(s, other), uuid),
        !has_uuid(s, uuid) ==> !has_uuid(without_session(s, sid), uuid),
{
    let w = with_entry(s, e);
    if has_session(s, e.session_id) {
        let k = choose|k: int| 0 <= k < s.len() && s[k].session_id == e.session_id;
        assert(w[k] == e);
    } else {
        assert(w[w.len() - 1] == e);
    }
    if s.contains(e) {
        let m = choose|m: int| 0 <= m < s.len() && s[m] == e;
        let wo = with_entry(s, other);
        if has_session(s, other.session_id) {
            let k = choose|k: int| 0 <= k < s.len() && s[k].session_id == other.session_id;
            assert(k != m);
            assert(wo[m] == e);
        } else {
            assert(wo[m] == e);
        }
        s.lemma_filter_contains(|x: RegistryEntry| x.session_id != sid, m);
        lemma_first_with_uuid_exists(s, e.identity.uuid, m);
    }
    if !has_uuid(s, uuid) && other.identity.uuid != uuid {
        let wo = with_entry(s, other);
        if has_uuid(wo, uuid) {
            let k = choose|k: int| 0 <= k < wo.len() && wo[k].identity.uuid == uuid;
            if has_session(s, other.session_id) {
                let j = choose|j: int| 0 <= j < s.len() && s[j].session_id == other.session_id;
                assert(k != j ==> s[k].identity.uuid == uuid);
            } else {
                assert(k < s.len() ==> s[k].identity.uuid == uuid);
            }
        }
    }
    if !has_uuid(s, uuid) {
        let t = without_session(s, sid);
        if has_uuid(t, uuid) {
            let k = choose|k: int| 0 <= k < t.len() && t[k].identity.uuid == uuid;
            assert(t.contains(t[k]));
            s.lemma_filter_contains_rev(|x: RegistryEntry| x.session_id != sid, t[k]);
        }
    }
}

/// Where position `m` carries `uuid`, some position is the first to carry it.
proof fn lemma_first_with_uuid_exists(s: Seq<RegistryEntry>, uuid: u128, m: int)
    requires
        0 <= m < s.len(),
        s[m].identity.uuid == uuid,
    ensures
        exists|i: int| first_with_uuid(s, uuid, i),
    decreases m,
{
    if forall|j: int| 0 <= j < m ==> #[trigger] s[j].identity.uuid != uuid {
        assert(first_with_uuid(s, uuid, m));
    } else {
        let j = choose|j: int| 0 <= j < m && #[trigger] s[j].identity.uuid == uuid;
        lemma_first_with_uuid_exists(s, uuid, j);
    }
}

} // verus!
