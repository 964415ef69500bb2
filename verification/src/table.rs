//! The session table and its lifecycle operations.
//!
//! A `PtyState` maps session ids to live sessions. Its mathematical view is a
//! `Map<Seq<char>, SessionModel>`, and each operation's contract states the
//! new view as a spec-level step function of the old one (`spawn_step`,
//! `write_step`, `resize_step`, `kill_step`, `remove_step`), so that laws
//! about sequences of operations can be proved purely over the model.
//!
//! Removal discipline: `pty_cleanup` is the only operation that erases an
//! entry. `pty_kill` merely marks the session as draining; the output relay,
//! on observing end-of-stream, is the single caller of `pty_cleanup`. This is
//! what rules out a double-removal race between a spontaneous child exit and
//! an explicit kill.

use vstd::prelude::*;
use vstd::string::StringExecFns;
use vstd::utf8::encode_utf8;

verus! {

/// Terminal geometry: rows and columns, as supplied at spawn and on resize.
#[derive(Clone, Copy)]
pub struct PtyResize {
    pub rows: u16,
    pub cols: u16,
}

/// One live session, as the table records it: its key, its current geometry,
/// whether a kill has been requested (draining), and the bytes forwarded to
/// the child's input so far, in order.
pub struct PtyInstance {
    pub id: String,
    pub rows: u16,
    pub cols: u16,
    pub draining: bool,
    pub written: Vec<u8>,
}

/// The model of one session: what the table's view records under an id.
#[verifier::ext_equal]
pub struct SessionModel {
    pub rows: u16,
    pub cols: u16,
    pub draining: bool,
    pub written: Seq<u8>,
}

/// The model of the whole table.
pub type TableModel = Map<Seq<char>, SessionModel>;

impl PtyInstance {
    pub open spec fn model(self) -> SessionModel {
        SessionModel {
            rows: self.rows,
            cols: self.cols,
            draining: self.draining,
            written: self.written@,
        }
    }
}

/// The session a fresh spawn registers: given geometry, not draining, and an
/// empty input record.
pub open spec fn fresh_session(rows: u16, cols: u16) -> SessionModel {
    SessionModel { rows, cols, draining: false, written: Seq::empty() }
}

/// Registering a new session under `id`.
pub open spec fn spawn_step(m: TableModel, id: Seq<char>, rows: u16, cols: u16) -> TableModel {
    m.insert(id, fresh_session(rows, cols))
}

/// Forwarding `bytes` to the session `id`: appended to its input record, in
/// order; a no-op when the id is absent. No other session changes.
pub open spec fn write_step(m: TableModel, id: Seq<char>, bytes: Seq<u8>) -> TableModel {
    if m.contains_key(id) {
        m.insert(id, SessionModel { written: m[id].written + bytes, ..m[id] })
    } else {
        m
    }
}

/// Updating the geometry of session `id`; a no-op when the id is absent.
pub open spec fn resize_step(m: TableModel, id: Seq<char>, rows: u16, cols: u16) -> TableModel {
    if m.contains_key(id) {
        m.insert(id, SessionModel { rows, cols, ..m[id] })
    } else {
        m
    }
}

/// Requesting termination of session `id`: the entry is only marked as
/// draining, never removed here; a no-op when the id is absent.
pub open spec fn kill_step(m: TableModel, id: Seq<char>) -> TableModel {
    if m.contains_key(id) {
        m.insert(id, SessionModel { draining: true, ..m[id] })
    } else {
        m
    }
}

/// Erasing session `id` once its output stream has ended; a no-op when the
/// id is absent.
pub open spec fn remove_step(m: TableModel, id: Seq<char>) -> TableModel {
    if m.contains_key(id) {
        m.remove(id)
    } else {
        m
    }
}

/// Rejection of a lifecycle request.
#[derive(Clone, Copy, Debug, PartialEq, Eq, Structural)]
pub enum PtyError {
    /// A spawn named an id that is still live.
    DuplicateSession,
}

impl PtyError {
    /// The error as text, for the host to surface to its caller.
    pub fn message(&self) -> (r: String)
        ensures
            r@ == "duplicate session id"@,
    {
        String::from_str("duplicate session id")
    }
}

/// The session table: the single shared registry of live sessions.
pub struct PtyState {
    sessions: Vec<PtyInstance>,
}

impl View for PtyState {
    type V = TableModel;

    closed spec fn view(&self) -> TableModel {
        Map::new(
            |k: Seq<char>| self.has(k),
            |k: Seq<char>| self.sessions@[self.idx(k)].model(),
        )
    }
}

impl PtyState {
    spec fn has(&self, k: Seq<char>) -> bool {
        exists|i: int| 0 <= i < self.sessions@.len() && self.sessions@[i].id@ == k
    }

    spec fn idx(&self, k: Seq<char>) -> int {
        choose|i: int| 0 <= i < self.sessions@.len() && self.sessions@[i].id@ == k
    }

    /// Ids are unique: no two live sessions share a key.
    pub closed spec fn wf(self) -> bool {
        forall|i: int, j: int|
            0 <= i < j < self.sessions@.len() ==> self.sessions@[i].id@ != self.sessions@[j].id@
    }

    /// An index holding `k` is the one the view reads through.
    proof fn lemma_view_at(&self, k: Seq<char>, i: int)
        requires
            self.wf(),
            0 <= i < self.sessions@.len(),
            self.sessions@[i].id@ == k,
        ensures
            self.has(k),
            self.idx(k) == i,
            self@.contains_key(k),
            self@[k] == self.sessions@[i].model(),
    {
        assert(self.has(k));
        let j = self.idx(k);
        assert(0 <= j < self.sessions@.len() && self.sessions@[j].id@ == k);
        if i < j {
            assert(self.sessions@[i].id@ != self.sessions@[j].id@);
        }
        if j < i {
            assert(self.sessions@[j].id@ != self.sessions@[i].id@);
        }
    }

    /// Fresh, empty table: no id is present.
    pub fn new() -> (r: PtyState)
        ensures
            r.wf(),
            r@ == Map::<Seq<char>, SessionModel>::empty(),
    {
        let r = PtyState { sessions: Vec::new() };
        proof {
            assert(r@ =~= Map::<Seq<char>, SessionModel>::empty());
        }
        r
    }

    /// Position of the session keyed `id`, if it is live.
    fn find_index(&self, id: &String) -> (r: Option<usize>)
        requires
            self.wf(),
        ensures
            match r {
                Some(i) => 0 <= i < self.sessions@.len() && self.sessions@[i as int].id@ == id@
                    && self@.contains_key(id@) && self@[id@] == self.sessions@[i as int].model(),
                None => !self@.contains_key(id@),
            },
    {
        let mut i: usize = 0;
        while i < self.sessions.len()
            invariant
                self.wf(),
                i <= self.sessions@.len(),
                forall|j: int| 0 <= j < i ==> self.sessions@[j].id@ != id@,
            decreases self.sessions@.len() - i,
        {
            if self.sessions[i].id == *id {
                proof {
                    self.lemma_view_at(id@, i as int);
                }
                return Some(i);
            }
            i += 1;
        }
        proof {
            assert(!self.has(id@));
        }
        None
    }

    /// Whether a session with this id is live.
    pub fn contains(&self, id: &String) -> (r: bool)
        requires
            self.wf(),
        ensures
            r == self@.contains_key(id@),
    {
        self.find_index(id).is_some()
    }

    /// Current geometry of the session, if it is live.
    pub fn dimensions(&self, id: &String) -> (r: Option<(u16, u16)>)
        requires
            self.wf(),
        ensures
            match r {
                Some(d) => self@.contains_key(id@) && d.0 == self@[id@].rows && d.1
                    == self@[id@].cols,
                None => !self@.contains_key(id@),
            },
    {
        match self.find_index(id) {
            Some(i) => Some((self.sessions[i].rows, self.sessions[i].cols)),
            None => None,
        }
    }

    /// Whether a kill has been requested for the session, if it is live.
    pub fn is_draining(&self, id: &String) -> (r: Option<bool>)
        requires
            self.wf(),
        ensures
            match r {
                Some(d) => self@.contains_key(id@) && d == self@[id@].draining,
                None => !self@.contains_key(id@),
            },
    {
        match self.find_index(id) {
            Some(i) => Some(self.sessions[i].draining),
            None => None,
        }
    }

    /// The bytes forwarded to the session so far, in order, if it is live.
    pub fn write_log(&self, id: &String) -> (r: Option<&Vec<u8>>)
        requires
            self.wf(),
        ensures
            match r {
                Some(w) => self@.contains_key(id@) && w@ == self@[id@].written,
                None => !self@.contains_key(id@),
            },
    {
        match self.find_index(id) {
            Some(i) => Some(&self.sessions[i].written),
            None => None,
        }
    }
}

/// Pushing a fresh instance adds exactly its id to the view.
proof fn lemma_push_view(pre: PtyState, post: PtyState, inst: PtyInstance)
    requires
        pre.wf(),
        !pre.has(inst.id@),
        post.sessions@ == pre.sessions@.push(inst),
    ensures
        post.wf(),
        post@ == pre@.insert(inst.id@, inst.model()),
{
    let n = pre.sessions@.len() as int;
    let key = inst.id@;
    assert forall|i: int, j: int|
        0 <= i < j < post.sessions@.len() implies post.sessions@[i].id@
        != post.sessions@[j].id@ by {
        if j < n {
            assert(pre.sessions@[i].id@ != pre.sessions@[j].id@);
        } else {
            assert(post.sessions@[j] == inst);
            assert(post.sessions@[i] == pre.sessions@[i]);
            if pre.sessions@[i].id@ == key {
                assert(pre.has(key));
            }
        }
    }
    assert(post@ =~= pre@.insert(key, inst.model())) by {
        assert forall|k: Seq<char>| post@.contains_key(k) implies pre@.insert(
            key,
            inst.model(),
        ).contains_key(k) && post@[k] == pre@.insert(key, inst.model())[k] by {
            assert(post.has(k));
            let j = post.idx(k);
            assert(0 <= j < post.sessions@.len() && post.sessions@[j].id@ == k);
            post.lemma_view_at(k, j);
            if j < n {
                assert(post.sessions@[j] == pre.sessions@[j]);
                pre.lemma_view_at(k, j);
                assert(k != key);
            } else {
                assert(post.sessions@[j] == inst);
            }
        }
        assert forall|k: Seq<char>| pre@.insert(key, inst.model()).contains_key(
            k,
        ) implies post@.contains_key(k) by {
            if k == key {
                assert(post.sessions@[n].id@ == key);
                post.lemma_view_at(key, n);
            } else {
                assert(pre.has(k));
                let j = pre.idx(k);
                assert(0 <= j < pre.sessions@.len() && pre.sessions@[j].id@ == k);
                assert(post.sessions@[j] == pre.sessions@[j]);
                post.lemma_view_at(k, j);
            }
        }
    }
}

/// Replacing the instance at one position, keeping its id, rewrites exactly
/// that id's entry in the view.
proof fn lemma_update_view(pre: PtyState, post: PtyState, i: int, inst: PtyInstance)
    requires
        pre.wf(),
        0 <= i < pre.sessions@.len(),
        inst.id@ == pre.sessions@[i].id@,
        post.sessions@ == pre.sessions@.update(i, inst),
    ensures
        post.wf(),
        post@ == pre@.insert(inst.id@, inst.model()),
{
    let key = inst.id@;
    assert forall|a: int, b: int|
        0 <= a < b < post.sessions@.len() implies post.sessions@[a].id@
        != post.sessions@[b].id@ by {
        assert(post.sessions@[a].id@ == pre.sessions@[a].id@);
        assert(post.sessions@[b].id@ == pre.sessions@[b].id@);
        assert(pre.sessions@[a].id@ != pre.sessions@[b].id@);
    }
    assert(post@ =~= pre@.insert(key, inst.model())) by {
        assert forall|k: Seq<char>| post@.contains_key(k) implies pre@.insert(
            key,
            inst.model(),
        ).contains_key(k) && post@[k] == pre@.insert(key, inst.model())[k] by {
            assert(post.has(k));
            let j = post.idx(k);
            assert(0 <= j < post.sessions@.len() && post.sessions@[j].id@ == k);
            post.lemma_view_at(k, j);
            assert(pre.sessions@[j].id@ == k);
            pre.lemma_view_at(k, j);
            if j == i {
                assert(post.sessions@[j] == inst);
            } else {
                assert(post.sessions@[j] == pre.sessions@[j]);
                if i < j {
                    assert(pre.sessions@[i].id@ != pre.sessions@[j].id@);
                } else {
                    assert(pre.sessions@[i].id@ != pre.sessions@[j].id@);
                }
                assert(k != key);
            }
        }
        assert forall|k: Seq<char>| pre@.insert(key, inst.model()).contains_key(
            k,
        ) implies post@.contains_key(k) by {
            if k == key {
                assert(post.sessions@[i].id@ == key);
                post.lemma_view_at(key, i);
            } else {
                assert(pre.has(k));
                let j = pre.idx(k);
                assert(0 <= j < pre.sessions@.len() && pre.sessions@[j].id@ == k);
                assert(post.sessions@[j].id@ == pre.sessions@[j].id@);
                post.lemma_view_at(k, j);
            }
        }
    }
}

/// Removing the instance at one position erases exactly its id from the view.
proof fn lemma_remove_view(pre: PtyState, post: PtyState, i: int)
    requires
        pre.wf(),
        0 <= i < pre.sessions@.len(),
        post.sessions@ == pre.sessions@.remove(i),
    ensures
        post.wf(),
        post@ == pre@.remove(pre.sessions@[i].id@),
{
    let key = pre.sessions@[i].id@;
    assert forall|a: int, b: int|
        0 <= a < b < post.sessions@.len() implies post.sessions@[a].id@
        != post.sessions@[b].id@ by {
        let a0 = if a < i {
            a
        } else {
            a + 1
        };
        let b0 = if b < i {
            b
        } else {
            b + 1
        };
        assert(post.sessions@[a] == pre.sessions@[a0]);
        assert(post.sessions@[b] == pre.sessions@[b0]);
        assert(pre.sessions@[a0].id@ != pre.sessions@[b0].id@);
    }
    assert(post@ =~= pre@.remove(key)) by {
        assert forall|k: Seq<char>| post@.contains_key(k) implies pre@.remove(key).contains_key(k)
            && post@[k] == pre@.remove(key)[k] by {
            assert(post.has(k));
            let j = post.idx(k);
            assert(0 <= j < post.sessions@.len() && post.sessions@[j].id@ == k);
            post.lemma_view_at(k, j);
            let j0 = if j < i {
                j
            } else {
                j + 1
            };
            assert(post.sessions@[j] == pre.sessions@[j0]);
            pre.lemma_view_at(k, j0);
            if j0 < i {
                assert(pre.sessions@[j0].id@ != pre.sessions@[i].id@);
            } else {
                assert(pre.sessions@[i].id@ != pre.sessions@[j0].id@);
            }
            assert(k != key);
        }
        assert forall|k: Seq<char>| pre@.remove(key).contains_key(k) implies post@.contains_key(
            k,
        ) by {
            assert(pre.has(k));
            let j0 = pre.idx(k);
            assert(0 <= j0 < pre.sessions@.len() && pre.sessions@[j0].id@ == k);
            pre.lemma_view_at(k, j0);
            assert(j0 != i);
            let j = if j0 < i {
                j0
            } else {
                j0 - 1
            };
            assert(post.sessions@[j] == pre.sessions@[j0]);
            post.lemma_view_at(k, j);
        }
    }
}

/// Register a new session under `id` with the given geometry. Succeeds
/// exactly when no live session holds the id; on success the table gains a
/// fresh entry and nothing else changes. On rejection the table is unchanged.
pub fn pty_spawn(state: &mut PtyState, id: String, size: PtyResize) -> (r: Result<(), PtyError>)
    requires
        old(state).wf(),
    ensures
        final(state).wf(),
        match r {
            Ok(_) => !old(state)@.contains_key(id@) && final(state)@ == spawn_step(
                old(state)@,
                id@,
                size.rows,
                size.cols,
            ),
            Err(e) => old(state)@.contains_key(id@) && e == PtyError::DuplicateSession
                && final(state)@ == old(state)@,
        },
{
    let found = state.find_index(&id);
    match found {
        Some(_) => Err(PtyError::DuplicateSession),
        None => {
            let ghost pre = *state;
            let inst = PtyInstance {
                id,
                rows: size.rows,
                cols: size.cols,
                draining: false,
                written: Vec::new(),
            };
            let ghost ginst = inst;
            state.sessions.push(inst);
            proof {
                if pre.has(ginst.id@) {
                    let j = pre.idx(ginst.id@);
                    pre.lemma_view_at(ginst.id@, j);
                }
                lemma_push_view(pre, *state, ginst);
                assert(ginst.model() =~= fresh_session(size.rows, size.cols));
            }
            Ok(())
        },
    }
}

/// Forward `data` to the session's input. Returns whether the id was live;
/// when it was, the bytes of `data` are appended, in order, to that session's
/// input record and no other session changes; when it was not, the call is a
/// no-op success and the table is unchanged.
pub fn pty_write(state: &mut PtyState, id: String, data: String) -> (r: bool)
    requires
        old(state).wf(),
    ensures
        final(state).wf(),
        r == old(state)@.contains_key(id@),
        final(state)@ == write_step(old(state)@, id@, encode_utf8(data@)),
{
    let found = state.find_index(&id);
    match found {
        None => false,
        Some(i) => {
            let ghost pre = *state;
            let mut inst = state.sessions.remove(i);
            let ghost inst0 = inst;
            let bytes: &[u8] = data.as_str().as_bytes();
            let mut j: usize = 0;
            while j < bytes.len()
                invariant
                    j <= bytes@.len(),
                    inst.written@ == inst0.written@ + bytes@.subrange(0, j as int),
                    inst.id == inst0.id,
                    inst.rows == inst0.rows,
                    inst.cols == inst0.cols,
                    inst.draining == inst0.draining,
                decreases bytes@.len() - j,
            {
                let b = bytes[j];
                inst.written.push(b);
                j += 1;
            }
            proof {
                assert(inst.written@ =~= inst0.written@ + bytes@);
            }
            let ghost ginst = inst;
            state.sessions.insert(i, inst);
            proof {
                assert(state.sessions@ =~= pre.sessions@.update(i as int, ginst));
                lemma_update_view(pre, *state, i as int, ginst);
                assert(ginst.model() =~= SessionModel {
                    written: pre@[id@].written + encode_utf8(data@),
                    ..pre@[id@]
                });
            }
            true
        },
    }
}

/// Update the session's geometry. Returns whether the id was live; when it
/// was, its recorded rows and columns change to the given values and nothing
/// else does; when it was not, the call is a no-op success.
pub fn pty_resize(state: &mut PtyState, id: String, size: PtyResize) -> (r: bool)
    requires
        old(state).wf(),
    ensures
        final(state).wf(),
        r == old(state)@.contains_key(id@),
        final(state)@ == resize_step(old(state)@, id@, size.rows, size.cols),
{
    let found = state.find_index(&id);
    match found {
        None => false,
        Some(i) => {
            let ghost pre = *state;
            let mut inst = state.sessions.remove(i);
            inst.rows = size.rows;
            inst.cols = size.cols;
            let ghost ginst = inst;
            state.sessions.insert(i, inst);
            proof {
                assert(state.sessions@ =~= pre.sessions@.update(i as int, ginst));
                lemma_update_view(pre, *state, i as int, ginst);
                assert(ginst.model() =~= SessionModel {
                    rows: size.rows,
                    cols: size.cols,
                    ..pre@[id@]
                });
            }
            true
        },
    }
}

/// Request termination of the session. Idempotent and non-failing: an absent
/// id is a no-op success, and the entry is never removed here, only marked as
/// draining. Returns whether the id was live, i.e. whether a termination
/// signal is owed to the session's waiter.
pub fn pty_kill(state: &mut PtyState, id: String) -> (r: bool)
    requires
        old(state).wf(),
    ensures
        final(state).wf(),
        r == old(state)@.contains_key(id@),
        final(state)@ == kill_step(old(state)@, id@),
{
    let found = state.find_index(&id);
    match found {
        None => false,
        Some(i) => {
            let ghost pre = *state;
            let mut inst = state.sessions.remove(i);
            inst.draining = true;
            let ghost ginst = inst;
            state.sessions.insert(i, inst);
            proof {
                assert(state.sessions@ =~= pre.sessions@.update(i as int, ginst));
                lemma_update_view(pre, *state, i as int, ginst);
                assert(ginst.model() =~= SessionModel { draining: true, ..pre@[id@] });
            }
            true
        },
    }
}

/// Erase the session once its output stream has ended. This is the single
/// removal point of the table: after it, the id is absent and free for
/// reuse; every other entry is untouched. An absent id is a no-op. Returns
/// whether an entry was removed.
pub fn pty_cleanup(state: &mut PtyState, id: String) -> (r: bool)
    requires
        old(state).wf(),
    ensures
        final(state).wf(),
        r == old(state)@.contains_key(id@),
        final(state)@ == remove_step(old(state)@, id@),
{
    let found = state.find_index(&id);
    match found {
        None => false,
        Some(i) => {
            let ghost pre = *state;
            state.sessions.remove(i);
            proof {
                lemma_remove_view(pre, *state, i as int);
            }
            true
        },
    }
}

} // verus!
