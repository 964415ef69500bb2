//! Lifecycle laws of the session table.
//!
//! Each operation's contract pins the table's new view as a step function of
//! the old one; these laws are proved once over those step functions, so they
//! hold of every run of the operations, in any order and on any table.

use vstd::prelude::*;

use crate::table::fresh_session;
use crate::table::kill_step;
use crate::table::remove_step;
use crate::table::resize_step;
use crate::table::spawn_step;
use crate::table::write_step;
use crate::table::TableModel;

verus! {

/// A spawn makes its session visible: afterwards the id is live, with the
/// requested geometry, not draining, and with an empty input record.
pub proof fn law_spawn_registers(m: TableModel, id: Seq<char>, rows: u16, cols: u16)
    ensures
        spawn_step(m, id, rows, cols).contains_key(id),
        spawn_step(m, id, rows, cols)[id] == fresh_session(rows, cols),
        fresh_session(rows, cols).written == Seq::<u8>::empty(),
        !fresh_session(rows, cols).draining,
{
}

/// A spawn disturbs no other session.
pub proof fn law_spawn_leaves_others(m: TableModel, id: Seq<char>, rows: u16, cols: u16, k: Seq<char>)
    requires
        k != id,
    ensures
        spawn_step(m, id, rows, cols).contains_key(k) == m.contains_key(k),
        m.contains_key(k) ==> spawn_step(m, id, rows, cols)[k] == m[k],
{
}

/// A session stays visible under writes, resizes and kills, to any id: only
/// removal on end-of-stream can make a live id absent.
pub proof fn law_live_until_removed(m: TableModel, id: Seq<char>, op_id: Seq<char>, bytes: Seq<u8>, rows: u16, cols: u16)
    ensures
        write_step(m, op_id, bytes).contains_key(id) == m.contains_key(id),
        resize_step(m, op_id, rows, cols).contains_key(id) == m.contains_key(id),
        kill_step(m, op_id).contains_key(id) == m.contains_key(id),
{
}

/// Kill of an absent id is a no-op: the table does not change at all.
pub proof fn law_kill_absent_noop(m: TableModel, id: Seq<char>)
    requires
        !m.contains_key(id),
    ensures
        kill_step(m, id) == m,
{
}

/// Kill is idempotent: a second kill of the same id changes nothing more.
pub proof fn law_kill_idempotent(m: TableModel, id: Seq<char>)
    ensures
        kill_step(kill_step(m, id), id) == kill_step(m, id),
{
    if m.contains_key(id) {
        assert(kill_step(kill_step(m, id), id) =~~= kill_step(m, id));
    }
}

/// Kill removes nothing: every id is live after a kill exactly as before.
pub proof fn law_kill_removes_nothing(m: TableModel, id: Seq<char>)
    ensures
        kill_step(m, id).dom() == m.dom(),
{
    assert(kill_step(m, id).dom() =~= m.dom());
}

/// The drain mark only moves forward: writes and resizes never change it,
/// kills only set it, so a draining session stays draining until the relay
/// removes it — the state machine has no way back from draining but removal.
pub proof fn law_drain_is_sticky(
    m: TableModel,
    id: Seq<char>,
    k: Seq<char>,
    bytes: Seq<u8>,
    rows: u16,
    cols: u16,
)
    requires
        m.contains_key(k),
    ensures
        write_step(m, id, bytes)[k].draining == m[k].draining,
        resize_step(m, id, rows, cols)[k].draining == m[k].draining,
        m[k].draining ==> kill_step(m, id)[k].draining,
{
}

/// Removal is final for the removed id, and touches no other entry.
pub proof fn law_remove_erases(m: TableModel, id: Seq<char>, k: Seq<char>)
    ensures
        !remove_step(m, id).contains_key(id),
        k != id ==> remove_step(m, id).contains_key(k) == m.contains_key(k),
        k != id && m.contains_key(k) ==> remove_step(m, id)[k] == m[k],
{
}

/// The entry is removed at most once: a second removal of the same id is a
/// no-op.
pub proof fn law_remove_once(m: TableModel, id: Seq<char>)
    ensures
        remove_step(remove_step(m, id), id) == remove_step(m, id),
{
}

/// A kill racing with the session's own exit collapses to a single removal:
/// whether or not the kill was requested first, the table after the relay's
/// cleanup is the same, so nothing is freed twice and nothing leaks.
pub proof fn law_kill_then_remove(m: TableModel, id: Seq<char>)
    ensures
        remove_step(kill_step(m, id), id) == remove_step(m, id),
{
    if m.contains_key(id) {
        assert(remove_step(kill_step(m, id), id) =~~= remove_step(m, id));
    }
}

/// Writes to one live session arrive in order: issuing `b1` then `b2`
/// extends its input record by `b1 + b2`.
pub proof fn law_writes_in_order(m: TableModel, id: Seq<char>, b1: Seq<u8>, b2: Seq<u8>)
    requires
        m.contains_key(id),
    ensures
        write_step(write_step(m, id, b1), id, b2)[id].written == m[id].written + b1 + b2,
{
}

/// A write to one session never reaches another: the other session's record
/// is untouched, so bytes of different sessions cannot interleave.
pub proof fn law_writes_do_not_cross(m: TableModel, id: Seq<char>, k: Seq<char>, bytes: Seq<u8>)
    requires
        k != id,
        m.contains_key(k),
    ensures
        write_step(m, id, bytes)[k] == m[k],
{
}

/// Writes to two distinct sessions commute: the table cannot tell in which
/// order they were issued.
pub proof fn law_writes_commute(m: TableModel, a: Seq<char>, b: Seq<char>, da: Seq<u8>, db: Seq<u8>)
    requires
        a != b,
    ensures
        write_step(write_step(m, a, da), b, db) == write_step(write_step(m, b, db), a, da),
{
    assert(write_step(write_step(m, a, da), b, db) =~~= write_step(write_step(m, b, db), a, da));
}

/// After a session is removed, its id can be spawned again and the new
/// session is fresh: no geometry, drain mark or input bytes of the old one
/// survive.
pub proof fn law_reuse_is_fresh(m: TableModel, id: Seq<char>, rows: u16, cols: u16)
    ensures
        !remove_step(m, id).contains_key(id),
        spawn_step(remove_step(m, id), id, rows, cols)[id] == fresh_session(rows, cols),
        spawn_step(remove_step(m, id), id, rows, cols)[id].written == Seq::<u8>::empty(),
{
}

} // verus!
