//! The connection-profile store's list operations, and the persisted editor
//! state. The store itself is a flat file read and rewritten in full by the
//! caller; the list manipulation here is what gives it its meaning.

use crate::connection::ConnectionConfig;
use vstd::prelude::*;

verus! {

/// A saved connection profile: the same fields as a descriptor, keyed by an
/// opaque id.
#[derive(Debug, Clone)]
pub struct SavedConnection {
    pub id: String,
    pub name: String,
    pub host: String,
    pub port: u16,
    pub user: String,
    pub password: String,
    pub database: String,
}

/// Two profiles hold the same data, character for character.
pub open spec fn saved_eq(a: SavedConnection, b: SavedConnection) -> bool {
    &&& a.id@ == b.id@
    &&& a.name@ == b.name@
    &&& a.host@ == b.host@
    &&& a.port == b.port
    &&& a.user@ == b.user@
    &&& a.password@ == b.password@
    &&& a.database@ == b.database@
}

impl SavedConnection {
    /// A character-for-character copy of the profile.
    pub fn duplicate(&self) -> (r: SavedConnection)
        ensures
            saved_eq(r, *self),
    {
        SavedConnection {
            id: self.id.clone(),
            name: self.name.clone(),
            host: self.host.clone(),
            port: self.port,
            user: self.user.clone(),
            password: self.password.clone(),
            database: self.database.clone(),
        }
    }

    /// A connection descriptor as a saved profile.
    pub fn from_config(config: ConnectionConfig) -> (r: SavedConnection)
        ensures
            r.id == config.id,
            r.name == config.name,
            r.host == config.host,
            r.port == config.port,
            r.user == config.user,
            r.password == config.password,
            r.database == config.database,
    {
        SavedConnection {
            id: config.id,
            name: config.name,
            host: config.host,
            port: config.port,
            user: config.user,
            password: config.password,
            database: config.database,
        }
    }

    /// The saved profile as a connection descriptor.
    pub fn into_config(self) -> (r: ConnectionConfig)
        ensures
            r.id == self.id,
            r.name == self.name,
            r.host == self.host,
            r.port == self.port,
            r.user == self.user,
            r.password == self.password,
            r.database == self.database,
    {
        ConnectionConfig {
            id: self.id,
            name: self.name,
            host: self.host,
            port: self.port,
            user: self.user,
            password: self.password,
            database: self.database,
        }
    }
}

/// The position of the first profile with the given id, or -1 if none has
/// it.
pub open spec fn first_index_with_id(s: Seq<SavedConnection>, id: Seq<char>) -> int
    decreases s.len(),
{
    if s.len() == 0 {
        -1
    } else if s[0].id@ == id {
        0
    } else {
        let r = first_index_with_id(s.drop_first(), id);
        if r < 0 {
            -1
        } else {
            r + 1
        }
    }
}

/// A scan that finds the id at position k, with no earlier match, finds the
/// first index.
proof fn lemma_first_index_found(s: Seq<SavedConnection>, id: Seq<char>, k: int)
    requires
        0 <= k < s.len(),
        forall|i: int| 0 <= i < k ==> s[i].id@ != id,
        s[k].id@ == id,
    ensures
        first_index_with_id(s, id) == k,
    decreases k,
{
    if k > 0 {
        lemma_first_index_found(s.drop_first(), id, k - 1);
    }
}

/// A scan that finds no match means there is no first index.
proof fn lemma_first_index_none(s: Seq<SavedConnection>, id: Seq<char>)
    requires
        forall|i: int| 0 <= i < s.len() ==> s[i].id@ != id,
    ensures
        first_index_with_id(s, id) == -1,
    decreases s.len(),
{
    if s.len() > 0 {
        lemma_first_index_none(s.drop_first(), id);
    }
}

/// Relies on uuid's Uuid::new_v4 and its Display impl: a freshly generated
/// random identifier rendered in the canonical hyphenated form, which is 36
/// characters long.
#[verifier::external_body]
fn fresh_connection_id() -> (r: String)
    ensures
        r@.len() == 36,
{
    uuid::Uuid::new_v4().to_string()
}

/// Saves a profile into the list: a profile with an empty id gets a freshly
/// generated one and is appended; otherwise the first profile with the same
/// id is replaced in place, or, with no match, the profile is appended. The
/// stored profile is returned.
pub fn upsert_connection(list: &mut Vec<SavedConnection>, conn: SavedConnection) -> (r:
    SavedConnection)
    ensures
        conn.id@.len() == 0 ==> ({
            &&& r.id@.len() == 36
            &&& r.name@ == conn.name@
            &&& r.host@ == conn.host@
            &&& r.port == conn.port
            &&& r.user@ == conn.user@
            &&& r.password@ == conn.password@
            &&& r.database@ == conn.database@
            &&& final(list)@.len() == old(list)@.len() + 1
            &&& final(list)@.subrange(0, old(list)@.len() as int) == old(list)@
            &&& saved_eq(final(list)@[old(list)@.len() as int], r)
        }),
        conn.id@.len() != 0 && first_index_with_id(old(list)@, conn.id@) >= 0 ==> ({
            let i = first_index_with_id(old(list)@, conn.id@);
            &&& saved_eq(r, conn)
            &&& final(list)@.len() == old(list)@.len()
            &&& (forall|k: int| 0 <= k < old(list)@.len() && k != i ==> final(list)@[k] == old(
                list,
            )@[k])
            &&& saved_eq(final(list)@[i], conn)
        }),
        conn.id@.len() != 0 && first_index_with_id(old(list)@, conn.id@) < 0 ==> ({
            &&& saved_eq(r, conn)
            &&& final(list)@.len() == old(list)@.len() + 1
            &&& final(list)@.subrange(0, old(list)@.len() as int) == old(list)@
            &&& saved_eq(final(list)@[old(list)@.len() as int], conn)
        }),
{
    if conn.id.as_str().is_empty() {
        let stored = SavedConnection {
            id: fresh_connection_id(),
            name: conn.name,
            host: conn.host,
            port: conn.port,
            user: conn.user,
            password: conn.password,
            database: conn.database,
        };
        let r = stored.duplicate();
        list.push(stored);
        proof {
            assert(final(list)@.subrange(0, old(list)@.len() as int) =~= old(list)@);
        }
        r
    } else {
        assert(conn.id@.len() != 0);
        let n = list.len();
        let mut j: usize = 0;
        while j < n
            invariant
                0 <= j <= n,
                n == list@.len(),
                list@ == old(list)@,
                conn.id@.len() != 0,
                forall|i: int| 0 <= i < j ==> list@[i].id@ != conn.id@,
            decreases n - j,
        {
            if crate::text::str_eq(list[j].id.as_str(), conn.id.as_str()) {
                proof {
                    lemma_first_index_found(list@, conn.id@, j as int);
                }
                let ghost before = list@;
                let stored = conn.duplicate();
                list.remove(j);
                list.insert(j, stored);
                proof {
                    assert(list@ =~= before.update(j as int, stored));
                }
                return conn;
            }
            j += 1;
        }
        proof {
            lemma_first_index_none(list@, conn.id@);
        }
        let stored = conn.duplicate();
        list.push(stored);
        proof {
            assert(final(list)@.subrange(0, old(list)@.len() as int) =~= old(list)@);
        }
        conn
    }
}

/// What deleting an id from the profile list leaves: every profile whose id
/// differs, in their original order.
pub open spec fn without_id(s: Seq<SavedConnection>, id: Seq<char>) -> Seq<SavedConnection>
    decreases s.len(),
{
    if s.len() == 0 {
        Seq::empty()
    } else if s[0].id@ == id {
        without_id(s.drop_first(), id)
    } else {
        seq![s[0]] + without_id(s.drop_first(), id)
    }
}

/// Deletes every profile with the given id from the list, keeping the rest
/// in order.
pub fn remove_connection(list: &mut Vec<SavedConnection>, id: &String)
    ensures
        final(list)@ == without_id(old(list)@, id@),
{
    let ghost orig = list@;
    let mut rest: Vec<SavedConnection> = Vec::new();
    core::mem::swap(list, &mut rest);
    while rest.len() > 0
        invariant
            without_id(orig, id@) == list@ + without_id(rest@, id@),
        decreases rest@.len(),
    {
        let ghost old_rest = rest@;
        let ghost old_kept = list@;
        let c = rest.remove(0);
        proof {
            assert(c == old_rest[0]);
            assert(rest@ =~= old_rest.drop_first());
        }
        let keep = !crate::text::str_eq(c.id.as_str(), id.as_str());
        if keep {
            list.push(c);
        }
        proof {
            assert(without_id(old_rest, id@) == (if old_rest[0].id@ == id@ {
                without_id(rest@, id@)
            } else {
                seq![old_rest[0]] + without_id(rest@, id@)
            }));
            if keep {
                assert(list@ =~= old_kept + seq![old_rest[0]]);
                assert(old_kept + (seq![old_rest[0]] + without_id(rest@, id@)) =~= (old_kept
                    + seq![old_rest[0]]) + without_id(rest@, id@));
            }
        }
    }
    proof {
        assert(without_id(rest@, id@) =~= Seq::empty());
        assert(list@ + without_id(rest@, id@) =~= list@);
    }
}

/// One persisted editor tab: id, display name, and buffer content.
#[derive(Debug, Clone)]
pub struct PersistedTab {
    pub id: String,
    pub name: String,
    pub content: String,
}

/// The persisted editor state of one connection: its tabs and, if any, the
/// active tab's id.
#[derive(Debug, Clone)]
pub struct PersistedEditorState {
    pub tabs: Vec<PersistedTab>,
    pub active_tab_id: Option<String>,
}

} // verus!
