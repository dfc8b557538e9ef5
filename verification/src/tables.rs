use vstd::prelude::*;

use crate::conn::Conn;

verus! {

/// A table of tags: names with their values, kept in a `hashbrown::HashMap`.
#[verifier::external_body]
pub struct TagTable {
    table: hashbrown::HashMap<String, String>,
}

/// A table of connections by id, kept in a `hashbrown::HashMap`.
#[verifier::external_body]
pub struct ConnTable {
    table: hashbrown::HashMap<usize, Conn>,
}

/// What a tag table holds: each tag name with its value.
pub uninterp spec fn tag_map(m: TagTable) -> Map<Seq<char>, Seq<char>>;

/// What a connection table holds: each connection id with its connection.
pub uninterp spec fn conn_map(m: ConnTable) -> Map<usize, Conn>;

/// The contents of an empty tag table.
pub open spec fn no_tags() -> Map<Seq<char>, Seq<char>> {
    Map::empty()
}

/// The contents of an empty connection table.
pub open spec fn no_conns() -> Map<usize, Conn> {
    Map::empty()
}

impl TagTable {
    /// `hashbrown::HashMap::with_capacity`: a new table holds no tag.
    #[verifier::external_body]
    pub(crate) fn raw_with_capacity(capacity: usize) -> (m: TagTable)
        ensures
            tag_map(m) == no_tags(),
    {
        TagTable { table: hashbrown::HashMap::with_capacity(capacity) }
    }

    /// `hashbrown::HashMap::insert`: afterwards the name maps to the new
    /// value and every other entry is as before; the previous value, if any,
    /// is handed back.
    #[verifier::external_body]
    pub(crate) fn raw_insert(&mut self, name: String, value: String) -> (r: Option<String>)
        ensures
            tag_map(*final(self)) == tag_map(*old(self)).insert(name@, value@),
            match r {
                Some(v) => tag_map(*old(self)).contains_key(name@) && v@ == tag_map(
                    *old(self),
                )[name@],
                None => !tag_map(*old(self)).contains_key(name@),
            },
    {
        self.table.insert(name, value)
    }

    /// `hashbrown::HashMap::clear`: afterwards the table holds no tag.
    #[verifier::external_body]
    pub(crate) fn raw_clear(&mut self)
        ensures
            tag_map(*final(self)) == no_tags(),
    {
        self.table.clear()
    }

    /// `hashbrown::HashMap::get`: the value of a tag, if the table holds it.
    #[verifier::external_body]
    pub(crate) fn raw_get(&self, name: &str) -> (r: Option<String>)
        ensures
            match r {
                Some(v) => tag_map(*self).contains_key(name@) && v@ == tag_map(*self)[name@],
                None => !tag_map(*self).contains_key(name@),
            },
    {
        self.table.get(name).cloned()
    }

    /// `hashbrown::HashMap::len`: the number of tags.
    #[verifier::external_body]
    pub(crate) fn raw_len(&self) -> (r: usize)
        ensures
            r == tag_map(*self).len(),
    {
        self.table.len()
    }

    /// `hashbrown::HashMap::remove`: afterwards the name is absent and every
    /// other entry is as before; the value it held, if any, is handed back.
    #[verifier::external_body]
    pub(crate) fn raw_remove(&mut self, name: &str) -> (r: Option<String>)
        ensures
            tag_map(*final(self)) == tag_map(*old(self)).remove(name@),
            match r {
                Some(v) => tag_map(*old(self)).contains_key(name@) && v@ == tag_map(
                    *old(self),
                )[name@],
                None => !tag_map(*old(self)).contains_key(name@),
            },
    {
        self.table.remove(name)
    }

    /// `hashbrown::HashMap::keys`, each name copied: every name the table
    /// holds, once each, in the order the table is walked (which the
    /// contract leaves open).
    #[verifier::external_body]
    pub(crate) fn raw_names(&self) -> (r: Vec<String>)
        ensures
            r@.len() == tag_map(*self).len(),
            forall|i: int| 0 <= i < r@.len() ==> tag_map(*self).contains_key(#[trigger] r@[i]@),
            forall|i: int, j: int|
                0 <= i < j < r@.len() ==> #[trigger] r@[i]@ != #[trigger] r@[j]@,
    {
        self.table.keys().cloned().collect()
    }

    /// Removes a tag; the value it held, if any, is handed back.
    pub fn remove(&mut self, name: &str) -> (r: Option<String>)
        ensures
            tag_map(*final(self)) == tag_map(*old(self)).remove(name@),
            match r {
                Some(v) => tag_map(*old(self)).contains_key(name@) && v@ == tag_map(
                    *old(self),
                )[name@],
                None => !tag_map(*old(self)).contains_key(name@),
            },
    {
        self.raw_remove(name)
    }

    /// Removes every tag.
    pub fn clear(&mut self)
        ensures
            tag_map(*final(self)) == no_tags(),
    {
        self.raw_clear()
    }

    /// Whether the table holds a tag of this name.
    pub fn contains_key(&self, name: &str) -> (r: bool)
        ensures
            r == tag_map(*self).contains_key(name@),
    {
        match self.raw_get(name) {
            Some(_) => true,
            None => false,
        }
    }

    /// The names of all tags, once each, in no fixed order.
    pub fn names(&self) -> (r: Vec<String>)
        ensures
            r@.len() == tag_map(*self).len(),
            forall|i: int| 0 <= i < r@.len() ==> tag_map(*self).contains_key(#[trigger] r@[i]@),
            forall|i: int, j: int|
                0 <= i < j < r@.len() ==> #[trigger] r@[i]@ != #[trigger] r@[j]@,
    {
        self.raw_names()
    }

    /// The value of a tag, if the table holds it.
    pub fn get(&self, name: &str) -> (r: Option<String>)
        ensures
            match r {
                Some(v) => tag_map(*self).contains_key(name@) && v@ == tag_map(*self)[name@],
                None => !tag_map(*self).contains_key(name@),
            },
    {
        self.raw_get(name)
    }

    /// Sets a tag; a tag of the same name is replaced.
    pub fn set(&mut self, name: &str, value: &str)
        ensures
            tag_map(*final(self)) == tag_map(*old(self)).insert(name@, value@),
    {
        let _ = self.raw_insert(name.to_owned(), value.to_owned());
    }

    /// The number of tags.
    pub fn len(&self) -> (r: usize)
        ensures
            r == tag_map(*self).len(),
    {
        self.raw_len()
    }
}

impl ConnTable {
    /// `hashbrown::HashMap::new`: a new table is empty.
    #[verifier::external_body]
    pub(crate) fn raw_new() -> (m: ConnTable)
        ensures
            conn_map(m) == no_conns(),
    {
        ConnTable { table: hashbrown::HashMap::new() }
    }

    /// `hashbrown::HashMap::insert`: afterwards the id maps to the
    /// connection and every other entry is as before; the connection that the
    /// id held before, if any, is handed back.
    #[verifier::external_body]
    pub(crate) fn raw_insert(&mut self, id: usize, conn: Conn) -> (r: Option<Conn>)
        ensures
            conn_map(*final(self)) == conn_map(*old(self)).insert(id, conn),
            r == (if conn_map(*old(self)).contains_key(id) {
                Some(conn_map(*old(self))[id])
            } else {
                None
            }),
    {
        self.table.insert(id, conn)
    }

    /// `hashbrown::HashMap::remove`: afterwards the id is absent and every
    /// other entry is as before; the connection it held, if any, is handed
    /// back.
    #[verifier::external_body]
    pub(crate) fn raw_remove(&mut self, id: usize) -> (r: Option<Conn>)
        ensures
            conn_map(*final(self)) == conn_map(*old(self)).remove(id),
            r == (if conn_map(*old(self)).contains_key(id) {
                Some(conn_map(*old(self))[id])
            } else {
                None
            }),
    {
        self.table.remove(&id)
    }

    /// `hashbrown::HashMap::contains_key`: whether the table holds the id.
    #[verifier::external_body]
    pub(crate) fn raw_contains_key(&self, id: usize) -> (r: bool)
        ensures
            r == conn_map(*self).contains_key(id),
    {
        self.table.contains_key(&id)
    }

    /// `hashbrown::HashMap::len`: the number of connections.
    #[verifier::external_body]
    pub(crate) fn raw_len(&self) -> (r: usize)
        ensures
            r == conn_map(*self).len(),
    {
        self.table.len()
    }

    /// An empty table.
    pub fn new() -> (m: ConnTable)
        ensures
            conn_map(m) == no_conns(),
    {
        ConnTable::raw_new()
    }

    /// The number of connections.
    pub fn len(&self) -> (r: usize)
        ensures
            r == conn_map(*self).len(),
    {
        self.raw_len()
    }

    /// Whether the table holds a connection with this id.
    pub fn contains_key(&self, id: usize) -> (r: bool)
        ensures
            r == conn_map(*self).contains_key(id),
    {
        self.raw_contains_key(id)
    }
}

} // verus!
