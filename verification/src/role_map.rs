//! Which role a reaction stands for, server by server.

use vstd::prelude::*;

verus! {

/// One binding: in `server`, a reaction with `emoji` stands for `role`.
#[derive(Debug)]
struct RoleEntry {
    server: String,
    emoji: String,
    role: String,
}

/// The server and the emoji of the binding at `i`.
spec fn key_at(entries: Seq<RoleEntry>, i: int) -> (Seq<char>, Seq<char>) {
    (entries[i].server@, entries[i].emoji@)
}

/// No two bindings are for the same emoji of the same server.
spec fn distinct_keys(entries: Seq<RoleEntry>) -> bool {
    forall|i: int, j: int|
        0 <= i < j < entries.len() ==> key_at(entries, i) != key_at(entries, j)
}

/// The binding at `i` is the first one for `key`.
spec fn first_at(entries: Seq<RoleEntry>, key: (Seq<char>, Seq<char>), i: int) -> bool {
    &&& 0 <= i < entries.len()
    &&& key_at(entries, i) == key
    &&& forall|j: int| 0 <= j < i ==> key_at(entries, j) != key
}

/// Whether some binding is for `key`.
spec fn bound(entries: Seq<RoleEntry>, key: (Seq<char>, Seq<char>)) -> bool {
    exists|i: int| first_at(entries, key, i)
}

/// The place of the first binding for `key`.
spec fn place_of(entries: Seq<RoleEntry>, key: (Seq<char>, Seq<char>)) -> int {
    choose|i: int| first_at(entries, key, i)
}

/// The bindings as a map from (server, emoji) to role.
spec fn bindings(entries: Seq<RoleEntry>) -> Map<(Seq<char>, Seq<char>), Seq<char>> {
    Map::new(
        |key: (Seq<char>, Seq<char>)| bound(entries, key),
        |key: (Seq<char>, Seq<char>)| entries[place_of(entries, key)].role@,
    )
}

/// The first binding for a key is the one that the map holds for it.
proof fn lemma_first_binding(entries: Seq<RoleEntry>, key: (Seq<char>, Seq<char>), i: int)
    requires
        first_at(entries, key, i),
    ensures
        bound(entries, key),
        place_of(entries, key) == i,
        bindings(entries).contains_key(key),
        bindings(entries)[key] == entries[i].role@,
{
    let p = place_of(entries, key);
    assert(first_at(entries, key, p));
    if p < i {
        assert(key_at(entries, p) != key);
    }
    if i < p {
        assert(key_at(entries, i) != key);
    }
}

/// For each server, the role that each emoji stands for. A server's emoji has at
/// most one role.
#[derive(Debug)]
pub struct RoleMap {
    entries: Vec<RoleEntry>,
}

impl View for RoleMap {
    type V = Map<(Seq<char>, Seq<char>), Seq<char>>;

    /// The role of each (server, emoji) pair that has one.
    closed spec fn view(&self) -> Map<(Seq<char>, Seq<char>), Seq<char>> {
        bindings(self.entries@)
    }
}

impl RoleMap {
    /// The map holds each (server, emoji) pair once.
    pub closed spec fn well_formed(self) -> bool {
        distinct_keys(self.entries@)
    }

    /// The second level of the map: the role of each emoji in `server`.
    pub open spec fn server_roles(self, server: Seq<char>) -> Map<Seq<char>, Seq<char>> {
        Map::new(
            |emoji: Seq<char>| self@.contains_key((server, emoji)),
            |emoji: Seq<char>| self@[(server, emoji)],
        )
    }

    /// A map without bindings.
    pub fn new() -> (r: RoleMap)
        ensures
            r@ == Map::<(Seq<char>, Seq<char>), Seq<char>>::empty(),
            r.well_formed(),
    {
        let r = RoleMap { entries: Vec::new() };
        assert(r@ =~= Map::<(Seq<char>, Seq<char>), Seq<char>>::empty());
        r
    }

    /// The place of the first binding of `emoji` in `server`, if there is one.
    fn find(&self, server: &String, emoji: &String) -> (r: Option<usize>)
        ensures
            match r {
                Some(i) => first_at(self.entries@, (server@, emoji@), i as int),
                None => forall|j: int|
                    0 <= j < self.entries@.len() ==> key_at(self.entries@, j) != (
                        server@,
                        emoji@,
                    ),
            },
    {
        let mut i: usize = 0;
        while i < self.entries.len()
            invariant
                i <= self.entries@.len(),
                forall|j: int| 0 <= j < i ==> key_at(self.entries@, j) != (server@, emoji@),
            decreases self.entries@.len() - i,
        {
            if self.entries[i].server == *server && self.entries[i].emoji == *emoji {
                return Some(i);
            }
            i += 1;
        }
        None
    }

    /// The role that `emoji` stands for in `server`, if it stands for one.
    pub fn role(&self, server: &String, emoji: &String) -> (r: Option<&String>)
        ensures
            match r {
                Some(role) => self@.contains_key((server@, emoji@)) && role@ == self@[(
                    server@,
                    emoji@,
                )],
                None => !self@.contains_key((server@, emoji@)),
            },
    {
        match self.find(server, emoji) {
            Some(i) => {
                proof {
                    lemma_first_binding(self.entries@, (server@, emoji@), i as int);
                }
                Some(&self.entries[i].role)
            },
            None => None,
        }
    }

    /// Binds `emoji` in `server` to `role`. A role that it stood for before is
    /// replaced; every other binding stays.
    pub fn insert(&mut self, server: String, emoji: String, role: String)
        ensures
            final(self)@ == old(self)@.insert((server@, emoji@), role@),
            old(self).well_formed() ==> final(self).well_formed(),
    {
        let ghost before = self.entries@;
        let ghost key = (server@, emoji@);
        let found = self.find(&server, &emoji);
        let entry = RoleEntry { server, emoji, role };
        match found {
            Some(i) => {
                self.entries.set(i, entry);
            },
            None => {
                self.entries.push(entry);
            },
        }
        proof {
            let after = self.entries@;
            let at: int = match found {
                Some(i) => i as int,
                None => before.len() as int,
            };
            assert forall|j: int|
                #![trigger key_at(after, j)]
                #![trigger key_at(before, j)]
                0 <= j < before.len() implies key_at(after, j) == key_at(before, j) by {}
            assert(first_at(after, key, at));
            lemma_first_binding(after, key, at);
            assert forall|k: (Seq<char>, Seq<char>), p: int|
                k != key implies first_at(after, k, p) == first_at(before, k, p) by {}
            assert forall|k: (Seq<char>, Seq<char>)| k != key implies (bound(after, k) == bound(
                before,
                k,
            ) && (bound(after, k) ==> bindings(after)[k] == bindings(before)[k])) by {
                if bound(before, k) {
                    let p = place_of(before, k);
                    lemma_first_binding(before, k, p);
                    lemma_first_binding(after, k, p);
                }
                if bound(after, k) {
                    let p = place_of(after, k);
                    lemma_first_binding(after, k, p);
                    lemma_first_binding(before, k, p);
                }
            }
            assert(bindings(after) =~= bindings(before).insert(key, role@));
        }
    }

    /// Server by server: a new binding changes the roles of its own server, by
    /// that one emoji, and leaves the roles of every other server as they were.
    pub proof fn law_insert_by_server(
        before: RoleMap,
        after: RoleMap,
        server: Seq<char>,
        emoji: Seq<char>,
        role: Seq<char>,
        other: Seq<char>,
    )
        requires
            after@ == before@.insert((server, emoji), role),
            other != server,
        ensures
            after.server_roles(server) == before.server_roles(server).insert(emoji, role),
            after.server_roles(other) == before.server_roles(other),
    {
        assert(after.server_roles(server) =~= before.server_roles(server).insert(emoji, role));
        assert(after.server_roles(other) =~= before.server_roles(other));
    }
}

} // verus!
