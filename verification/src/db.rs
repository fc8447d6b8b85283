//! The membership database: the table of the nodes that have registered.
//!
//! The table is keyed by the node's name. Registering a name that is already
//! there replaces its host and port and leaves its place in the table.

use crate::text::views;
use vstd::prelude::*;

verus! {

/// One row of the table of nodes, as texts: name, host and port.
pub type Row = (Seq<char>, Seq<char>, u16);

/// The names of the rows, in the order of the rows.
pub open spec fn names_of(rows: Seq<Row>) -> Seq<Seq<char>> {
    rows.map_values(|row: Row| row.0)
}

/// Whether no two rows have the same name.
pub open spec fn distinct_names(rows: Seq<Row>) -> bool {
    forall|i: int, j: int|
        0 <= i < rows.len() && 0 <= j < rows.len() && i != j ==> (#[trigger] rows[i]).0
            != (#[trigger] rows[j]).0
}

/// The first place at which `name` stands in `rows`, or the number of rows
/// where it stands nowhere.
pub open spec fn place_of(rows: Seq<Row>, name: Seq<char>) -> int
    decreases rows.len(),
{
    if rows.len() == 0 {
        0
    } else if rows[0].0 == name {
        0
    } else {
        1 + place_of(rows.drop_first(), name)
    }
}

/// How many rows have the name `name`.
pub open spec fn occurrences(rows: Seq<Row>, name: Seq<char>) -> nat
    decreases rows.len(),
{
    if rows.len() == 0 {
        0
    } else if rows.last().0 == name {
        occurrences(rows.drop_last(), name) + 1
    } else {
        occurrences(rows.drop_last(), name)
    }
}

/// The host and port registered for `name`, if it is registered.
pub open spec fn address_of(rows: Seq<Row>, name: Seq<char>) -> Option<(Seq<char>, u16)> {
    let place = place_of(rows, name);
    if place < rows.len() {
        Some((rows[place].1, rows[place].2))
    } else {
        None
    }
}

/// The table after `name` is registered at `host` and `port`: its row is
/// replaced where it has one, and added at the end where it has none.
pub open spec fn upsert(rows: Seq<Row>, name: Seq<char>, host: Seq<char>, port: u16) -> Seq<Row> {
    let place = place_of(rows, name);
    if place < rows.len() {
        rows.update(place, (name, host, port))
    } else {
        rows.push((name, host, port))
    }
}

/// `place_of` finds the first row with the name, and finds none only where
/// there is none.
pub proof fn lemma_place_of(rows: Seq<Row>, name: Seq<char>)
    ensures
        0 <= place_of(rows, name) <= rows.len(),
        place_of(rows, name) < rows.len() ==> rows[place_of(rows, name)].0 == name,
        forall|i: int| 0 <= i < place_of(rows, name) ==> (#[trigger] rows[i]).0 != name,
    decreases rows.len(),
{
    if rows.len() > 0 && rows[0].0 != name {
        let rest = rows.drop_first();
        lemma_place_of(rest, name);
        assert forall|i: int| 0 <= i < place_of(rows, name) implies (#[trigger] rows[i]).0
            != name by {
            if i > 0 {
                assert(rows[i] == rest[i - 1]);
            }
        }
    }
}

/// A name that stands in no row occurs zero times, and one that stands in
/// exactly one row of a table without doubles occurs once.
pub proof fn lemma_occurrences(rows: Seq<Row>, name: Seq<char>)
    requires
        distinct_names(rows),
    ensures
        occurrences(rows, name) == if place_of(rows, name) < rows.len() {
            1nat
        } else {
            0nat
        },
    decreases rows.len(),
{
    lemma_place_of(rows, name);
    if rows.len() > 0 {
        let front = rows.drop_last();
        assert forall|i: int, j: int|
            0 <= i < front.len() && 0 <= j < front.len() && i != j implies (#[trigger] front[i]).0
            != (#[trigger] front[j]).0 by {
            assert(front[i] == rows[i]);
            assert(front[j] == rows[j]);
        }
        lemma_occurrences(front, name);
        lemma_place_of(front, name);
        let p = place_of(rows, name);
        let q = place_of(front, name);
        if q < front.len() {
            assert(front[q] == rows[q]);
            if p > q {
                assert(rows[q].0 != name);
            }
            if p < q {
                assert(front[p] == rows[p]);
            }
            assert(p == q);
            assert(rows.last() == rows[rows.len() - 1]);
            assert(rows.last().0 != name);
        } else {
            assert forall|i: int| 0 <= i < front.len() implies (#[trigger] rows[i]).0 != name by {
                assert(front[i] == rows[i]);
            }
            if rows.last().0 == name {
                assert(p == rows.len() - 1);
            } else {
                assert(p == rows.len());
            }
        }
    }
}

/// Registering keeps the table without doubles, keeps every other row, and
/// leaves the name registered at the host and port just given.
pub proof fn lemma_upsert(rows: Seq<Row>, name: Seq<char>, host: Seq<char>, port: u16)
    requires
        distinct_names(rows),
    ensures
        distinct_names(upsert(rows, name, host, port)),
        place_of(upsert(rows, name, host, port), name) == place_of(rows, name),
        address_of(upsert(rows, name, host, port), name) == Some((host, port)),
        occurrences(upsert(rows, name, host, port), name) == 1,
        forall|other: Seq<char>|
            other != name ==> address_of(upsert(rows, name, host, port), other) == address_of(
                rows,
                other,
            ),
        names_of(upsert(rows, name, host, port)) == if place_of(rows, name) < rows.len() {
            names_of(rows)
        } else {
            names_of(rows).push(name)
        },
{
    let after = upsert(rows, name, host, port);
    let p = place_of(rows, name);
    lemma_place_of(rows, name);
    assert forall|i: int, j: int|
        0 <= i < after.len() && 0 <= j < after.len() && i != j implies (#[trigger] after[i]).0
        != (#[trigger] after[j]).0 by {
        if i < rows.len() && i != p {
            assert(after[i] == rows[i]);
        }
        if j < rows.len() && j != p {
            assert(after[j] == rows[j]);
        }
    }
    lemma_place_of(after, name);
    assert(after[p].0 == name);
    if place_of(after, name) < p {
        assert(after[place_of(after, name)] == rows[place_of(after, name)]);
    }
    assert(place_of(after, name) == p);
    lemma_occurrences(after, name);
    assert forall|other: Seq<char>| other != name implies address_of(after, other) == address_of(
        rows,
        other,
    ) by {
        lemma_place_of(rows, other);
        lemma_place_of(after, other);
        let a = place_of(rows, other);
        let b = place_of(after, other);
        if a < rows.len() {
            assert(after[a] == rows[a]);
            if b < a {
                assert(after[b].0 == other);
                assert(after[b] == rows[b]);
            }
            assert(b == a);
        } else {
            if b < after.len() {
                assert(after[b].0 == other);
                if b < rows.len() {
                    assert(b != p);
                    assert(after[b] == rows[b]);
                }
            }
            if p < rows.len() {
                assert(b == a);
            } else {
                assert(b == after.len());
            }
        }
    }
    assert(names_of(after) =~= if p < rows.len() {
        names_of(rows)
    } else {
        names_of(rows).push(name)
    });
}

/// Registering one name twice leaves it in the table once, at the host and
/// port of the second registration, and the second registration adds no name.
pub proof fn lemma_register_twice(
    rows: Seq<Row>,
    name: Seq<char>,
    first_host: Seq<char>,
    first_port: u16,
    second_host: Seq<char>,
    second_port: u16,
)
    requires
        distinct_names(rows),
    ensures
        ({
            let once = upsert(rows, name, first_host, first_port);
            let twice = upsert(once, name, second_host, second_port);
            &&& address_of(twice, name) == Some((second_host, second_port))
            &&& occurrences(twice, name) == 1
            &&& names_of(twice) == names_of(once)
            &&& distinct_names(twice)
        }),
{
    let once = upsert(rows, name, first_host, first_port);
    lemma_upsert(rows, name, first_host, first_port);
    lemma_upsert(once, name, second_host, second_port);
    lemma_place_of(rows, name);
    lemma_place_of(once, name);
}

/// One registered node.
pub struct NodeRecord {
    /// The name that the node registered under.
    pub name: String,
    /// The host at which the node listens.
    pub host: String,
    /// The port at which the node listens.
    pub port: u16,
}

/// The membership database of a node.
pub struct MetadataDB {
    cluster_table: bool,
    node_table: bool,
    nodes: Vec<NodeRecord>,
}

impl MetadataDB {
    #[verifier::type_invariant]
    spec fn valid(&self) -> bool {
        &&& distinct_names(self.rows())
        &&& !self.node_table ==> self.nodes@.len() == 0
    }

    /// The rows of the table of nodes, in the order in which their names were
    /// first registered. Whether the tables exist is told by `has_node_table`
    /// and `has_cluster_table`.
    pub closed spec fn rows(&self) -> Seq<Row> {
        Seq::new(
            self.nodes@.len(),
            |i: int| (self.nodes@[i].name@, self.nodes@[i].host@, self.nodes@[i].port),
        )
    }

    /// Whether the table of nodes has been created.
    pub closed spec fn has_node_table(&self) -> bool {
        self.node_table
    }

    /// Whether the table that describes the cluster has been created.
    pub closed spec fn has_cluster_table(&self) -> bool {
        self.cluster_table
    }

    /// A database without tables.
    pub fn new() -> (db: MetadataDB)
        ensures
            !db.has_node_table(),
            !db.has_cluster_table(),
            db.rows() == Seq::<Row>::empty(),
    {
        let db = MetadataDB { cluster_table: false, node_table: false, nodes: Vec::new() };
        assert(db.rows() =~= Seq::<Row>::empty());
        db
    }

    /// Creates the table that describes the cluster, unless it is there.
    pub fn create_cluster_table(&mut self)
        ensures
            final(self).has_cluster_table(),
            final(self).has_node_table() == old(self).has_node_table(),
            final(self).rows() == old(self).rows(),
    {
        proof {
            use_type_invariant(&*self);
        }
        self.cluster_table = true;
    }

    /// Creates the table of nodes, unless it is there. A table that is there
    /// keeps its rows.
    pub fn create_node_table(&mut self)
        ensures
            final(self).has_node_table(),
            final(self).has_cluster_table() == old(self).has_cluster_table(),
            final(self).rows() == old(self).rows(),
    {
        proof {
            use_type_invariant(&*self);
        }
        self.node_table = true;
    }

    /// Registers the node `name` at `hostname` and `port`. Where the name is
    /// registered already its host and port are replaced; else the node is
    /// added after the others. Without a table of nodes nothing is registered
    /// and the answer is `false`.
    pub fn register_node(&mut self, name: &str, hostname: &str, port: u16) -> (registered: bool)
        ensures
            registered == old(self).has_node_table(),
            final(self).has_node_table() == old(self).has_node_table(),
            final(self).has_cluster_table() == old(self).has_cluster_table(),
            final(self).rows() == if registered {
                upsert(old(self).rows(), name@, hostname@, port)
            } else {
                old(self).rows()
            },
            distinct_names(final(self).rows()),
    {
        proof {
            use_type_invariant(&*self);
        }
        if !self.node_table {
            return false;
        }
        let ghost before = self.rows();
        let wanted = name.to_owned();
        let mut i: usize = 0;
        while i < self.nodes.len()
            invariant
                i <= self.nodes@.len(),
                wanted@ == name@,
                self.rows() == before,
                self.nodes@.len() == before.len(),
                forall|k: int| 0 <= k < i ==> (#[trigger] before[k]).0 != name@,
            ensures
                i < before.len() ==> before[i as int].0 == name@,
            decreases self.nodes@.len() - i,
        {
            if self.nodes[i].name == wanted {
                assert(before[i as int].0 == self.nodes@[i as int].name@);
                break;
            }
            assert(before[i as int].0 == self.nodes@[i as int].name@);
            i = i + 1;
        }
        proof {
            lemma_place_of(before, name@);
            lemma_upsert(before, name@, hostname@, port);
            if i < before.len() {
                assert(before[i as int].0 == name@);
                if place_of(before, name@) < i {
                    assert(before[place_of(before, name@)].0 == name@);
                }
            }
            assert(place_of(before, name@) == i);
        }
        let record = NodeRecord { name: wanted, host: hostname.to_owned(), port };
        let mut nodes: Vec<NodeRecord> = Vec::new();
        core::mem::swap(&mut self.nodes, &mut nodes);
        if i < nodes.len() {
            nodes.set(i, record);
        } else {
            nodes.push(record);
        }
        assert(Seq::new(nodes@.len(), |k: int| (nodes@[k].name@, nodes@[k].host@, nodes@[k].port))
            =~= upsert(before, name@, hostname@, port));
        self.nodes = nodes;
        true
    }

    /// The names of the registered nodes, in the order in which they were
    /// first registered; no name stands twice.
    pub fn list_nodes(&self) -> (names: Vec<String>)
        ensures
            views(names@) == names_of(self.rows()),
            distinct_names(self.rows()),
    {
        proof {
            use_type_invariant(self);
        }
        let mut names: Vec<String> = Vec::new();
        let mut i: usize = 0;
        while i < self.nodes.len()
            invariant
                i <= self.nodes@.len(),
                names@.len() == i,
                forall|k: int| 0 <= k < i ==> (#[trigger] names@[k])@ == self.nodes@[k].name@,
            decreases self.nodes@.len() - i,
        {
            names.push(self.nodes[i].name.clone());
            i = i + 1;
        }
        assert(views(names@) =~= names_of(self.rows()));
        names
    }

    /// The host and port at which `name` is registered, if it is.
    pub fn address(&self, name: &str) -> (found: Option<(String, u16)>)
        ensures
            match found {
                Some((host, port)) => address_of(self.rows(), name@) == Some((host@, port)),
                None => address_of(self.rows(), name@) is None,
            },
    {
        let wanted = name.to_owned();
        let ghost rows = self.rows();
        let mut i: usize = 0;
        while i < self.nodes.len()
            invariant
                i <= self.nodes@.len(),
                wanted@ == name@,
                rows == self.rows(),
                forall|k: int| 0 <= k < i ==> (#[trigger] rows[k]).0 != name@,
            decreases self.nodes@.len() - i,
        {
            if self.nodes[i].name == wanted {
                proof {
                    lemma_place_of(rows, name@);
                    assert(rows[i as int].0 == name@);
                    if place_of(rows, name@) < i {
                        assert(rows[place_of(rows, name@)].0 == name@);
                    }
                }
                return Some((self.nodes[i].host.clone(), self.nodes[i].port));
            }
            assert(rows[i as int].0 == self.nodes@[i as int].name@);
            i = i + 1;
        }
        proof {
            lemma_place_of(rows, name@);
            if place_of(rows, name@) < rows.len() {
                assert(rows[place_of(rows, name@)].0 == name@);
            }
        }
        None
    }
}

} // verus!
