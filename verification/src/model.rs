//! The store as plain values: which tables there are, which seeds each holds, and
//! what putting a seed in and taking one out do to them. The laws of the store are
//! stated and proved here.

use vstd::prelude::*;
use vstd::utf8::{encode_utf8, encode_utf8_decode_utf8};

verus! {

/// What a database holds, table by table: the name of each seed table and the set
/// of seeds in it. A seed stands in a table as the bytes of its text.
pub type Tables = Map<Seq<char>, Set<Seq<u8>>>;

/// The bytes that a text is stored as.
pub open spec fn bytes_of(text: Seq<char>) -> Seq<u8> {
    encode_utf8(text)
}

/// Different texts are stored as different bytes.
pub proof fn lemma_bytes_tell_texts_apart(a: Seq<char>, b: Seq<char>)
    requires
        bytes_of(a) == bytes_of(b),
    ensures
        a == b,
{
    encode_utf8_decode_utf8(a);
    encode_utf8_decode_utf8(b);
}

/// The table of the `game` category.
pub open spec fn game_table() -> Seq<char> {
    "game_seeds"@
}

/// The table of the `sync` category.
pub open spec fn sync_table() -> Seq<char> {
    "sync_seeds"@
}

/// The one table of earlier databases, which held the seeds of the `game` category.
pub open spec fn legacy_table() -> Seq<char> {
    "seeds"@
}

/// The table of a category.
pub open spec fn table_name(is_sync: bool) -> Seq<char> {
    if is_sync {
        sync_table()
    } else {
        game_table()
    }
}

/// The table names that the store uses.
pub open spec fn known_table(name: Seq<char>) -> bool {
    name == game_table() || name == sync_table() || name == legacy_table()
}

/// The tables after `seed` was put into `table`.
pub open spec fn put(tables: Tables, table: Seq<char>, seed: Seq<u8>) -> Tables {
    tables.insert(table, tables[table].insert(seed))
}

/// The tables after `seed` was taken out of `table`.
pub open spec fn without(tables: Tables, table: Seq<char>, seed: Seq<u8>) -> Tables {
    tables.insert(table, tables[table].remove(seed))
}

/// The tables once `table` exists: as they were if it did, with an empty one added
/// if it did not.
pub open spec fn with_table(tables: Tables, table: Seq<char>) -> Tables {
    if tables.dom().contains(table) {
        tables
    } else {
        tables.insert(table, Set::empty())
    }
}

/// The tables after the legacy table was renamed to that of the `game` category.
pub open spec fn migrated(tables: Tables) -> Tables {
    tables.remove(legacy_table()).insert(game_table(), tables[legacy_table()])
}

/// The tables once the store is set up in a database that held `tables`: with the
/// legacy table made the table of the `game` category where that was done, and with
/// the table of each category there.
pub open spec fn started(tables: Tables, adopted: bool) -> Tables {
    with_table(
        with_table(
            if adopted {
                migrated(tables)
            } else {
                tables
            },
            game_table(),
        ),
        sync_table(),
    )
}

/// Whether a legacy table is there to adopt: it exists, and the `game` category has
/// no table yet.
pub open spec fn adoption_due(tables: Tables) -> bool {
    tables.dom().contains(legacy_table()) && !tables.dom().contains(game_table())
}

/// Whether `sql` is the text that a seed table of this name is declared with: one
/// column `seed`, a text, as the primary key. The name stands bare where the table
/// was created and in double quotes where it was renamed.
pub open spec fn seed_declaration(table: Seq<char>, sql: Seq<char>) -> bool {
    if table == game_table() {
        sql == "CREATE TABLE game_seeds (seed TEXT PRIMARY KEY)"@ || sql
            == "CREATE TABLE \"game_seeds\" (seed TEXT PRIMARY KEY)"@
    } else if table == sync_table() {
        sql == "CREATE TABLE sync_seeds (seed TEXT PRIMARY KEY)"@ || sql
            == "CREATE TABLE \"sync_seeds\" (seed TEXT PRIMARY KEY)"@
    } else if table == legacy_table() {
        sql == "CREATE TABLE seeds (seed TEXT PRIMARY KEY)"@ || sql
            == "CREATE TABLE \"seeds\" (seed TEXT PRIMARY KEY)"@
    } else {
        false
    }
}

/// The three table names differ from one another.
pub proof fn lemma_table_names_differ()
    ensures
        game_table() != sync_table(),
        game_table() != legacy_table(),
        sync_table() != legacy_table(),
{
    reveal_strlit("game_seeds");
    reveal_strlit("sync_seeds");
    reveal_strlit("seeds");
    assert(game_table()[0] == 'g');
    assert(sync_table()[0] == 's');
    assert(game_table().len() == 10);
    assert(sync_table().len() == 10);
    assert(legacy_table().len() == 5);
}

/// One successful call of the store, as plain values.
pub enum StoreOp {
    /// `seed` was put into `table`.
    Put { table: Seq<char>, seed: Seq<u8> },
    /// `seed` was taken out of `table` and handed to a caller.
    Take { table: Seq<char>, seed: Seq<u8> },
}

/// What a successful call says of the tables it found: the table exists, and a seed
/// that is taken out was in it.
pub open spec fn permits(tables: Tables, op: StoreOp) -> bool {
    match op {
        StoreOp::Put { table, seed } => tables.dom().contains(table),
        StoreOp::Take { table, seed } => tables.dom().contains(table) && tables[table].contains(
            seed,
        ),
    }
}

/// The tables that a successful call leaves.
pub open spec fn apply(tables: Tables, op: StoreOp) -> Tables {
    match op {
        StoreOp::Put { table, seed } => put(tables, table, seed),
        StoreOp::Take { table, seed } => without(tables, table, seed),
    }
}

/// The tables after the first `n` calls of `ops`, starting from `tables`.
pub open spec fn state_after(tables: Tables, ops: Seq<StoreOp>, n: int) -> Tables
    decreases n,
{
    if n <= 0 {
        tables
    } else {
        apply(state_after(tables, ops, n - 1), ops[n - 1])
    }
}

/// Whether `ops` can be the successful calls of one writer, in order, on a store
/// that held `tables`: each call finds the tables that the calls before it left.
pub open spec fn history(tables: Tables, ops: Seq<StoreOp>) -> bool {
    forall|n: int| 0 <= n < ops.len() ==> permits(state_after(tables, ops, n), #[trigger] ops[n])
}

/// Whether a call puts a seed into `table`.
pub open spec fn puts_into(op: StoreOp, table: Seq<char>) -> bool {
    match op {
        StoreOp::Put { table: t, seed } => t == table,
        StoreOp::Take { table: t, seed } => false,
    }
}

/// Whether every put of `ops` into `table` found fewer than `capacity` seeds there,
/// as the puts of [`crate::store::Db::insert_seed_with_limit`] do.
pub open spec fn puts_within(
    tables: Tables,
    ops: Seq<StoreOp>,
    table: Seq<char>,
    capacity: nat,
) -> bool {
    forall|n: int|
        0 <= n < ops.len() && puts_into(#[trigger] ops[n], table) ==> state_after(
            tables,
            ops,
            n,
        )[table].len() < capacity
}

/// Putting a seed changes its table alone, and taking one out likewise.
pub proof fn lemma_other_tables_untouched(
    tables: Tables,
    table: Seq<char>,
    seed: Seq<u8>,
    other: Seq<char>,
)
    requires
        other != table,
    ensures
        put(tables, table, seed).dom().contains(other) == tables.dom().contains(other),
        put(tables, table, seed)[other] == tables[other],
        without(tables, table, seed).dom().contains(other) == tables.dom().contains(other),
        without(tables, table, seed)[other] == tables[other],
{
}

/// Putting the same seed twice is putting it once: the second put changes nothing,
/// and the two together add at most one seed.
pub proof fn lemma_put_twice(tables: Tables, table: Seq<char>, seed: Seq<u8>)
    requires
        tables[table].finite(),
    ensures
        put(put(tables, table, seed), table, seed) == put(tables, table, seed),
        put(tables, table, seed)[table].finite(),
        tables[table].len() <= put(tables, table, seed)[table].len() <= tables[table].len() + 1,
        tables[table].contains(seed) ==> put(tables, table, seed)[table] == tables[table],
{
    let once = put(tables, table, seed);
    assert(once[table].insert(seed) =~= once[table]);
    assert(put(once, table, seed) =~= once);
    if tables[table].contains(seed) {
        assert(tables[table].insert(seed) =~= tables[table]);
    }
}

/// A seed that was taken out is no longer in its table, which holds one seed fewer.
pub proof fn lemma_taken_is_gone(tables: Tables, table: Seq<char>, seed: Seq<u8>)
    requires
        tables[table].finite(),
        tables[table].contains(seed),
    ensures
        !without(tables, table, seed)[table].contains(seed),
        without(tables, table, seed)[table].finite(),
        without(tables, table, seed)[table].len() == tables[table].len() - 1,
{
}

/// Once `ops[i]` has taken `seed` out of `table`, the seed stays out for as long as
/// no later call puts it back.
pub proof fn lemma_stays_out(
    tables: Tables,
    ops: Seq<StoreOp>,
    table: Seq<char>,
    seed: Seq<u8>,
    i: int,
    n: int,
)
    requires
        0 <= i < n <= ops.len(),
        ops[i] == (StoreOp::Take { table, seed }),
        forall|k: int| i < k < n ==> ops[k] != (StoreOp::Put { table, seed }),
    ensures
        !state_after(tables, ops, n)[table].contains(seed),
    decreases n - i,
{
    let before = state_after(tables, ops, n - 1);
    if n - 1 == i {
        assert(state_after(tables, ops, n) == without(before, table, seed));
    } else {
        lemma_stays_out(tables, ops, table, seed, i, n - 1);
        match ops[n - 1] {
            StoreOp::Put { table: t, seed: s } => {
                assert(!(t == table && s == seed));
            },
            StoreOp::Take { table: t, seed: s } => {},
        }
    }
}

/// No seed is handed out twice: where one writer's calls take the same seed out of
/// the same table at two places, a call between them has put it back.
pub proof fn lemma_never_taken_twice(
    tables: Tables,
    ops: Seq<StoreOp>,
    table: Seq<char>,
    seed: Seq<u8>,
    i: int,
    j: int,
)
    requires
        history(tables, ops),
        0 <= i < j < ops.len(),
        ops[i] == (StoreOp::Take { table, seed }),
        ops[j] == (StoreOp::Take { table, seed }),
    ensures
        exists|k: int| i < k < j && ops[k] == (StoreOp::Put { table, seed }),
{
    if forall|k: int| i < k < j ==> ops[k] != (StoreOp::Put { table, seed }) {
        lemma_stays_out(tables, ops, table, seed, i, j);
        assert(permits(state_after(tables, ops, j), ops[j]));
    }
}

/// A table that starts within its capacity stays within it, whatever one writer
/// does, as long as every put into it found room.
pub proof fn lemma_capacity_kept(
    tables: Tables,
    ops: Seq<StoreOp>,
    table: Seq<char>,
    capacity: nat,
    n: int,
)
    requires
        tables[table].finite(),
        tables[table].len() <= capacity,
        puts_within(tables, ops, table, capacity),
        0 <= n <= ops.len(),
    ensures
        state_after(tables, ops, n)[table].finite(),
        state_after(tables, ops, n)[table].len() <= capacity,
    decreases n,
{
    if n > 0 {
        lemma_capacity_kept(tables, ops, table, capacity, n - 1);
        let before = state_after(tables, ops, n - 1);
        match ops[n - 1] {
            StoreOp::Put { table: t, seed: s } => {
                if t == table {
                    assert(puts_into(ops[n - 1], table));
                    assert(before[table].len() < capacity);
                }
            },
            StoreOp::Take { table: t, seed: s } => {
                if t == table && before[table].contains(s) {
                } else if t == table {
                    assert(before[table].remove(s) =~= before[table]);
                }
            },
        }
    }
}

/// How many of the first `n` calls of `ops` put a seed into `table`.
pub open spec fn puts_among(ops: Seq<StoreOp>, table: Seq<char>, n: int) -> nat
    decreases n,
{
    if n <= 0 {
        0
    } else if puts_into(ops[n - 1], table) {
        puts_among(ops, table, n - 1) + 1
    } else {
        puts_among(ops, table, n - 1)
    }
}

/// Whether a call takes a seed out of `table`.
pub open spec fn takes_from(op: StoreOp, table: Seq<char>) -> bool {
    match op {
        StoreOp::Put { table: t, seed } => false,
        StoreOp::Take { table: t, seed } => t == table,
    }
}

/// How many of the first `n` calls of `ops` took a seed out of `table`.
pub open spec fn takes_among(ops: Seq<StoreOp>, table: Seq<char>, n: int) -> nat
    decreases n,
{
    if n <= 0 {
        0
    } else if takes_from(ops[n - 1], table) {
        takes_among(ops, table, n - 1) + 1
    } else {
        takes_among(ops, table, n - 1)
    }
}

/// Every seed that is handed out was stored: the seeds taken out of a table and the
/// seeds still in it are together no more than the seeds it held at first and the
/// puts into it, and each take leaves exactly one seed fewer.
pub proof fn lemma_takes_are_covered(tables: Tables, ops: Seq<StoreOp>, table: Seq<char>, n: int)
    requires
        tables[table].finite(),
        history(tables, ops),
        0 <= n <= ops.len(),
    ensures
        state_after(tables, ops, n)[table].finite(),
        state_after(tables, ops, n)[table].len() + takes_among(ops, table, n)
            <= tables[table].len() + puts_among(ops, table, n),
        n > 0 && takes_from(ops[n - 1], table) ==> state_after(tables, ops, n)[table].len()
            == state_after(tables, ops, n - 1)[table].len() - 1,
    decreases n,
{
    if n > 0 {
        lemma_takes_are_covered(tables, ops, table, n - 1);
        let before = state_after(tables, ops, n - 1);
        assert(permits(before, ops[n - 1]));
        match ops[n - 1] {
            StoreOp::Put { table: t, seed: s } => {},
            StoreOp::Take { table: t, seed: s } => {},
        }
    }
}

} // verus!
