//! The migration engine: ordered, backend-aware creation and destruction
//! of schema objects.
//!
//! `Up` runs four batches in a strict order — enumerated types (only where
//! the backend has them), tables in declaration order, foreign keys (never
//! on backends that forbid enforcing them), indexes. `Down` mirrors it:
//! foreign keys, indexes, tables, enumerated types, each batch internally
//! reversed. Every operation checks its prerequisites against the running
//! schema state, so the proofs that a whole plan succeeds are exactly the
//! ordering invariant: an object is never created before what it depends
//! on, nor dropped before what depends on it.

use vstd::prelude::*;
use vstd::pervasive::VecAdditionalExecFns;

use crate::backend::DbBackend;
use crate::schema::{Catalog, ColumnKind, TableDef, catalog_wf, column_wf, fk_wf, index_wf, table_wf};

verus! {

/// One schema-changing operation, naming its object by catalog position.
#[derive(Clone, Copy, PartialEq, Eq, Structural, Debug)]
pub enum SchemaOp {
    CreateType(usize),
    CreateTable(usize),
    CreateForeignKey(usize),
    CreateIndex(usize),
    DropForeignKey(usize),
    DropIndex(usize),
    DropTable(usize),
    DropType(usize),
}

/// The four stages of a migration, named in failure reports.
#[derive(Clone, Copy, PartialEq, Eq, Structural, Debug)]
pub enum MigrationStage {
    Types,
    Tables,
    ForeignKeys,
    Indexes,
}

/// A failed migration operation: which stage it belonged to and the name
/// of the schema object it touched, for manual inspection of partial state.
pub struct MigrationError {
    pub stage: MigrationStage,
    pub object: String,
}

/// Which objects of a catalog currently exist, one flag per catalog
/// position.
pub struct SchemaState {
    pub types: Vec<bool>,
    pub tables: Vec<bool>,
    pub fks: Vec<bool>,
    pub indexes: Vec<bool>,
}

/// Mathematical image of a [`SchemaState`].
pub struct SchemaStateV {
    pub types: Seq<bool>,
    pub tables: Seq<bool>,
    pub fks: Seq<bool>,
    pub indexes: Seq<bool>,
}

impl View for SchemaState {
    type V = SchemaStateV;

    open spec fn view(&self) -> SchemaStateV {
        SchemaStateV { types: self.types@, tables: self.tables@, fks: self.fks@, indexes: self.indexes@ }
    }
}

/// Whether a state has one presence flag per catalog object.
pub open spec fn state_matches(s: SchemaStateV, c: Catalog) -> bool {
    &&& s.types.len() == c.types@.len()
    &&& s.tables.len() == c.tables@.len()
    &&& s.fks.len() == c.fks@.len()
    &&& s.indexes.len() == c.indexes@.len()
}

/// The state in which no object exists yet.
pub open spec fn empty_state_v(c: Catalog) -> SchemaStateV {
    SchemaStateV {
        types: Seq::new(c.types@.len(), |i: int| false),
        tables: Seq::new(c.tables@.len(), |i: int| false),
        fks: Seq::new(c.fks@.len(), |i: int| false),
        indexes: Seq::new(c.indexes@.len(), |i: int| false),
    }
}

/// The state after a completed `Up` on backend `b`: every table and index
/// exists; enumerated types exist exactly where the backend has them, and
/// foreign keys exactly where the backend enforces them.
pub open spec fn full_state_v(c: Catalog, b: DbBackend) -> SchemaStateV {
    SchemaStateV {
        types: Seq::new(c.types@.len(), |i: int| b.spec_supports_enum_types()),
        tables: Seq::new(c.tables@.len(), |i: int| true),
        fks: Seq::new(c.fks@.len(), |i: int| b.spec_supports_foreign_keys()),
        indexes: Seq::new(c.indexes@.len(), |i: int| true),
    }
}

/// The stage an operation belongs to.
pub open spec fn op_stage(op: SchemaOp) -> MigrationStage {
    match op {
        SchemaOp::CreateType(_) | SchemaOp::DropType(_) => MigrationStage::Types,
        SchemaOp::CreateTable(_) | SchemaOp::DropTable(_) => MigrationStage::Tables,
        SchemaOp::CreateForeignKey(_) | SchemaOp::DropForeignKey(_) => MigrationStage::ForeignKeys,
        SchemaOp::CreateIndex(_) | SchemaOp::DropIndex(_) => MigrationStage::Indexes,
    }
}

/// Whether every enumerated type named by a column of `t` exists in
/// `types`.
pub open spec fn table_types_present(t: TableDef, types: Seq<bool>) -> bool {
    forall|j: int| 0 <= j < t.columns@.len()
        ==> ((#[trigger] t.columns@[j].kind) matches ColumnKind::Enumeration(y)
            ==> y < types.len() && types[y as int])
}

/// The prerequisites of one operation against the current state: whatever
/// the object depends on must exist, whatever depends on it must be gone,
/// a dropped object must exist, and an unguarded create requires the
/// object absent. Enum types are a dependency only where the backend has
/// them as native objects; elsewhere enum columns are plain text. Table
/// creation is the one guarded statement: it carries an if-not-exists
/// clause, so creating a table that already exists succeeds and changes
/// nothing.
pub open spec fn op_enabled(c: Catalog, b: DbBackend, s: SchemaStateV, op: SchemaOp) -> bool {
    match op {
        SchemaOp::CreateType(i) => i < s.types.len() && !s.types[i as int],
        SchemaOp::CreateTable(i) => {
            &&& i < s.tables.len()
            &&& b.spec_supports_enum_types() ==> table_types_present(c.tables@[i as int], s.types)
        },
        SchemaOp::CreateForeignKey(i) => {
            &&& i < s.fks.len()
            &&& !s.fks[i as int]
            &&& c.fks@[i as int].child_table < s.tables.len()
            &&& c.fks@[i as int].parent_table < s.tables.len()
            &&& s.tables[c.fks@[i as int].child_table as int]
            &&& s.tables[c.fks@[i as int].parent_table as int]
        },
        SchemaOp::CreateIndex(i) => {
            &&& i < s.indexes.len()
            &&& !s.indexes[i as int]
            &&& c.indexes@[i as int].table < s.tables.len()
            &&& s.tables[c.indexes@[i as int].table as int]
        },
        SchemaOp::DropForeignKey(i) => i < s.fks.len() && s.fks[i as int],
        SchemaOp::DropIndex(i) => i < s.indexes.len() && s.indexes[i as int],
        SchemaOp::DropTable(i) => {
            &&& i < s.tables.len()
            &&& s.tables[i as int]
            &&& forall|j: int| 0 <= j < s.fks.len() && #[trigger] s.fks[j]
                ==> c.fks@[j].child_table != i && c.fks@[j].parent_table != i
            &&& forall|j: int| 0 <= j < s.indexes.len() && #[trigger] s.indexes[j]
                ==> c.indexes@[j].table != i
        },
        SchemaOp::DropType(i) => {
            &&& i < s.types.len()
            &&& s.types[i as int]
            &&& forall|j: int| 0 <= j < s.tables.len() && #[trigger] s.tables[j]
                ==> !table_uses_type(c.tables@[j], i as int)
        },
    }
}

/// Whether some column of `t` names the enumerated type at position `y`.
pub open spec fn table_uses_type(t: TableDef, y: int) -> bool {
    exists|j: int| 0 <= j < t.columns@.len()
        && ((#[trigger] t.columns@[j].kind) matches ColumnKind::Enumeration(z) && z == y)
}

/// The state after one successful operation: exactly one presence flag
/// changes.
pub open spec fn apply_op_v(s: SchemaStateV, op: SchemaOp) -> SchemaStateV {
    match op {
        SchemaOp::CreateType(i) => SchemaStateV { types: s.types.update(i as int, true), ..s },
        SchemaOp::CreateTable(i) => SchemaStateV { tables: s.tables.update(i as int, true), ..s },
        SchemaOp::CreateForeignKey(i) => SchemaStateV { fks: s.fks.update(i as int, true), ..s },
        SchemaOp::CreateIndex(i) => SchemaStateV { indexes: s.indexes.update(i as int, true), ..s },
        SchemaOp::DropForeignKey(i) => SchemaStateV { fks: s.fks.update(i as int, false), ..s },
        SchemaOp::DropIndex(i) => SchemaStateV { indexes: s.indexes.update(i as int, false), ..s },
        SchemaOp::DropTable(i) => SchemaStateV { tables: s.tables.update(i as int, false), ..s },
        SchemaOp::DropType(i) => SchemaStateV { types: s.types.update(i as int, false), ..s },
    }
}

/// Runs a plan: applies each operation in order, stopping at the first
/// whose prerequisites fail. `None` is a stage failure; the engine never
/// retries one.
pub open spec fn run_ops_v(c: Catalog, b: DbBackend, s: SchemaStateV, ops: Seq<SchemaOp>) -> Option<
    SchemaStateV,
>
    decreases ops.len(),
{
    if ops.len() == 0 {
        Some(s)
    } else if op_enabled(c, b, s, ops[0]) {
        run_ops_v(c, b, apply_op_v(s, ops[0]), ops.skip(1))
    } else {
        None
    }
}

/// The `Up` plan: create enumerated types (where the backend has them),
/// then tables in declaration order, then foreign keys (where the backend
/// enforces them), then indexes.
pub open spec fn up_plan_v(c: Catalog, b: DbBackend) -> Seq<SchemaOp> {
    (if b.spec_supports_enum_types() {
        Seq::new(c.types@.len(), |i: int| SchemaOp::CreateType(i as usize))
    } else {
        Seq::empty()
    }) + Seq::new(c.tables@.len(), |i: int| SchemaOp::CreateTable(i as usize)) + (
    if b.spec_supports_foreign_keys() {
        Seq::new(c.fks@.len(), |i: int| SchemaOp::CreateForeignKey(i as usize))
    } else {
        Seq::empty()
    }) + Seq::new(c.indexes@.len(), |i: int| SchemaOp::CreateIndex(i as usize))
}

/// The `Down` plan, the exact mirror of `Up`: drop foreign keys (where the
/// backend enforces them), then indexes, then tables, then enumerated
/// types (where the backend has them), each batch in reverse declaration
/// order.
pub open spec fn down_plan_v(c: Catalog, b: DbBackend) -> Seq<SchemaOp> {
    (if b.spec_supports_foreign_keys() {
        Seq::new(c.fks@.len(), |i: int| SchemaOp::DropForeignKey((c.fks@.len() - 1 - i) as usize))
    } else {
        Seq::empty()
    }) + Seq::new(
        c.indexes@.len(),
        |i: int| SchemaOp::DropIndex((c.indexes@.len() - 1 - i) as usize),
    ) + Seq::new(c.tables@.len(), |i: int| SchemaOp::DropTable((c.tables@.len() - 1 - i) as usize))
        + (if b.spec_supports_enum_types() {
        Seq::new(c.types@.len(), |i: int| SchemaOp::DropType((c.types@.len() - 1 - i) as usize))
    } else {
        Seq::empty()
    })
}

/// Running a concatenated plan is running its parts in sequence.
pub proof fn lemma_run_concat(c: Catalog, b: DbBackend, s: SchemaStateV, ops1: Seq<SchemaOp>, ops2: Seq<SchemaOp>)
    ensures
        run_ops_v(c, b, s, ops1 + ops2) == match run_ops_v(c, b, s, ops1) {
            Some(s1) => run_ops_v(c, b, s1, ops2),
            None => None::<SchemaStateV>,
        },
    decreases ops1.len(),
{
    if ops1.len() == 0 {
        assert(ops1 + ops2 =~= ops2);
    } else {
        assert((ops1 + ops2)[0] == ops1[0]);
        if op_enabled(c, b, s, ops1[0]) {
            assert((ops1 + ops2).skip(1) =~= ops1.skip(1) + ops2);
            lemma_run_concat(c, b, apply_op_v(s, ops1[0]), ops1.skip(1), ops2);
        }
    }
}


/// The capability gate in one statement: on a backend without native
/// enumerated types the `Up` plan holds no type-creation operation, and on
/// a backend that forbids enforced foreign keys it holds no foreign-key
/// operation — the relationship metadata then serves documentation only,
/// and cascade behaviour must be emulated by the application layer.
pub proof fn lemma_up_plan_respects_capabilities(c: Catalog, b: DbBackend)
    ensures
        !b.spec_supports_enum_types() ==> forall|i: int|
            0 <= i < up_plan_v(c, b).len() ==> !((#[trigger] up_plan_v(c, b)[i]) is CreateType),
        !b.spec_supports_foreign_keys() ==> forall|i: int|
            0 <= i < up_plan_v(c, b).len() ==> !((#[trigger] up_plan_v(c, b)[i]) is CreateForeignKey),
{
    let plan = up_plan_v(c, b);
    let types_batch: Seq<SchemaOp> = if b.spec_supports_enum_types() {
        Seq::new(c.types@.len(), |i: int| SchemaOp::CreateType(i as usize))
    } else {
        Seq::empty()
    };
    let tables_batch = Seq::new(c.tables@.len(), |i: int| SchemaOp::CreateTable(i as usize));
    let fks_batch: Seq<SchemaOp> = if b.spec_supports_foreign_keys() {
        Seq::new(c.fks@.len(), |i: int| SchemaOp::CreateForeignKey(i as usize))
    } else {
        Seq::empty()
    };
    let indexes_batch = Seq::new(c.indexes@.len(), |i: int| SchemaOp::CreateIndex(i as usize));
    assert(plan == types_batch + tables_batch + fks_batch + indexes_batch);
    assert forall|i: int| 0 <= i < plan.len() implies ((!b.spec_supports_enum_types() ==> !((
    #[trigger] plan[i]) is CreateType)) && (!b.spec_supports_foreign_keys() ==> !(plan[i] is CreateForeignKey))) by {
        let n1 = types_batch.len() as int;
        let n2 = n1 + tables_batch.len();
        let n3 = n2 + fks_batch.len();
        if i < n1 {
            assert(plan[i] == types_batch[i]);
        } else if i < n2 {
            assert(plan[i] == tables_batch[i - n1]);
        } else if i < n3 {
            assert(plan[i] == fks_batch[i - n2]);
        } else {
            assert(plan[i] == indexes_batch[i - n3]);
        }
    }
}

/// Creating the remaining enumerated types, in ascending order, succeeds
/// once the first `k` exist, and leaves them all existing.
proof fn lemma_up_types_from(c: Catalog, b: DbBackend, s: SchemaStateV, k: int)
    requires
        state_matches(s, c),
        s.types.len() <= usize::MAX,
        0 <= k <= s.types.len(),
        forall|j: int| 0 <= j < s.types.len() ==> s.types[j] == (j < k),
    ensures
        run_ops_v(
            c,
            b,
            s,
            Seq::new((s.types.len() - k) as nat, |i: int| SchemaOp::CreateType((k + i) as usize)),
        ) == Some(SchemaStateV { types: Seq::new(s.types.len(), |i: int| true), ..s }),
    decreases s.types.len() - k,
{
    let nt = s.types.len() as int;
    let batch = Seq::new((nt - k) as nat, |i: int| SchemaOp::CreateType((k + i) as usize));
    if k == nt {
        assert(s.types =~= Seq::new(s.types.len(), |i: int| true));
    } else {
        let op = batch[0];
        assert(op == SchemaOp::CreateType(k as usize));
        assert(op_enabled(c, b, s, op));
        let s1 = apply_op_v(s, op);
        assert(forall|j: int| 0 <= j < s1.types.len() ==> s1.types[j] == (j < k + 1));
        lemma_up_types_from(c, b, s1, k + 1);
        assert(batch.skip(1) =~= Seq::new(
            (s1.types.len() - (k + 1)) as nat,
            |i: int| SchemaOp::CreateType((k + 1 + i) as usize),
        ));
        assert(Seq::new(s1.types.len(), |i: int| true) =~= Seq::new(
            s.types.len(),
            |i: int| true,
        ));
    }
}

/// Creating the remaining tables in declaration order succeeds once the
/// first `k` exist: every enumerated type a table needs already exists by
/// the time the table batch runs.
proof fn lemma_up_tables_from(c: Catalog, b: DbBackend, s: SchemaStateV, k: int)
    requires
        state_matches(s, c),
        s.tables.len() <= usize::MAX,
        catalog_wf(c),
        b.spec_supports_enum_types() ==> forall|j: int| 0 <= j < s.types.len() ==> s.types[j],
        0 <= k <= s.tables.len(),
        forall|j: int| 0 <= j < s.tables.len() ==> s.tables[j] == (j < k),
    ensures
        run_ops_v(
            c,
            b,
            s,
            Seq::new((s.tables.len() - k) as nat, |i: int| SchemaOp::CreateTable((k + i) as usize)),
        ) == Some(SchemaStateV { tables: Seq::new(s.tables.len(), |i: int| true), ..s }),
    decreases s.tables.len() - k,
{
    let nt = s.tables.len() as int;
    let batch = Seq::new((nt - k) as nat, |i: int| SchemaOp::CreateTable((k + i) as usize));
    if k == nt {
        assert(s.tables =~= Seq::new(s.tables.len(), |i: int| true));
    } else {
        let op = batch[0];
        assert(op == SchemaOp::CreateTable(k as usize));
        if b.spec_supports_enum_types() {
            assert(table_wf(c.tables@[k], c.types@.len() as int));
            assert forall|j: int| 0 <= j < c.tables@[k].columns@.len()
                implies ((#[trigger] c.tables@[k].columns@[j].kind) matches ColumnKind::Enumeration(
                y,
            ) ==> y < s.types.len() && s.types[y as int]) by {
                assert(column_wf(c.tables@[k].columns@[j], c.types@.len() as int));
            }
            assert(table_types_present(c.tables@[k], s.types));
        }
        assert(op_enabled(c, b, s, op));
        let s1 = apply_op_v(s, op);
        assert(forall|j: int| 0 <= j < s1.tables.len() ==> s1.tables[j] == (j < k + 1));
        lemma_up_tables_from(c, b, s1, k + 1);
        assert(batch.skip(1) =~= Seq::new(
            (s1.tables.len() - (k + 1)) as nat,
            |i: int| SchemaOp::CreateTable((k + 1 + i) as usize),
        ));
        assert(Seq::new(s1.tables.len(), |i: int| true) =~= Seq::new(
            s.tables.len(),
            |i: int| true,
        ));
    }
}

/// Creating the remaining foreign keys succeeds once every table exists.
proof fn lemma_up_fks_from(c: Catalog, b: DbBackend, s: SchemaStateV, k: int)
    requires
        state_matches(s, c),
        s.fks.len() <= usize::MAX,
        catalog_wf(c),
        forall|j: int| 0 <= j < s.tables.len() ==> s.tables[j],
        0 <= k <= s.fks.len(),
        forall|j: int| 0 <= j < s.fks.len() ==> s.fks[j] == (j < k),
    ensures
        run_ops_v(
            c,
            b,
            s,
            Seq::new(
                (s.fks.len() - k) as nat,
                |i: int| SchemaOp::CreateForeignKey((k + i) as usize),
            ),
        ) == Some(SchemaStateV { fks: Seq::new(s.fks.len(), |i: int| true), ..s }),
    decreases s.fks.len() - k,
{
    let nf = s.fks.len() as int;
    let batch = Seq::new((nf - k) as nat, |i: int| SchemaOp::CreateForeignKey((k + i) as usize));
    if k == nf {
        assert(s.fks =~= Seq::new(s.fks.len(), |i: int| true));
    } else {
        let op = batch[0];
        assert(op == SchemaOp::CreateForeignKey(k as usize));
        assert(fk_wf(c.fks@[k], c.tables@));
        assert(op_enabled(c, b, s, op));
        let s1 = apply_op_v(s, op);
        assert(forall|j: int| 0 <= j < s1.fks.len() ==> s1.fks[j] == (j < k + 1));
        lemma_up_fks_from(c, b, s1, k + 1);
        assert(batch.skip(1) =~= Seq::new(
            (s1.fks.len() - (k + 1)) as nat,
            |i: int| SchemaOp::CreateForeignKey((k + 1 + i) as usize),
        ));
        assert(Seq::new(s1.fks.len(), |i: int| true) =~= Seq::new(s.fks.len(), |i: int| true));
    }
}

/// Creating the remaining indexes succeeds once every table exists.
proof fn lemma_up_indexes_from(c: Catalog, b: DbBackend, s: SchemaStateV, k: int)
    requires
        state_matches(s, c),
        s.indexes.len() <= usize::MAX,
        catalog_wf(c),
        forall|j: int| 0 <= j < s.tables.len() ==> s.tables[j],
        0 <= k <= s.indexes.len(),
        forall|j: int| 0 <= j < s.indexes.len() ==> s.indexes[j] == (j < k),
    ensures
        run_ops_v(
            c,
            b,
            s,
            Seq::new(
                (s.indexes.len() - k) as nat,
                |i: int| SchemaOp::CreateIndex((k + i) as usize),
            ),
        ) == Some(SchemaStateV { indexes: Seq::new(s.indexes.len(), |i: int| true), ..s }),
    decreases s.indexes.len() - k,
{
    let ni = s.indexes.len() as int;
    let batch = Seq::new((ni - k) as nat, |i: int| SchemaOp::CreateIndex((k + i) as usize));
    if k == ni {
        assert(s.indexes =~= Seq::new(s.indexes.len(), |i: int| true));
    } else {
        let op = batch[0];
        assert(op == SchemaOp::CreateIndex(k as usize));
        assert(index_wf(c.indexes@[k], c.tables@));
        assert(op_enabled(c, b, s, op));
        let s1 = apply_op_v(s, op);
        assert(forall|j: int| 0 <= j < s1.indexes.len() ==> s1.indexes[j] == (j < k + 1));
        lemma_up_indexes_from(c, b, s1, k + 1);
        assert(batch.skip(1) =~= Seq::new(
            (s1.indexes.len() - (k + 1)) as nat,
            |i: int| SchemaOp::CreateIndex((k + 1 + i) as usize),
        ));
        assert(Seq::new(s1.indexes.len(), |i: int| true) =~= Seq::new(
            s.indexes.len(),
            |i: int| true,
        ));
    }
}

/// Dropping the remaining foreign keys, highest position first, succeeds
/// while the top `k` are already gone.
proof fn lemma_down_fks_from(c: Catalog, b: DbBackend, s: SchemaStateV, k: int)
    requires
        state_matches(s, c),
        s.fks.len() <= usize::MAX,
        0 <= k <= s.fks.len(),
        forall|j: int| 0 <= j < s.fks.len() ==> s.fks[j] == (j < s.fks.len() - k),
    ensures
        run_ops_v(
            c,
            b,
            s,
            Seq::new(
                (s.fks.len() - k) as nat,
                |i: int| SchemaOp::DropForeignKey((s.fks.len() - k - 1 - i) as usize),
            ),
        ) == Some(SchemaStateV { fks: Seq::new(s.fks.len(), |i: int| false), ..s }),
    decreases s.fks.len() - k,
{
    let nf = s.fks.len() as int;
    let batch = Seq::new((nf - k) as nat, |i: int| SchemaOp::DropForeignKey((nf - k - 1 - i) as usize));
    if k == nf {
        assert(s.fks =~= Seq::new(s.fks.len(), |i: int| false));
    } else {
        let op = batch[0];
        assert(op == SchemaOp::DropForeignKey((nf - k - 1) as usize));
        assert(op_enabled(c, b, s, op));
        let s1 = apply_op_v(s, op);
        assert(forall|j: int| 0 <= j < s1.fks.len() ==> s1.fks[j] == (j < s1.fks.len() - (k + 1)));
        lemma_down_fks_from(c, b, s1, k + 1);
        assert(batch.skip(1) =~= Seq::new(
            (s1.fks.len() - (k + 1)) as nat,
            |i: int| SchemaOp::DropForeignKey((s1.fks.len() - (k + 1) - 1 - i) as usize),
        ));
        assert(Seq::new(s1.fks.len(), |i: int| false) =~= Seq::new(s.fks.len(), |i: int| false));
    }
}

/// Dropping the remaining indexes, highest position first, succeeds while
/// the top `k` are already gone.
proof fn lemma_down_indexes_from(c: Catalog, b: DbBackend, s: SchemaStateV, k: int)
    requires
        state_matches(s, c),
        s.indexes.len() <= usize::MAX,
        0 <= k <= s.indexes.len(),
        forall|j: int| 0 <= j < s.indexes.len() ==> s.indexes[j] == (j < s.indexes.len() - k),
    ensures
        run_ops_v(
            c,
            b,
            s,
            Seq::new(
                (s.indexes.len() - k) as nat,
                |i: int| SchemaOp::DropIndex((s.indexes.len() - k - 1 - i) as usize),
            ),
        ) == Some(SchemaStateV { indexes: Seq::new(s.indexes.len(), |i: int| false), ..s }),
    decreases s.indexes.len() - k,
{
    let ni = s.indexes.len() as int;
    let batch = Seq::new((ni - k) as nat, |i: int| SchemaOp::DropIndex((ni - k - 1 - i) as usize));
    if k == ni {
        assert(s.indexes =~= Seq::new(s.indexes.len(), |i: int| false));
    } else {
        let op = batch[0];
        assert(op == SchemaOp::DropIndex((ni - k - 1) as usize));
        assert(op_enabled(c, b, s, op));
        let s1 = apply_op_v(s, op);
        assert(forall|j: int| 0 <= j < s1.indexes.len() ==> s1.indexes[j] == (j < s1.indexes.len()
            - (k + 1)));
        lemma_down_indexes_from(c, b, s1, k + 1);
        assert(batch.skip(1) =~= Seq::new(
            (s1.indexes.len() - (k + 1)) as nat,
            |i: int| SchemaOp::DropIndex((s1.indexes.len() - (k + 1) - 1 - i) as usize),
        ));
        assert(Seq::new(s1.indexes.len(), |i: int| false) =~= Seq::new(
            s.indexes.len(),
            |i: int| false,
        ));
    }
}

/// Dropping the remaining tables, in reverse declaration order, succeeds
/// once every foreign key and index is gone.
proof fn lemma_down_tables_from(c: Catalog, b: DbBackend, s: SchemaStateV, k: int)
    requires
        state_matches(s, c),
        s.tables.len() <= usize::MAX,
        forall|j: int| 0 <= j < s.fks.len() ==> !s.fks[j],
        forall|j: int| 0 <= j < s.indexes.len() ==> !s.indexes[j],
        0 <= k <= s.tables.len(),
        forall|j: int| 0 <= j < s.tables.len() ==> s.tables[j] == (j < s.tables.len() - k),
    ensures
        run_ops_v(
            c,
            b,
            s,
            Seq::new(
                (s.tables.len() - k) as nat,
                |i: int| SchemaOp::DropTable((s.tables.len() - k - 1 - i) as usize),
            ),
        ) == Some(SchemaStateV { tables: Seq::new(s.tables.len(), |i: int| false), ..s }),
    decreases s.tables.len() - k,
{
    let nt = s.tables.len() as int;
    let batch = Seq::new((nt - k) as nat, |i: int| SchemaOp::DropTable((nt - k - 1 - i) as usize));
    if k == nt {
        assert(s.tables =~= Seq::new(s.tables.len(), |i: int| false));
    } else {
        let op = batch[0];
        assert(op == SchemaOp::DropTable((nt - k - 1) as usize));
        assert(op_enabled(c, b, s, op));
        let s1 = apply_op_v(s, op);
        assert(forall|j: int| 0 <= j < s1.tables.len() ==> s1.tables[j] == (j < s1.tables.len() - (
        k + 1)));
        lemma_down_tables_from(c, b, s1, k + 1);
        assert(batch.skip(1) =~= Seq::new(
            (s1.tables.len() - (k + 1)) as nat,
            |i: int| SchemaOp::DropTable((s1.tables.len() - (k + 1) - 1 - i) as usize),
        ));
        assert(Seq::new(s1.tables.len(), |i: int| false) =~= Seq::new(
            s.tables.len(),
            |i: int| false,
        ));
    }
}

/// Dropping the remaining enumerated types succeeds once every table is
/// gone.
proof fn lemma_down_types_from(c: Catalog, b: DbBackend, s: SchemaStateV, k: int)
    requires
        state_matches(s, c),
        s.types.len() <= usize::MAX,
        forall|j: int| 0 <= j < s.tables.len() ==> !s.tables[j],
        0 <= k <= s.types.len(),
        forall|j: int| 0 <= j < s.types.len() ==> s.types[j] == (j < s.types.len() - k),
    ensures
        run_ops_v(
            c,
            b,
            s,
            Seq::new(
                (s.types.len() - k) as nat,
                |i: int| SchemaOp::DropType((s.types.len() - k - 1 - i) as usize),
            ),
        ) == Some(SchemaStateV { types: Seq::new(s.types.len(), |i: int| false), ..s }),
    decreases s.types.len() - k,
{
    let nt = s.types.len() as int;
    let batch = Seq::new((nt - k) as nat, |i: int| SchemaOp::DropType((nt - k - 1 - i) as usize));
    if k == nt {
        assert(s.types =~= Seq::new(s.types.len(), |i: int| false));
    } else {
        let op = batch[0];
        assert(op == SchemaOp::DropType((nt - k - 1) as usize));
        assert(op_enabled(c, b, s, op));
        let s1 = apply_op_v(s, op);
        assert(forall|j: int| 0 <= j < s1.types.len() ==> s1.types[j] == (j < s1.types.len() - (k
            + 1)));
        lemma_down_types_from(c, b, s1, k + 1);
        assert(batch.skip(1) =~= Seq::new(
            (s1.types.len() - (k + 1)) as nat,
            |i: int| SchemaOp::DropType((s1.types.len() - (k + 1) - 1 - i) as usize),
        ));
        assert(Seq::new(s1.types.len(), |i: int| false) =~= Seq::new(
            s.types.len(),
            |i: int| false,
        ));
    }
}

/// The whole `Up` plan succeeds from the empty schema on any well-formed
/// catalog, and produces exactly the full schema for the backend: every
/// table and index, enumerated types only where the backend has them,
/// foreign keys only where it enforces them.
pub proof fn lemma_up_plan(c: Catalog, b: DbBackend)
    requires
        catalog_wf(c),
    ensures
        run_ops_v(c, b, empty_state_v(c), up_plan_v(c, b)) == Some(full_state_v(c, b)),
{
    assert(c.types.len() == c.types@.len());
    assert(c.tables.len() == c.tables@.len());
    assert(c.fks.len() == c.fks@.len());
    assert(c.indexes.len() == c.indexes@.len());
    let s0 = empty_state_v(c);
    let types_batch: Seq<SchemaOp> = if b.spec_supports_enum_types() {
        Seq::new(c.types@.len(), |i: int| SchemaOp::CreateType(i as usize))
    } else {
        Seq::empty()
    };
    let tables_batch = Seq::new(c.tables@.len(), |i: int| SchemaOp::CreateTable(i as usize));
    let fks_batch: Seq<SchemaOp> = if b.spec_supports_foreign_keys() {
        Seq::new(c.fks@.len(), |i: int| SchemaOp::CreateForeignKey(i as usize))
    } else {
        Seq::empty()
    };
    let indexes_batch = Seq::new(c.indexes@.len(), |i: int| SchemaOp::CreateIndex(i as usize));

    let s1 = SchemaStateV {
        types: Seq::new(c.types@.len(), |i: int| b.spec_supports_enum_types()),
        ..s0
    };
    if b.spec_supports_enum_types() {
        assert(types_batch =~= Seq::new(
            (s0.types.len() - 0) as nat,
            |i: int| SchemaOp::CreateType((0 + i) as usize),
        ));
        lemma_up_types_from(c, b, s0, 0);
        assert(Seq::new(s0.types.len(), |i: int| true) =~= s1.types);
    } else {
        assert(s1.types =~= s0.types);
        assert(s1 == s0);
    }
    assert(run_ops_v(c, b, s0, types_batch) == Some(s1));

    let s2 = SchemaStateV { tables: Seq::new(c.tables@.len(), |i: int| true), ..s1 };
    assert(tables_batch =~= Seq::new(
        (s1.tables.len() - 0) as nat,
        |i: int| SchemaOp::CreateTable((0 + i) as usize),
    ));
    lemma_up_tables_from(c, b, s1, 0);
    assert(run_ops_v(c, b, s1, tables_batch) == Some(s2));

    let s3 = SchemaStateV {
        fks: Seq::new(c.fks@.len(), |i: int| b.spec_supports_foreign_keys()),
        ..s2
    };
    if b.spec_supports_foreign_keys() {
        assert(fks_batch =~= Seq::new(
            (s2.fks.len() - 0) as nat,
            |i: int| SchemaOp::CreateForeignKey((0 + i) as usize),
        ));
        lemma_up_fks_from(c, b, s2, 0);
        assert(Seq::new(s2.fks.len(), |i: int| true) =~= s3.fks);
    } else {
        assert(s3.fks =~= s2.fks);
        assert(s3 == s2);
    }
    assert(run_ops_v(c, b, s2, fks_batch) == Some(s3));

    let s4 = SchemaStateV { indexes: Seq::new(c.indexes@.len(), |i: int| true), ..s3 };
    assert(indexes_batch =~= Seq::new(
        (s3.indexes.len() - 0) as nat,
        |i: int| SchemaOp::CreateIndex((0 + i) as usize),
    ));
    lemma_up_indexes_from(c, b, s3, 0);
    assert(run_ops_v(c, b, s3, indexes_batch) == Some(s4));

    lemma_run_concat(c, b, s0, types_batch, tables_batch);
    lemma_run_concat(c, b, s0, types_batch + tables_batch, fks_batch);
    lemma_run_concat(c, b, s0, types_batch + tables_batch + fks_batch, indexes_batch);
    assert(up_plan_v(c, b) == types_batch + tables_batch + fks_batch + indexes_batch);
    assert(s4 == full_state_v(c, b));
}

/// The whole `Down` plan succeeds from the full schema on any well-formed
/// catalog, and removes every object the `Up` plan created.
pub proof fn lemma_down_plan(c: Catalog, b: DbBackend)
    requires
        catalog_wf(c),
    ensures
        run_ops_v(c, b, full_state_v(c, b), down_plan_v(c, b)) == Some(empty_state_v(c)),
{
    assert(c.types.len() == c.types@.len());
    assert(c.tables.len() == c.tables@.len());
    assert(c.fks.len() == c.fks@.len());
    assert(c.indexes.len() == c.indexes@.len());
    let s0 = full_state_v(c, b);
    let fks_batch: Seq<SchemaOp> = if b.spec_supports_foreign_keys() {
        Seq::new(c.fks@.len(), |i: int| SchemaOp::DropForeignKey((c.fks@.len() - 1 - i) as usize))
    } else {
        Seq::empty()
    };
    let indexes_batch = Seq::new(
        c.indexes@.len(),
        |i: int| SchemaOp::DropIndex((c.indexes@.len() - 1 - i) as usize),
    );
    let tables_batch = Seq::new(
        c.tables@.len(),
        |i: int| SchemaOp::DropTable((c.tables@.len() - 1 - i) as usize),
    );
    let types_batch: Seq<SchemaOp> = if b.spec_supports_enum_types() {
        Seq::new(c.types@.len(), |i: int| SchemaOp::DropType((c.types@.len() - 1 - i) as usize))
    } else {
        Seq::empty()
    };

    let s1 = SchemaStateV { fks: Seq::new(c.fks@.len(), |i: int| false), ..s0 };
    if b.spec_supports_foreign_keys() {
        assert(fks_batch =~= Seq::new(
            (s0.fks.len() - 0) as nat,
            |i: int| SchemaOp::DropForeignKey((s0.fks.len() - 0 - 1 - i) as usize),
        ));
        lemma_down_fks_from(c, b, s0, 0);
        assert(Seq::new(s0.fks.len(), |i: int| false) =~= s1.fks);
    } else {
        assert(s1.fks =~= s0.fks);
        assert(s1 == s0);
    }
    assert(run_ops_v(c, b, s0, fks_batch) == Some(s1));

    let s2 = SchemaStateV { indexes: Seq::new(c.indexes@.len(), |i: int| false), ..s1 };
    assert(indexes_batch =~= Seq::new(
        (s1.indexes.len() - 0) as nat,
        |i: int| SchemaOp::DropIndex((s1.indexes.len() - 0 - 1 - i) as usize),
    ));
    lemma_down_indexes_from(c, b, s1, 0);
    assert(run_ops_v(c, b, s1, indexes_batch) == Some(s2));

    let s3 = SchemaStateV { tables: Seq::new(c.tables@.len(), |i: int| false), ..s2 };
    assert(tables_batch =~= Seq::new(
        (s2.tables.len() - 0) as nat,
        |i: int| SchemaOp::DropTable((s2.tables.len() - 0 - 1 - i) as usize),
    ));
    lemma_down_tables_from(c, b, s2, 0);
    assert(run_ops_v(c, b, s2, tables_batch) == Some(s3));

    let s4 = SchemaStateV { types: Seq::new(c.types@.len(), |i: int| false), ..s3 };
    if b.spec_supports_enum_types() {
        assert(types_batch =~= Seq::new(
            (s3.types.len() - 0) as nat,
            |i: int| SchemaOp::DropType((s3.types.len() - 0 - 1 - i) as usize),
        ));
        lemma_down_types_from(c, b, s3, 0);
        assert(Seq::new(s3.types.len(), |i: int| false) =~= s4.types);
    } else {
        assert(s4.types =~= s3.types);
        assert(s4 == s3);
    }
    assert(run_ops_v(c, b, s3, types_batch) == Some(s4));

    lemma_run_concat(c, b, s0, fks_batch, indexes_batch);
    lemma_run_concat(c, b, s0, fks_batch + indexes_batch, tables_batch);
    lemma_run_concat(c, b, s0, fks_batch + indexes_batch + tables_batch, types_batch);
    assert(down_plan_v(c, b) == fks_batch + indexes_batch + tables_batch + types_batch);
    assert(s4 == empty_state_v(c));
}

/// Applying `Up`, then `Down`, then `Up` again produces a schema identical
/// to a single `Up`: the first `Up` builds the full schema for the
/// backend, `Down` returns exactly to the empty schema, and the second
/// `Up` therefore rebuilds the same objects with the same names, columns
/// and constraints.
pub proof fn lemma_up_down_up_identical(c: Catalog, b: DbBackend)
    requires
        catalog_wf(c),
    ensures
        ({
            let first = run_ops_v(c, b, empty_state_v(c), up_plan_v(c, b));
            let wiped = run_ops_v(c, b, full_state_v(c, b), down_plan_v(c, b));
            &&& first == Some(full_state_v(c, b))
            &&& wiped == Some(empty_state_v(c))
            &&& run_ops_v(c, b, wiped.unwrap(), up_plan_v(c, b)) == first
        }),
{
    lemma_up_plan(c, b);
    lemma_down_plan(c, b);
}

/// The name of the schema object an operation touches, for failure
/// reports; empty where the operation names no catalog position.
pub open spec fn op_object_name(c: Catalog, op: SchemaOp) -> Seq<char> {
    match op {
        SchemaOp::CreateType(i) | SchemaOp::DropType(i) => if i < c.types@.len() {
            c.types@[i as int].name@
        } else {
            Seq::empty()
        },
        SchemaOp::CreateTable(i) | SchemaOp::DropTable(i) => if i < c.tables@.len() {
            c.tables@[i as int].name@
        } else {
            Seq::empty()
        },
        SchemaOp::CreateForeignKey(i) | SchemaOp::DropForeignKey(i) => if i < c.fks@.len() {
            c.fks@[i as int].name@
        } else {
            Seq::empty()
        },
        SchemaOp::CreateIndex(i) | SchemaOp::DropIndex(i) => if i < c.indexes@.len() {
            c.indexes@[i as int].name@
        } else {
            Seq::empty()
        },
    }
}

/// A vector of `n` absent-flags.
fn falses(n: usize) -> (v: Vec<bool>)
    ensures
        v@ == Seq::new(n as nat, |i: int| false),
{
    let mut v: Vec<bool> = Vec::new();
    let mut i: usize = 0;
    while i < n
        invariant
            i <= n,
            v@ == Seq::new(i as nat, |j: int| false),
        decreases n - i,
    {
        v.push(false);
        i += 1;
        assert(v@ =~= Seq::new(i as nat, |j: int| false));
    }
    v
}

impl SchemaState {
    /// The state of a schema none of whose objects exists yet.
    pub fn new(c: &Catalog) -> (s: SchemaState)
        ensures
            s@ == empty_state_v(*c),
    {
        SchemaState {
            types: falses(c.types.len()),
            tables: falses(c.tables.len()),
            fks: falses(c.fks.len()),
            indexes: falses(c.indexes.len()),
        }
    }
}

/// Whether some column of `t` names the enumerated type at position `y`.
fn table_uses_type_exec(t: &TableDef, y: usize) -> (r: bool)
    ensures
        r == table_uses_type(*t, y as int),
{
    let mut j: usize = 0;
    while j < t.columns.len()
        invariant
            j <= t.columns@.len(),
            forall|k: int| 0 <= k < j
                ==> !((#[trigger] t.columns@[k].kind) matches ColumnKind::Enumeration(z) && z == y),
        decreases t.columns@.len() - j,
    {
        if let ColumnKind::Enumeration(z) = t.columns[j].kind {
            if z == y {
                return true;
            }
        }
        j += 1;
    }
    false
}

/// Whether every enumerated type named by a column of `t` is present.
fn table_types_present_exec(t: &TableDef, types: &Vec<bool>, n_types: usize) -> (r: bool)
    requires
        types@.len() == n_types,
        table_wf(*t, n_types as int),
    ensures
        r == table_types_present(*t, types@),
{
    let mut j: usize = 0;
    while j < t.columns.len()
        invariant
            j <= t.columns@.len(),
            types@.len() == n_types,
            table_wf(*t, n_types as int),
            forall|k: int| 0 <= k < j
                ==> ((#[trigger] t.columns@[k].kind) matches ColumnKind::Enumeration(y)
                    ==> y < types@.len() && types@[y as int]),
        decreases t.columns@.len() - j,
    {
        if let ColumnKind::Enumeration(y) = t.columns[j].kind {
            assert(column_wf(t.columns@[j as int], n_types as int));
            if !types[y] {
                return false;
            }
        }
        j += 1;
    }
    true
}

/// A whole migration: the declared catalog and the backend it targets.
pub struct Migration {
    pub catalog: Catalog,
    pub backend: DbBackend,
}

impl Migration {
    /// A migration is usable when its catalog is well-formed.
    pub open spec fn wf(self) -> bool {
        catalog_wf(self.catalog)
    }

    /// Creates the migration for the declared catalog on the given
    /// backend.
    pub fn new(backend: DbBackend) -> (m: Migration)
        ensures
            m.wf(),
            m.backend == backend,
            crate::catalog::declared_catalog(m.catalog),
    {
        Migration { catalog: crate::catalog::catalog(), backend }
    }

    /// The ordered `Up` plan for this backend.
    pub fn up_ops(&self) -> (ops: Vec<SchemaOp>)
        ensures
            ops@ == up_plan_v(self.catalog, self.backend),
    {
        let mut ops: Vec<SchemaOp> = Vec::new();
        let ghost types_batch: Seq<SchemaOp> = if self.backend.spec_supports_enum_types() {
            Seq::new(self.catalog.types@.len(), |i: int| SchemaOp::CreateType(i as usize))
        } else {
            Seq::empty()
        };
        if self.backend.supports_enum_types() {
            let mut i: usize = 0;
            while i < self.catalog.types.len()
                invariant
                    i <= self.catalog.types@.len(),
                    ops@ == Seq::new(i as nat, |j: int| SchemaOp::CreateType(j as usize)),
                decreases self.catalog.types@.len() - i,
            {
                ops.push(SchemaOp::CreateType(i));
                i += 1;
                assert(ops@ =~= Seq::new(i as nat, |j: int| SchemaOp::CreateType(j as usize)));
            }
        }
        assert(ops@ =~= types_batch);
        let mut i: usize = 0;
        while i < self.catalog.tables.len()
            invariant
                i <= self.catalog.tables@.len(),
                ops@ == types_batch + Seq::new(i as nat, |j: int| SchemaOp::CreateTable(j as usize)),
            decreases self.catalog.tables@.len() - i,
        {
            ops.push(SchemaOp::CreateTable(i));
            i += 1;
            assert(ops@ =~= types_batch + Seq::new(
                i as nat,
                |j: int| SchemaOp::CreateTable(j as usize),
            ));
        }
        let ghost tables_batch = Seq::new(
            self.catalog.tables@.len(),
            |j: int| SchemaOp::CreateTable(j as usize),
        );
        let ghost fks_batch: Seq<SchemaOp> = if self.backend.spec_supports_foreign_keys() {
            Seq::new(self.catalog.fks@.len(), |i: int| SchemaOp::CreateForeignKey(i as usize))
        } else {
            Seq::empty()
        };
        if self.backend.supports_foreign_keys() {
            let mut i: usize = 0;
            while i < self.catalog.fks.len()
                invariant
                    i <= self.catalog.fks@.len(),
                    ops@ == types_batch + tables_batch + Seq::new(
                        i as nat,
                        |j: int| SchemaOp::CreateForeignKey(j as usize),
                    ),
                decreases self.catalog.fks@.len() - i,
            {
                ops.push(SchemaOp::CreateForeignKey(i));
                i += 1;
                assert(ops@ =~= types_batch + tables_batch + Seq::new(
                    i as nat,
                    |j: int| SchemaOp::CreateForeignKey(j as usize),
                ));
            }
        }
        assert(ops@ =~= types_batch + tables_batch + fks_batch);
        let mut i: usize = 0;
        while i < self.catalog.indexes.len()
            invariant
                i <= self.catalog.indexes@.len(),
                ops@ == types_batch + tables_batch + fks_batch + Seq::new(
                    i as nat,
                    |j: int| SchemaOp::CreateIndex(j as usize),
                ),
            decreases self.catalog.indexes@.len() - i,
        {
            ops.push(SchemaOp::CreateIndex(i));
            i += 1;
            assert(ops@ =~= types_batch + tables_batch + fks_batch + Seq::new(
                i as nat,
                |j: int| SchemaOp::CreateIndex(j as usize),
            ));
        }
        assert(ops@ =~= up_plan_v(self.catalog, self.backend));
        ops
    }

    /// The ordered `Down` plan for this backend: the exact mirror of the
    /// `Up` plan, batches in opposite order and each batch internally
    /// reversed.
    pub fn down_ops(&self) -> (ops: Vec<SchemaOp>)
        ensures
            ops@ == down_plan_v(self.catalog, self.backend),
    {
        let mut ops: Vec<SchemaOp> = Vec::new();
        let nf = self.catalog.fks.len();
        let ni = self.catalog.indexes.len();
        let nt = self.catalog.tables.len();
        let ny = self.catalog.types.len();
        let ghost fks_batch: Seq<SchemaOp> = if self.backend.spec_supports_foreign_keys() {
            Seq::new(nf as nat, |i: int| SchemaOp::DropForeignKey((nf - 1 - i) as usize))
        } else {
            Seq::empty()
        };
        if self.backend.supports_foreign_keys() {
            let mut i: usize = 0;
            while i < nf
                invariant
                    i <= nf,
                    ops@ == Seq::new(i as nat, |j: int| SchemaOp::DropForeignKey((nf - 1 - j) as usize)),
                decreases nf - i,
            {
                ops.push(SchemaOp::DropForeignKey(nf - 1 - i));
                i += 1;
                assert(ops@ =~= Seq::new(
                    i as nat,
                    |j: int| SchemaOp::DropForeignKey((nf - 1 - j) as usize),
                ));
            }
        }
        assert(ops@ =~= fks_batch);
        let mut i: usize = 0;
        while i < ni
            invariant
                i <= ni,
                ops@ == fks_batch + Seq::new(i as nat, |j: int| SchemaOp::DropIndex((ni - 1 - j) as usize)),
            decreases ni - i,
        {
            ops.push(SchemaOp::DropIndex(ni - 1 - i));
            i += 1;
            assert(ops@ =~= fks_batch + Seq::new(
                i as nat,
                |j: int| SchemaOp::DropIndex((ni - 1 - j) as usize),
            ));
        }
        let ghost indexes_batch = Seq::new(ni as nat, |j: int| SchemaOp::DropIndex((ni - 1 - j) as usize));
        let mut i: usize = 0;
        while i < nt
            invariant
                i <= nt,
                ops@ == fks_batch + indexes_batch + Seq::new(
                    i as nat,
                    |j: int| SchemaOp::DropTable((nt - 1 - j) as usize),
                ),
            decreases nt - i,
        {
            ops.push(SchemaOp::DropTable(nt - 1 - i));
            i += 1;
            assert(ops@ =~= fks_batch + indexes_batch + Seq::new(
                i as nat,
                |j: int| SchemaOp::DropTable((nt - 1 - j) as usize),
            ));
        }
        let ghost tables_batch = Seq::new(nt as nat, |j: int| SchemaOp::DropTable((nt - 1 - j) as usize));
        let ghost types_batch: Seq<SchemaOp> = if self.backend.spec_supports_enum_types() {
            Seq::new(ny as nat, |i: int| SchemaOp::DropType((ny - 1 - i) as usize))
        } else {
            Seq::empty()
        };
        if self.backend.supports_enum_types() {
            let mut i: usize = 0;
            while i < ny
                invariant
                    i <= ny,
                    ops@ == fks_batch + indexes_batch + tables_batch + Seq::new(
                        i as nat,
                        |j: int| SchemaOp::DropType((ny - 1 - j) as usize),
                    ),
                decreases ny - i,
            {
                ops.push(SchemaOp::DropType(ny - 1 - i));
                i += 1;
                assert(ops@ =~= fks_batch + indexes_batch + tables_batch + Seq::new(
                    i as nat,
                    |j: int| SchemaOp::DropType((ny - 1 - j) as usize),
                ));
            }
        }
        assert(ops@ =~= fks_batch + indexes_batch + tables_batch + types_batch);
        assert(ops@ =~= down_plan_v(self.catalog, self.backend));
        ops
    }

    /// Applies one operation: checks its prerequisites against the current
    /// state, updates the state on success, and reports the stage and the
    /// object name on failure, leaving the state unchanged.
    pub fn apply_op(&self, state: &mut SchemaState, op: SchemaOp) -> (r: Result<(), MigrationError>)
        requires
            self.wf(),
            state_matches(old(state)@, self.catalog),
        ensures
            state_matches(final(state)@, self.catalog),
            match r {
                Ok(()) => op_enabled(self.catalog, self.backend, old(state)@, op)
                    && final(state)@ == apply_op_v(old(state)@, op),
                Err(e) => !op_enabled(self.catalog, self.backend, old(state)@, op)
                    && final(state)@ == old(state)@
                    && e.stage == op_stage(op)
                    && e.object@ == op_object_name(self.catalog, op),
            },
    {
        match op {
            SchemaOp::CreateType(i) => {
                if i < state.types.len() && !state.types[i] {
                    state.types.set(i, true);
                    assert(state@ =~= apply_op_v(old(state)@, op));
                    Ok(())
                } else {
                    Err(self.op_error(op))
                }
            },
            SchemaOp::CreateTable(i) => {
                if i < state.tables.len() {
                    let needs_types = self.backend.supports_enum_types();
                    if needs_types && !table_types_present_exec(
                        &self.catalog.tables[i],
                        &state.types,
                        self.catalog.types.len(),
                    ) {
                        return Err(self.op_error(op));
                    }
                    state.tables.set(i, true);
                    assert(state@ =~= apply_op_v(old(state)@, op));
                    Ok(())
                } else {
                    Err(self.op_error(op))
                }
            },
            SchemaOp::CreateForeignKey(i) => {
                if i < state.fks.len() {
                    assert(fk_wf(self.catalog.fks@[i as int], self.catalog.tables@));
                    let child = self.catalog.fks[i].child_table;
                    let parent = self.catalog.fks[i].parent_table;
                    if !state.fks[i] && state.tables[child] && state.tables[parent] {
                        state.fks.set(i, true);
                        assert(state@ =~= apply_op_v(old(state)@, op));
                        Ok(())
                    } else {
                        Err(self.op_error(op))
                    }
                } else {
                    Err(self.op_error(op))
                }
            },
            SchemaOp::CreateIndex(i) => {
                if i < state.indexes.len() {
                    assert(index_wf(self.catalog.indexes@[i as int], self.catalog.tables@));
                    let table = self.catalog.indexes[i].table;
                    if !state.indexes[i] && state.tables[table] {
                        state.indexes.set(i, true);
                        assert(state@ =~= apply_op_v(old(state)@, op));
                        Ok(())
                    } else {
                        Err(self.op_error(op))
                    }
                } else {
                    Err(self.op_error(op))
                }
            },
            SchemaOp::DropForeignKey(i) => {
                if i < state.fks.len() && state.fks[i] {
                    state.fks.set(i, false);
                    assert(state@ =~= apply_op_v(old(state)@, op));
                    Ok(())
                } else {
                    Err(self.op_error(op))
                }
            },
            SchemaOp::DropIndex(i) => {
                if i < state.indexes.len() && state.indexes[i] {
                    state.indexes.set(i, false);
                    assert(state@ =~= apply_op_v(old(state)@, op));
                    Ok(())
                } else {
                    Err(self.op_error(op))
                }
            },
            SchemaOp::DropTable(i) => {
                if !(i < state.tables.len() && state.tables[i]) {
                    return Err(self.op_error(op));
                }
                let mut j: usize = 0;
                while j < state.fks.len()
                    invariant
                        self.wf(),
                        state_matches(state@, self.catalog),
                        state@ == old(state)@,
                        op == SchemaOp::DropTable(i),
                        i < state.tables@.len(),
                        state.tables@[i as int],
                        j <= state.fks@.len(),
                        forall|k: int| 0 <= k < j && #[trigger] state.fks@[k]
                            ==> self.catalog.fks@[k].child_table != i
                                && self.catalog.fks@[k].parent_table != i,
                    decreases state.fks@.len() - j,
                {
                    if state.fks[j] {
                        let f = &self.catalog.fks[j];
                        if f.child_table == i || f.parent_table == i {
                            proof {
                                let s = old(state)@;
                                assert(0 <= j < s.fks.len() && s.fks[j as int] && !(
                                self.catalog.fks@[j as int].child_table != i
                                    && self.catalog.fks@[j as int].parent_table != i));
                                assert(!op_enabled(self.catalog, self.backend, s, op));
                            }
                            return Err(self.op_error(op));
                        }
                    }
                    j += 1;
                }
                let mut j: usize = 0;
                while j < state.indexes.len()
                    invariant
                        self.wf(),
                        state_matches(state@, self.catalog),
                        state@ == old(state)@,
                        op == SchemaOp::DropTable(i),
                        i < state.tables@.len(),
                        state.tables@[i as int],
                        j <= state.indexes@.len(),
                        forall|k: int| 0 <= k < state.fks@.len() && #[trigger] state.fks@[k]
                            ==> self.catalog.fks@[k].child_table != i
                                && self.catalog.fks@[k].parent_table != i,
                        forall|k: int| 0 <= k < j && #[trigger] state.indexes@[k]
                            ==> self.catalog.indexes@[k].table != i,
                    decreases state.indexes@.len() - j,
                {
                    if state.indexes[j] {
                        if self.catalog.indexes[j].table == i {
                            proof {
                                let s = old(state)@;
                                assert(0 <= j < s.indexes.len() && s.indexes[j as int]
                                    && self.catalog.indexes@[j as int].table == i);
                                assert(!op_enabled(self.catalog, self.backend, s, op));
                            }
                            return Err(self.op_error(op));
                        }
                    }
                    j += 1;
                }
                state.tables.set(i, false);
                assert(state@ =~= apply_op_v(old(state)@, op));
                Ok(())
            },
            SchemaOp::DropType(i) => {
                if !(i < state.types.len() && state.types[i]) {
                    return Err(self.op_error(op));
                }
                let mut j: usize = 0;
                while j < state.tables.len()
                    invariant
                        self.wf(),
                        state_matches(state@, self.catalog),
                        state@ == old(state)@,
                        op == SchemaOp::DropType(i),
                        i < state.types@.len(),
                        state.types@[i as int],
                        j <= state.tables@.len(),
                        forall|k: int| 0 <= k < j && #[trigger] state.tables@[k]
                            ==> !table_uses_type(self.catalog.tables@[k], i as int),
                    decreases state.tables@.len() - j,
                {
                    if state.tables[j] {
                        if table_uses_type_exec(&self.catalog.tables[j], i) {
                            proof {
                                let s = old(state)@;
                                assert(0 <= j < s.tables.len() && s.tables[j as int]
                                    && table_uses_type(self.catalog.tables@[j as int], i as int));
                                assert(!op_enabled(self.catalog, self.backend, s, op));
                            }
                            return Err(self.op_error(op));
                        }
                    }
                    j += 1;
                }
                state.types.set(i, false);
                assert(state@ =~= apply_op_v(old(state)@, op));
                Ok(())
            },
        }
    }

    /// The failure report for an operation: its stage and its object's
    /// name.
    fn op_error(&self, op: SchemaOp) -> (e: MigrationError)
        ensures
            e.stage == op_stage(op),
            e.object@ == op_object_name(self.catalog, op),
    {
        let stage = match op {
            SchemaOp::CreateType(_) | SchemaOp::DropType(_) => MigrationStage::Types,
            SchemaOp::CreateTable(_) | SchemaOp::DropTable(_) => MigrationStage::Tables,
            SchemaOp::CreateForeignKey(_) | SchemaOp::DropForeignKey(_) => MigrationStage::ForeignKeys,
            SchemaOp::CreateIndex(_) | SchemaOp::DropIndex(_) => MigrationStage::Indexes,
        };
        let object = match op {
            SchemaOp::CreateType(i) | SchemaOp::DropType(i) => if i < self.catalog.types.len() {
                String::from_str(self.catalog.types[i].name)
            } else {
                String::new()
            },
            SchemaOp::CreateTable(i) | SchemaOp::DropTable(i) => if i < self.catalog.tables.len() {
                String::from_str(self.catalog.tables[i].name)
            } else {
                String::new()
            },
            SchemaOp::CreateForeignKey(i) | SchemaOp::DropForeignKey(i) => if i
                < self.catalog.fks.len() {
                String::from_str(self.catalog.fks[i].name)
            } else {
                String::new()
            },
            SchemaOp::CreateIndex(i) | SchemaOp::DropIndex(i) => if i < self.catalog.indexes.len() {
                String::from_str(self.catalog.indexes[i].name)
            } else {
                String::new()
            },
        };
        MigrationError { stage, object }
    }

    /// Applies a plan in order, stopping at the first operation whose
    /// prerequisites fail and reporting its stage and object; schema
    /// changes already applied stay applied, as on a backend without
    /// transactional DDL.
    pub fn run_ops(&self, state: &mut SchemaState, ops: &Vec<SchemaOp>) -> (r: Result<
        (),
        MigrationError,
    >)
        requires
            self.wf(),
            state_matches(old(state)@, self.catalog),
        ensures
            state_matches(final(state)@, self.catalog),
            match r {
                Ok(()) => run_ops_v(self.catalog, self.backend, old(state)@, ops@) == Some(
                    final(state)@,
                ),
                Err(e) => run_ops_v(self.catalog, self.backend, old(state)@, ops@) is None
                    && exists|k: int|
                        0 <= k < ops@.len() && e.stage == op_stage(ops@[k]) && e.object@
                            == op_object_name(self.catalog, ops@[k]),
            },
    {
        let ghost c = self.catalog;
        let ghost b = self.backend;
        let ghost s0 = old(state)@;
        let mut i: usize = 0;
        while i < ops.len()
            invariant
                self.wf(),
                state_matches(state@, self.catalog),
                i <= ops@.len(),
                c == self.catalog,
                b == self.backend,
                s0 == old(state)@,
                run_ops_v(c, b, s0, ops@.take(i as int)) == Some(state@),
            decreases ops@.len() - i,
        {
            let ghost s_before = state@;
            let r = self.apply_op(state, ops[i]);
            match r {
                Ok(()) => {
                    proof {
                        assert(ops@.take(i + 1) =~= ops@.take(i as int) + seq![ops@[i as int]]);
                        lemma_run_concat(c, b, s0, ops@.take(i as int), seq![ops@[i as int]]);
                        let op_i = ops@[i as int];
                        assert(seq![op_i].len() == 1);
                        assert(seq![op_i][0] == op_i);
                        assert(seq![op_i].skip(1) =~= Seq::<SchemaOp>::empty());
                        assert(op_enabled(c, b, s_before, op_i));
                        assert(apply_op_v(s_before, op_i) == state@);
                        assert(run_ops_v(c, b, state@, Seq::<SchemaOp>::empty()) == Some(state@));
                        assert(run_ops_v(c, b, s_before, seq![op_i]) == run_ops_v(
                            c,
                            b,
                            apply_op_v(s_before, op_i),
                            seq![op_i].skip(1),
                        ));
                        assert(run_ops_v(c, b, s_before, seq![op_i]) == Some(state@));
                    }
                    i += 1;
                },
                Err(e) => {
                    proof {
                        assert(ops@ =~= ops@.take(i as int) + ops@.skip(i as int));
                        lemma_run_concat(c, b, s0, ops@.take(i as int), ops@.skip(i as int));
                        assert(ops@.skip(i as int)[0] == ops@[i as int]);
                        assert(run_ops_v(c, b, s_before, ops@.skip(i as int)) is None);
                        assert(0 <= i < ops@.len() && e.stage == op_stage(ops@[i as int])
                            && e.object@ == op_object_name(c, ops@[i as int]));
                    }
                    return Err(e);
                },
            }
        }
        proof {
            assert(ops@.take(ops@.len() as int) =~= ops@);
        }
        Ok(())
    }

    /// Runs `Up`: creates enumerated types (where the backend has them),
    /// tables, foreign keys (where the backend enforces them) and indexes,
    /// in dependency order. From the empty schema this always succeeds and
    /// produces the full schema for the backend.
    pub fn up(&self, state: &mut SchemaState) -> (r: Result<(), MigrationError>)
        requires
            self.wf(),
            old(state)@ == empty_state_v(self.catalog),
        ensures
            r is Ok,
            final(state)@ == full_state_v(self.catalog, self.backend),
    {
        let ops = self.up_ops();
        proof {
            lemma_up_plan(self.catalog, self.backend);
        }
        let r = self.run_ops(state, &ops);
        assert(r is Ok);
        r
    }

    /// Runs `Down`: drops foreign keys, indexes, tables and enumerated
    /// types, the exact mirror of `Up`. From the full schema this always
    /// succeeds and returns to the empty schema.
    pub fn down(&self, state: &mut SchemaState) -> (r: Result<(), MigrationError>)
        requires
            self.wf(),
            old(state)@ == full_state_v(self.catalog, self.backend),
        ensures
            r is Ok,
            final(state)@ == empty_state_v(self.catalog),
    {
        let ops = self.down_ops();
        proof {
            lemma_down_plan(self.catalog, self.backend);
        }
        let r = self.run_ops(state, &ops);
        assert(r is Ok);
        r
    }
}

} // verus!
