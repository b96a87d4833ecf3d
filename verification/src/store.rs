//! A model of the data each backend stores under the declared schema: one
//! row store per table, enforcing exactly what the schema promises —
//! primary-key uniqueness (composite keys included), unique columns,
//! foreign-key consistency where the backend enforces it, cascading
//! deletes, and replace-on-conflict upserts for current-best slots.
//!
//! On backends without enforced foreign keys the store accepts dangling
//! references, exactly as the real backend would: cascade behaviour must
//! then be emulated by the application layer.

use vstd::prelude::*;
use vstd::pervasive::VecAdditionalExecFns;

use crate::backend::DbBackend;
use crate::schema::{DefaultRule, 
    ForeignKeyDef, TableDef, Val, Value, default_cell, fk_wf, pk_of, pk_wf, pk_project, row_eq,
    value_eq,
};

verus! {

/// Why an insert, upsert or delete was rejected. Constraint violations are
/// surfaced to the caller and never retried: they signal a caller-side
/// data error.
#[derive(Clone, Copy, PartialEq, Eq, Structural, Debug)]
pub enum DataError {
    /// No table stands at the given catalog position.
    NoSuchTable,
    /// The row has a different number of cells than the table has columns.
    WrongArity,
    /// A row with the same primary-key values already exists.
    DuplicateKey,
    /// A non-null value collides with an existing row in a unique column.
    DuplicateUnique,
    /// A foreign-key cell references no parent row (enforcing backends
    /// only).
    MissingParent,
    /// A required column without a default was given no value at row
    /// creation.
    MissingValue,
    /// An upsert would change a referenced column of an existing parent
    /// row in place (enforcing backends only).
    ParentKeyChange,
    /// No row with the given primary-key values exists.
    NotFound,
}

/// The data held under a schema: table and edge definitions, whether the
/// backend enforces foreign keys, and the rows of each table in insertion
/// order.
pub struct Database {
    pub tables: Vec<TableDef>,
    pub fks: Vec<ForeignKeyDef>,
    pub enforce_fk: bool,
    pub rows: Vec<Vec<Vec<Value>>>,
}

/// The rows of every table, as mathematical sequences of cell values.
pub open spec fn db_rows(db: Database) -> Seq<Seq<Seq<Val>>> {
    db.rows.deep_view()
}

/// Row-level well-formedness of one table: every row has one cell per
/// column, primary-key projections are pairwise distinct, and two rows
/// agree in a unique column only on null.
pub open spec fn table_rows_wf(t: TableDef, rows: Seq<Seq<Val>>) -> bool {
    &&& forall|r: int| 0 <= r < rows.len() ==> (#[trigger] rows[r]).len() == t.columns@.len()
    &&& forall|r1: int, r2: int|
        0 <= r1 < r2 < rows.len() ==> pk_of(t, rows[r1]) != pk_of(t, rows[r2])
    &&& forall|c: int, r1: int, r2: int|
        0 <= c < t.columns@.len() && t.columns@[c].unique && 0 <= r1 < r2 < rows.len() && (
        #[trigger] rows[r1][c]) == (#[trigger] rows[r2][c]) ==> rows[r1][c] is Null
}

/// Foreign-key consistency of one edge: every child cell is null or
/// matches the referenced column of some parent row.
pub open spec fn fk_holds(e: ForeignKeyDef, crows: Seq<Seq<Val>>, prows: Seq<Seq<Val>>) -> bool {
    forall|r: int|
        0 <= r < crows.len() ==> ((#[trigger] crows[r])[e.child_col as int] is Null || exists|
            p: int,
        |
            0 <= p < prows.len() && (#[trigger] prows[p])[e.parent_col as int]
                == crows[r][e.child_col as int])
}

/// The store's invariant: a well-formed schema, one row store per table,
/// well-formed rows everywhere, and — where the backend enforces foreign
/// keys — no dangling reference.
pub open spec fn db_inv(db: Database) -> bool {
    &&& db.rows@.len() == db.tables@.len()
    &&& forall|t: int| 0 <= t < db.tables@.len() ==> pk_wf(#[trigger] db.tables@[t])
    &&& forall|e: int| 0 <= e < db.fks@.len() ==> fk_wf(#[trigger] db.fks@[e], db.tables@)
    &&& forall|t: int|
        0 <= t < db.tables@.len() ==> table_rows_wf(#[trigger] db.tables@[t], db_rows(db)[t])
    &&& db.enforce_fk ==> forall|e: int|
        0 <= e < db.fks@.len() ==> fk_holds(
            #[trigger] db.fks@[e],
            db_rows(db)[db.fks@[e].child_table as int],
            db_rows(db)[db.fks@[e].parent_table as int],
        )
}

/// Whether some row of `rows` has the same primary-key projection as
/// `row`.
pub open spec fn dup_pk(t: TableDef, rows: Seq<Seq<Val>>, row: Seq<Val>) -> bool {
    exists|i: int| 0 <= i < rows.len() && pk_of(t, #[trigger] rows[i]) == pk_of(t, row)
}

/// Whether a non-null cell of `row` collides with some row of `rows` in a
/// unique column.
pub open spec fn dup_unique(t: TableDef, rows: Seq<Seq<Val>>, row: Seq<Val>) -> bool {
    exists|c: int, i: int|
        0 <= c < t.columns@.len() && t.columns@[c].unique && !(row[c] is Null) && 0 <= i
            < rows.len() && (#[trigger] rows[i][c]) == row[c]
}

/// Whether some parent row's referenced column holds `cell`.
pub open spec fn parent_present(db: Database, e: int, cell: Val) -> bool {
    exists|p: int|
        0 <= p < db_rows(db)[db.fks@[e].parent_table as int].len() && (#[trigger] db_rows(db)[db.fks@[e].parent_table as int][p])[db.fks@[e].parent_col as int] == cell
}

/// Whether some foreign-key cell of `row` (inserted into table `t`)
/// references no parent row.
pub open spec fn missing_parent(db: Database, t: int, row: Seq<Val>) -> bool {
    exists|e: int|
        0 <= e < db.fks@.len() && (#[trigger] db.fks@[e]).child_table == t && !(row[db.fks@[e].child_col as int] is Null)
            && !parent_present(db, e, row[db.fks@[e].child_col as int])
}

/// The outcome of checking an insert, in the order the checks run: table,
/// arity, primary key, unique columns, then — on enforcing backends only —
/// foreign keys. `None` means the insert is accepted.
pub open spec fn insert_check(db: Database, t: int, row: Seq<Val>) -> Option<DataError> {
    if !(0 <= t < db.tables@.len()) {
        Some(DataError::NoSuchTable)
    } else if row.len() != db.tables@[t].columns@.len() {
        Some(DataError::WrongArity)
    } else if dup_pk(db.tables@[t], db_rows(db)[t], row) {
        Some(DataError::DuplicateKey)
    } else if dup_unique(db.tables@[t], db_rows(db)[t], row) {
        Some(DataError::DuplicateUnique)
    } else if db.enforce_fk && missing_parent(db, t, row) {
        Some(DataError::MissingParent)
    } else {
        None
    }
}

/// Whether row `r` of table `t` is removed by deleting the row of table
/// `t0` keyed by `key`, given in `prev` the rows already removed from each
/// earlier table: the row is the keyed row itself, or one of its
/// foreign-key cells references a removed parent row. Parents stand
/// earlier in the declared order, so a single forward pass over the
/// tables resolves the whole cascade.
pub open spec fn is_doomed(
    db: Database,
    t0: int,
    key: Seq<Val>,
    t: int,
    prev: Seq<Seq<Seq<Val>>>,
    r: Seq<Val>,
) -> bool {
    ||| (t == t0 && pk_of(db.tables@[t], r) == key)
    ||| exists|e: int, q: int|
        0 <= e < db.fks@.len() && (db.fks@[e].child_table as int) == t && 0 <= (
        db.fks@[e].parent_table as int) < prev.len() && !(r[db.fks@[e].child_col as int] is Null)
            && 0 <= q < prev[db.fks@[e].parent_table as int].len() && (#[trigger] prev[db.fks@[e].parent_table as int][q])[db.fks@[e].parent_col as int]
            == r[db.fks@[e].child_col as int]
}

/// The rows of `rows` that survive, in order, given the removed rows of
/// every earlier table.
pub open spec fn keep_rows(
    db: Database,
    t0: int,
    key: Seq<Val>,
    t: int,
    prev: Seq<Seq<Seq<Val>>>,
    rows: Seq<Seq<Val>>,
) -> Seq<Seq<Val>>
    decreases rows.len(),
{
    if rows.len() == 0 {
        Seq::empty()
    } else {
        let prefix = keep_rows(db, t0, key, t, prev, rows.drop_last());
        if is_doomed(db, t0, key, t, prev, rows.last()) {
            prefix
        } else {
            prefix.push(rows.last())
        }
    }
}

/// The rows of `rows` that are removed, in order, given the removed rows
/// of every earlier table.
pub open spec fn cut_rows(
    db: Database,
    t0: int,
    key: Seq<Val>,
    t: int,
    prev: Seq<Seq<Seq<Val>>>,
    rows: Seq<Seq<Val>>,
) -> Seq<Seq<Val>>
    decreases rows.len(),
{
    if rows.len() == 0 {
        Seq::empty()
    } else {
        let prefix = cut_rows(db, t0, key, t, prev, rows.drop_last());
        if is_doomed(db, t0, key, t, prev, rows.last()) {
            prefix.push(rows.last())
        } else {
            prefix
        }
    }
}

/// The removed rows of tables `0 .. t`, computed in declared order: each
/// table's removals depend only on the removals of the tables before it.
pub open spec fn culled_upto(db: Database, t0: int, key: Seq<Val>, t: int) -> Seq<Seq<Seq<Val>>>
    decreases t,
{
    if t <= 0 {
        Seq::empty()
    } else {
        let prev = culled_upto(db, t0, key, t - 1);
        prev.push(cut_rows(db, t0, key, t - 1, prev, db_rows(db)[t - 1]))
    }
}

/// Whether deleting the row of table `t0` keyed by `key` removes row `r`
/// of table `t`.
pub open spec fn condemned(db: Database, t0: int, key: Seq<Val>, t: int, r: Seq<Val>) -> bool {
    is_doomed(db, t0, key, t, culled_upto(db, t0, key, t), r)
}

/// The rows of table `t` that survive the delete, in their original
/// order.
pub open spec fn retained(
    db: Database,
    t0: int,
    key: Seq<Val>,
    t: int,
    rows: Seq<Seq<Val>>,
) -> Seq<Seq<Val>> {
    keep_rows(db, t0, key, t, culled_upto(db, t0, key, t), rows)
}

/// The rows of table `t` that the delete removes, in their original
/// order.
pub open spec fn culled(
    db: Database,
    t0: int,
    key: Seq<Val>,
    t: int,
    rows: Seq<Seq<Val>>,
) -> Seq<Seq<Val>> {
    cut_rows(db, t0, key, t, culled_upto(db, t0, key, t), rows)
}

/// A split is exact: the kept rows are the rows that are not doomed and
/// the cut rows are the rows that are, each side keeping its order, with
/// nothing added and nothing lost.
proof fn lemma_split(
    db: Database,
    t0: int,
    key: Seq<Val>,
    t: int,
    prev: Seq<Seq<Seq<Val>>>,
    rows: Seq<Seq<Val>>,
)
    ensures
        keep_rows(db, t0, key, t, prev, rows).len() + cut_rows(db, t0, key, t, prev, rows).len()
            == rows.len(),
        forall|k: int|
            0 <= k < keep_rows(db, t0, key, t, prev, rows).len() ==> rows.contains(
                #[trigger] keep_rows(db, t0, key, t, prev, rows)[k],
            ) && !is_doomed(db, t0, key, t, prev, keep_rows(db, t0, key, t, prev, rows)[k]),
        forall|k: int|
            0 <= k < cut_rows(db, t0, key, t, prev, rows).len() ==> rows.contains(
                #[trigger] cut_rows(db, t0, key, t, prev, rows)[k],
            ) && is_doomed(db, t0, key, t, prev, cut_rows(db, t0, key, t, prev, rows)[k]),
        forall|j: int|
            0 <= j < rows.len() && !is_doomed(db, t0, key, t, prev, #[trigger] rows[j])
                ==> keep_rows(db, t0, key, t, prev, rows).contains(rows[j]),
        forall|j: int|
            0 <= j < rows.len() && is_doomed(db, t0, key, t, prev, #[trigger] rows[j]) ==> cut_rows(
                db,
                t0,
                key,
                t,
                prev,
                rows,
            ).contains(rows[j]),
    decreases rows.len(),
{
    let ret = keep_rows(db, t0, key, t, prev, rows);
    let cul = cut_rows(db, t0, key, t, prev, rows);
    if rows.len() > 0 {
        let prevr = rows.drop_last();
        lemma_split(db, t0, key, t, prev, prevr);
        let pret = keep_rows(db, t0, key, t, prev, prevr);
        let pcul = cut_rows(db, t0, key, t, prev, prevr);
        assert forall|k: int| 0 <= k < ret.len() implies rows.contains(#[trigger] ret[k])
            && !is_doomed(db, t0, key, t, prev, ret[k]) by {
            if k < pret.len() {
                assert(ret[k] == pret[k]);
                let j = choose|j: int| 0 <= j < prevr.len() && prevr[j] == pret[k];
                assert(rows[j] == pret[k]);
            } else {
                assert(ret[k] == rows.last());
                assert(rows[rows.len() - 1] == rows.last());
            }
        }
        assert forall|k: int| 0 <= k < cul.len() implies rows.contains(#[trigger] cul[k])
            && is_doomed(db, t0, key, t, prev, cul[k]) by {
            if k < pcul.len() {
                assert(cul[k] == pcul[k]);
                let j = choose|j: int| 0 <= j < prevr.len() && prevr[j] == pcul[k];
                assert(rows[j] == pcul[k]);
            } else {
                assert(cul[k] == rows.last());
                assert(rows[rows.len() - 1] == rows.last());
            }
        }
        assert forall|j: int|
            0 <= j < rows.len() && !is_doomed(db, t0, key, t, prev, #[trigger] rows[j]) implies ret.contains(
            rows[j],
        ) by {
            if j < rows.len() - 1 {
                assert(prevr[j] == rows[j]);
                assert(pret.contains(rows[j]));
                let k = choose|k: int| 0 <= k < pret.len() && pret[k] == rows[j];
                assert(ret[k] == rows[j]);
            } else {
                assert(rows[j] == rows.last());
                assert(ret[ret.len() - 1] == rows.last());
            }
        }
        assert forall|j: int|
            0 <= j < rows.len() && is_doomed(db, t0, key, t, prev, #[trigger] rows[j]) implies cul.contains(
            rows[j],
        ) by {
            if j < rows.len() - 1 {
                assert(prevr[j] == rows[j]);
                assert(pcul.contains(rows[j]));
                let k = choose|k: int| 0 <= k < pcul.len() && pcul[k] == rows[j];
                assert(cul[k] == rows[j]);
            } else {
                assert(rows[j] == rows.last());
                assert(cul[cul.len() - 1] == rows.last());
            }
        }
    }
}

/// A delete splits each table exactly: the surviving rows are the rows
/// that are not condemned and the removed rows are the rows that are,
/// each side keeping its order, with nothing added and nothing lost.
pub proof fn lemma_retained_culled(
    db: Database,
    t0: int,
    key: Seq<Val>,
    t: int,
    rows: Seq<Seq<Val>>,
)
    ensures
        retained(db, t0, key, t, rows).len() + culled(db, t0, key, t, rows).len() == rows.len(),
        forall|k: int|
            0 <= k < retained(db, t0, key, t, rows).len() ==> rows.contains(
                #[trigger] retained(db, t0, key, t, rows)[k],
            ) && !condemned(db, t0, key, t, retained(db, t0, key, t, rows)[k]),
        forall|k: int|
            0 <= k < culled(db, t0, key, t, rows).len() ==> rows.contains(
                #[trigger] culled(db, t0, key, t, rows)[k],
            ) && condemned(db, t0, key, t, culled(db, t0, key, t, rows)[k]),
        forall|j: int|
            0 <= j < rows.len() && !condemned(db, t0, key, t, #[trigger] rows[j]) ==> retained(
                db,
                t0,
                key,
                t,
                rows,
            ).contains(rows[j]),
        forall|j: int|
            0 <= j < rows.len() && condemned(db, t0, key, t, #[trigger] rows[j]) ==> culled(
                db,
                t0,
                key,
                t,
                rows,
            ).contains(rows[j]),
{
    lemma_split(db, t0, key, t, culled_upto(db, t0, key, t), rows);
}

/// The kept rows of a table preserve its row-level well-formedness.
proof fn lemma_keep_wf(
    db: Database,
    t0: int,
    key: Seq<Val>,
    t: int,
    prev: Seq<Seq<Seq<Val>>>,
    td: TableDef,
    rows: Seq<Seq<Val>>,
)
    requires
        table_rows_wf(td, rows),
    ensures
        table_rows_wf(td, keep_rows(db, t0, key, t, prev, rows)),
    decreases rows.len(),
{
    let ret = keep_rows(db, t0, key, t, prev, rows);
    if rows.len() > 0 {
        let prevr = rows.drop_last();
        assert forall|r: int| 0 <= r < prevr.len() implies (#[trigger] prevr[r]) == rows[r] by {}
        assert(table_rows_wf(td, prevr));
        lemma_keep_wf(db, t0, key, t, prev, td, prevr);
        let pret = keep_rows(db, t0, key, t, prev, prevr);
        lemma_split(db, t0, key, t, prev, prevr);
        if !is_doomed(db, t0, key, t, prev, rows.last()) {
            assert(ret == pret.push(rows.last()));
            assert forall|r: int| 0 <= r < ret.len() implies (#[trigger] ret[r]).len()
                == td.columns@.len() by {
                if r < pret.len() {
                    assert(ret[r] == pret[r]);
                } else {
                    assert(ret[r] == rows.last());
                    assert(rows.last() == rows[rows.len() - 1]);
                }
            }
            assert forall|r1: int, r2: int| 0 <= r1 < r2 < ret.len() implies pk_of(td, ret[r1])
                != pk_of(td, ret[r2]) by {
                if r2 == ret.len() - 1 {
                    assert(ret[r1] == pret[r1]);
                    assert(prevr.contains(pret[r1]));
                    let j = choose|j: int| 0 <= j < prevr.len() && prevr[j] == pret[r1];
                    assert(rows[j] == pret[r1]);
                    assert(ret[r2] == rows[rows.len() - 1]);
                    assert(pk_of(td, rows[j]) != pk_of(td, rows[rows.len() - 1]));
                }
            }
            assert forall|c: int, r1: int, r2: int|
                0 <= c < td.columns@.len() && td.columns@[c].unique && 0 <= r1 < r2 < ret.len()
                    && (#[trigger] ret[r1][c]) == (#[trigger] ret[r2][c]) implies ret[r1][c] is Null by {
                if r2 == ret.len() - 1 {
                    assert(ret[r1] == pret[r1]);
                    assert(prevr.contains(pret[r1]));
                    let j = choose|j: int| 0 <= j < prevr.len() && prevr[j] == pret[r1];
                    assert(rows[j] == pret[r1]);
                    assert(ret[r2] == rows[rows.len() - 1]);
                    if j < rows.len() - 1 {
                        assert(rows[j][c] == ret[r1][c] && rows[rows.len() - 1][c] == ret[r2][c]);
                    } else {
                        assert(rows[j] == ret[r2]);
                    }
                }
            }
        } else {
            assert(ret == pret);
        }
    }
}

/// The removals computed for the tables before `t` agree with each
/// table's own removal list.
pub proof fn lemma_culled_upto_at(db: Database, t0: int, key: Seq<Val>, t: int)
    requires
        t >= 0,
    ensures
        culled_upto(db, t0, key, t).len() == t,
        forall|p: int|
            0 <= p < t ==> #[trigger] culled_upto(db, t0, key, t)[p] == culled(
                db,
                t0,
                key,
                p,
                db_rows(db)[p],
            ),
    decreases t,
{
    if t > 0 {
        lemma_culled_upto_at(db, t0, key, t - 1);
        let prev = culled_upto(db, t0, key, t - 1);
        assert forall|p: int| 0 <= p < t implies #[trigger] culled_upto(db, t0, key, t)[p]
            == culled(db, t0, key, p, db_rows(db)[p]) by {
            if p < t - 1 {
                assert(culled_upto(db, t0, key, t)[p] == prev[p]);
            } else {
                assert(culled_upto(db, t0, key, t)[p] == cut_rows(
                    db,
                    t0,
                    key,
                    t - 1,
                    prev,
                    db_rows(db)[t - 1],
                ));
            }
        }
    }
}

/// Cascading preserves foreign-key consistency: after a delete, every
/// surviving child row still references a surviving parent row.
proof fn lemma_retained_fk_holds(db: Database, t0: int, key: Seq<Val>, e: int)
    requires
        db_inv(db),
        db.enforce_fk,
        0 <= e < db.fks@.len(),
    ensures
        fk_holds(
            db.fks@[e],
            retained(
                db,
                t0,
                key,
                db.fks@[e].child_table as int,
                db_rows(db)[db.fks@[e].child_table as int],
            ),
            retained(
                db,
                t0,
                key,
                db.fks@[e].parent_table as int,
                db_rows(db)[db.fks@[e].parent_table as int],
            ),
        ),
{
    let f = db.fks@[e];
    assert(fk_wf(f, db.tables@));
    let ct = f.child_table as int;
    let pt = f.parent_table as int;
    let ocr = db_rows(db)[ct];
    let opr = db_rows(db)[pt];
    assert(fk_holds(f, ocr, opr));
    let ncr = retained(db, t0, key, ct, ocr);
    let npr = retained(db, t0, key, pt, opr);
    lemma_retained_culled(db, t0, key, ct, ocr);
    lemma_retained_culled(db, t0, key, pt, opr);
    lemma_culled_upto_at(db, t0, key, ct);
    assert forall|r: int| 0 <= r < ncr.len() implies ((#[trigger] ncr[r])[f.child_col as int] is Null
        || exists|p: int|
            0 <= p < npr.len() && (#[trigger] npr[p])[f.parent_col as int]
                == ncr[r][f.child_col as int]) by {
        let row = ncr[r];
        assert(ocr.contains(row) && !condemned(db, t0, key, ct, row));
        let j = choose|j: int| 0 <= j < ocr.len() && ocr[j] == row;
        if !(row[f.child_col as int] is Null) {
            assert(ocr[j][f.child_col as int] == row[f.child_col as int]);
            assert(!((#[trigger] ocr[j])[f.child_col as int] is Null));
            let p0 = choose|p: int|
                0 <= p < opr.len() && (#[trigger] opr[p])[f.parent_col as int]
                    == ocr[j][f.child_col as int];
            if condemned(db, t0, key, pt, opr[p0]) {
                let pc = culled(db, t0, key, pt, opr);
                assert(pc.contains(opr[p0]));
                let q = choose|q: int| 0 <= q < pc.len() && pc[q] == opr[p0];
                assert(culled_upto(db, t0, key, ct)[pt] == pc);
                assert(culled_upto(db, t0, key, ct)[pt][q][f.parent_col as int]
                    == row[f.child_col as int]);
                assert(is_doomed(db, t0, key, ct, culled_upto(db, t0, key, ct), row));
                assert(condemned(db, t0, key, ct, row));
            }
            assert(!condemned(db, t0, key, pt, opr[p0]));
            assert(npr.contains(opr[p0]));
            let q = choose|q: int| 0 <= q < npr.len() && npr[q] == opr[p0];
            assert(npr[q][f.parent_col as int] == row[f.child_col as int]);
        }
    }
}

/// For all cascade-configured relationships, deleting a parent row removes
/// every dependent child row: after the cascade triggered by deleting the
/// row of table `t0` keyed by `key`, no surviving row of the edge's child
/// table references (through a non-null cell) any removed row of the
/// edge's parent table.
pub proof fn lemma_cascade_removes_dependents(db: Database, t0: int, key: Seq<Val>, e: int)
    requires
        db_inv(db),
        0 <= e < db.fks@.len(),
    ensures
        ({
            let f = db.fks@[e];
            let newc = retained(
                db,
                t0,
                key,
                f.child_table as int,
                db_rows(db)[f.child_table as int],
            );
            let oldp = db_rows(db)[f.parent_table as int];
            forall|k: int, p: int|
                0 <= k < newc.len() && 0 <= p < oldp.len() && condemned(
                    db,
                    t0,
                    key,
                    f.parent_table as int,
                    #[trigger] oldp[p],
                ) && !((#[trigger] newc[k])[f.child_col as int] is Null) ==> newc[k][f.child_col as int]
                    != oldp[p][f.parent_col as int]
        }),
{
    let f = db.fks@[e];
    assert(fk_wf(f, db.tables@));
    let ct = f.child_table as int;
    let pt = f.parent_table as int;
    let ocr = db_rows(db)[ct];
    let oldp = db_rows(db)[pt];
    let newc = retained(db, t0, key, ct, ocr);
    lemma_retained_culled(db, t0, key, ct, ocr);
    lemma_retained_culled(db, t0, key, pt, oldp);
    lemma_culled_upto_at(db, t0, key, ct);
    assert forall|k: int, p: int|
        0 <= k < newc.len() && 0 <= p < oldp.len() && condemned(
            db,
            t0,
            key,
            pt,
            #[trigger] oldp[p],
        ) && !((#[trigger] newc[k])[f.child_col as int] is Null) implies newc[k][f.child_col as int]
        != oldp[p][f.parent_col as int] by {
        let row = newc[k];
        assert(ocr.contains(row) && !condemned(db, t0, key, ct, row));
        if row[f.child_col as int] == oldp[p][f.parent_col as int] {
            let pc = culled(db, t0, key, pt, oldp);
            assert(pc.contains(oldp[p]));
            let q = choose|q: int| 0 <= q < pc.len() && pc[q] == oldp[p];
            assert(culled_upto(db, t0, key, ct)[pt] == pc);
            assert(culled_upto(db, t0, key, ct)[pt][q][f.parent_col as int]
                == row[f.child_col as int]);
            assert(is_doomed(db, t0, key, ct, culled_upto(db, t0, key, ct), row));
            assert(condemned(db, t0, key, ct, row));
        }
    }
}

/// Whether table `t` holds a row whose primary-key projection is `key`.
pub open spec fn key_present(db: Database, t: int, key: Seq<Val>) -> bool {
    exists|i: int|
        0 <= i < db_rows(db)[t].len() && pk_of(db.tables@[t], #[trigger] db_rows(db)[t][i]) == key
}

/// The outcome of checking a delete: the table must exist and hold a row
/// with the given primary key.
pub open spec fn delete_check(db: Database, t: int, key: Seq<Val>) -> Option<DataError> {
    if !(0 <= t < db.tables@.len()) {
        Some(DataError::NoSuchTable)
    } else if !key_present(db, t, key) {
        Some(DataError::NotFound)
    } else {
        None
    }
}

/// Whether deleting the row of table `t0` keyed by `key` condemns `row`
/// as a row of table `t2`, given the removed rows of every earlier table.
fn row_condemned_exec(
    fks: &Vec<ForeignKeyDef>,
    tables: &Vec<TableDef>,
    removed: &Vec<Vec<Vec<Value>>>,
    t0: usize,
    key: &Vec<Value>,
    t2: usize,
    row: &Vec<Value>,
    Ghost(old_db): Ghost<Database>,
) -> (r: bool)
    requires
        db_inv(old_db),
        fks == old_db.fks,
        tables == old_db.tables,
        t0 < old_db.tables@.len(),
        t2 < old_db.tables@.len(),
        row.deep_view().len() == old_db.tables@[t2 as int].columns@.len(),
        removed@.len() == t2,
        removed.deep_view() == culled_upto(old_db, t0 as int, key.deep_view(), t2 as int),
    ensures
        r == condemned(old_db, t0 as int, key.deep_view(), t2 as int, row.deep_view()),
{
    let ghost keyv = key.deep_view();
    let ghost rowv = row.deep_view();
    let ghost prev = culled_upto(old_db, t0 as int, keyv, t2 as int);
    proof {
        lemma_culled_upto_at(old_db, t0 as int, keyv, t2 as int);
    }
    if t2 == t0 {
        assert(pk_wf(old_db.tables@[t2 as int]));
        let k = pk_project(&tables[t2], row);
        if row_eq(&k, key) {
            return true;
        }
    }
    let mut e: usize = 0;
    while e < fks.len()
        invariant
            db_inv(old_db),
            fks == old_db.fks,
            tables == old_db.tables,
            t0 < old_db.tables@.len(),
            t2 < old_db.tables@.len(),
            keyv == key.deep_view(),
            rowv == row.deep_view(),
            rowv.len() == old_db.tables@[t2 as int].columns@.len(),
            removed@.len() == t2,
            prev == culled_upto(old_db, t0 as int, keyv, t2 as int),
            prev.len() == t2,
            removed.deep_view() == prev,
            !(t2 == t0 && pk_of(old_db.tables@[t2 as int], rowv) == keyv),
            e <= fks@.len(),
            forall|e2: int, q: int|
                0 <= e2 < e && (old_db.fks@[e2].child_table as int) == t2 && 0 <= (
                old_db.fks@[e2].parent_table as int) < prev.len() && !(
                rowv[old_db.fks@[e2].child_col as int] is Null) && 0 <= q
                    < prev[old_db.fks@[e2].parent_table as int].len() ==> (#[trigger] prev[old_db.fks@[e2].parent_table as int][q])[old_db.fks@[e2].parent_col as int]
                    != rowv[old_db.fks@[e2].child_col as int],
        decreases fks@.len() - e,
    {
        let f = &fks[e];
        if f.child_table == t2 {
            assert(fk_wf(old_db.fks@[e as int], old_db.tables@));
            if !matches!(row[f.child_col], Value::Null) {
                assert(row@[f.child_col as int]@ == rowv[f.child_col as int]);
                let ghost pt = f.parent_table as int;
                let ghost pc = culled(old_db, t0 as int, keyv, pt, db_rows(old_db)[pt]);
                proof {
                    lemma_retained_culled(old_db, t0 as int, keyv, pt, db_rows(old_db)[pt]);
                    lemma_culled_upto_at(old_db, t0 as int, keyv, t2 as int);
                    assert(prev[pt] == pc);
                }
                let rp = &removed[f.parent_table];
                assert(rp.deep_view() =~= removed.deep_view()[pt]);
                assert(rp.deep_view() == pc);
                let mut q: usize = 0;
                while q < rp.len()
                    invariant
                        db_inv(old_db),
                        fks == old_db.fks,
                        tables == old_db.tables,
                        t2 < old_db.tables@.len(),
                        e < fks@.len(),
                        f == &old_db.fks@[e as int],
                        f.child_table == t2,
                        fk_wf(old_db.fks@[e as int], old_db.tables@),
                        pt == f.parent_table as int,
                        keyv == key.deep_view(),
                        rowv == row.deep_view(),
                        rowv.len() == old_db.tables@[t2 as int].columns@.len(),
                        !(rowv[f.child_col as int] is Null),
                        prev == culled_upto(old_db, t0 as int, keyv, t2 as int),
                        prev.len() == t2,
                        pc == culled(old_db, t0 as int, keyv, pt, db_rows(old_db)[pt]),
                        prev[pt] == pc,
                        forall|k: int|
                            0 <= k < pc.len() ==> db_rows(old_db)[pt].contains(#[trigger] pc[k]),
                        rp.deep_view() == pc,
                        q <= pc.len(),
                        forall|q2: int|
                            0 <= q2 < q ==> (#[trigger] pc[q2][f.parent_col as int])
                                != rowv[f.child_col as int],
                    decreases pc.len() - q,
                {
                    assert(rp.deep_view().len() == rp@.len());
                    assert(rp@[q as int].deep_view() == pc[q as int]);
                    assert(db_rows(old_db)[pt].contains(pc[q as int]));
                    proof {
                        let j = choose|j: int|
                            0 <= j < db_rows(old_db)[pt].len() && db_rows(old_db)[pt][j] == pc[q as int];
                        assert(table_rows_wf(old_db.tables@[pt], db_rows(old_db)[pt]));
                        assert(db_rows(old_db)[pt][j].len() == old_db.tables@[pt].columns@.len());
                    }
                    assert(pc[q as int].len() == old_db.tables@[pt].columns@.len());
                    assert(rp@[q as int].deep_view().len() == rp@[q as int]@.len());
                    if value_eq(&rp[q][f.parent_col], &row[f.child_col]) {
                        assert(pc[q as int][f.parent_col as int] == rowv[f.child_col as int]);
                        assert(prev[pt][q as int][f.parent_col as int] == rowv[f.child_col as int]);
                        assert(is_doomed(old_db, t0 as int, keyv, t2 as int, prev, rowv));
                        return true;
                    }
                    assert(pc[q as int][f.parent_col as int] == rp@[q as int]@[f.parent_col as int]@);
                    q += 1;
                }
            }
        }
        e += 1;
    }
    assert(!is_doomed(old_db, t0 as int, keyv, t2 as int, prev, rowv));
    false
}


/// Completes a partially specified row the way the storage engine does at
/// row creation: every unspecified cell takes its column's default (the
/// current timestamp `now` where declared so), nullable columns without a
/// default become null, and a required column without a default must be
/// given a value.
pub fn complete_row(t: &TableDef, given: &Vec<Option<Value>>, now: i64) -> (r: Result<
    Vec<Value>,
    DataError,
>)
    ensures
        match r {
            Ok(row) => {
                &&& given@.len() == t.columns@.len()
                &&& row.deep_view().len() == given@.len()
                &&& forall|i: int|
                    0 <= i < given@.len() ==> match #[trigger] given.deep_view()[i] {
                        Some(v) => row.deep_view()[i] == v,
                        None => Some(row.deep_view()[i]) == default_cell(
                            t.columns@[i],
                            now as int,
                        ),
                    }
            },
            Err(e) => if given@.len() != t.columns@.len() {
                e == DataError::WrongArity
            } else {
                e == DataError::MissingValue && exists|i: int|
                    0 <= i < given@.len() && (#[trigger] given.deep_view()[i]) is None
                        && default_cell(t.columns@[i], now as int) is None
            },
        },
{
    if given.len() != t.columns.len() {
        assert(given.deep_view().len() == given@.len());
        return Err(DataError::WrongArity);
    }
    let mut row: Vec<Value> = Vec::new();
    let mut i: usize = 0;
    while i < given.len()
        invariant
            given@.len() == t.columns@.len(),
            i <= given@.len(),
            row.deep_view().len() == i,
            forall|j: int|
                0 <= j < i ==> match #[trigger] given.deep_view()[j] {
                    Some(v) => row.deep_view()[j] == v,
                    None => Some(row.deep_view()[j]) == default_cell(t.columns@[j], now as int),
                },
        decreases given@.len() - i,
    {
        assert(row.deep_view().len() == row@.len());
        assert(given.deep_view()[i as int] == given@[i as int].deep_view());
        match &given[i] {
            Some(v) => {
                row.push(v.clone());
            },
            None => {
                match t.columns[i].default {
                    DefaultRule::DefaultBool(b) => {
                        row.push(Value::Bool(b));
                    },
                    DefaultRule::DefaultInt(n) => {
                        row.push(Value::Int(n));
                    },
                    DefaultRule::DefaultText(s) => {
                        row.push(Value::Text(String::from_str(s)));
                    },
                    DefaultRule::DefaultCurrentTimestamp => {
                        row.push(Value::Int(now));
                    },
                    DefaultRule::NoDefault => {
                        if t.columns[i].nullable {
                            row.push(Value::Null);
                        } else {
                            assert(given.deep_view()[i as int] is None && default_cell(
                                t.columns@[i as int],
                                now as int,
                            ) is None);
                            return Err(DataError::MissingValue);
                        }
                    },
                }
            },
        }
        i += 1;
        assert(row.deep_view().len() == i);
    }
    Ok(row)
}

/// The store invariant depends only on the schema, the enforcement flag
/// and the rows' values.
proof fn lemma_db_inv_views(o: Database, n: Database)
    requires
        db_inv(o),
        n.tables == o.tables,
        n.fks == o.fks,
        n.enforce_fk == o.enforce_fk,
        n.rows@.len() == o.rows@.len(),
        db_rows(n) == db_rows(o),
    ensures
        db_inv(n),
{
}

/// For all tables — composite primary keys included — inserting a row
/// whose key-column values match an existing row is rejected with a
/// duplicate-key error.
pub proof fn lemma_duplicate_key_rejected(db: Database, t: int, row: Seq<Val>)
    requires
        db_inv(db),
        0 <= t < db.tables@.len(),
        row.len() == db.tables@[t].columns@.len(),
        dup_pk(db.tables@[t], db_rows(db)[t], row),
    ensures
        insert_check(db, t, row) == Some(DataError::DuplicateKey),
{
}

/// At most one row per primary key: under the store invariant, no two
/// rows of a table share their key-column values — for the leaderboard
/// table, at most one row per (beatmap, mode, ranking type) triple.
pub proof fn lemma_at_most_one_per_key(db: Database, t: int, k: Seq<Val>)
    requires
        db_inv(db),
        0 <= t < db.tables@.len(),
    ensures
        forall|r1: int, r2: int|
            0 <= r1 < r2 < db_rows(db)[t].len() ==> !(pk_of(
                db.tables@[t],
                #[trigger] db_rows(db)[t][r1],
            ) == k && pk_of(db.tables@[t], #[trigger] db_rows(db)[t][r2]) == k),
{
    assert(table_rows_wf(db.tables@[t], db_rows(db)[t]));
}

/// The outcome of checking the second insert of an atomic pair, as if the
/// first row were already stored: the same checks as a plain insert, with
/// the first row counted as a possible parent.
pub open spec fn extension_check(
    db: Database,
    t1: int,
    row1: Seq<Val>,
    t2: int,
    row2: Seq<Val>,
) -> Option<DataError> {
    if !(0 <= t2 < db.tables@.len()) {
        Some(DataError::NoSuchTable)
    } else if row2.len() != db.tables@[t2].columns@.len() {
        Some(DataError::WrongArity)
    } else if dup_pk(db.tables@[t2], db_rows(db)[t2], row2) {
        Some(DataError::DuplicateKey)
    } else if dup_unique(db.tables@[t2], db_rows(db)[t2], row2) {
        Some(DataError::DuplicateUnique)
    } else if db.enforce_fk && missing_parent_plus(db, t1, row1, t2, row2) {
        Some(DataError::MissingParent)
    } else {
        None
    }
}

/// Whether some foreign-key cell of `row2` references neither an existing
/// parent row nor the about-to-be-stored `row1`.
pub open spec fn missing_parent_plus(
    db: Database,
    t1: int,
    row1: Seq<Val>,
    t2: int,
    row2: Seq<Val>,
) -> bool {
    exists|e: int|
        0 <= e < db.fks@.len() && (#[trigger] db.fks@[e]).child_table == t2 && !(
        row2[db.fks@[e].child_col as int] is Null) && !parent_present(
            db,
            e,
            row2[db.fks@[e].child_col as int],
        ) && !((db.fks@[e].parent_table as int) == t1 && row1[db.fks@[e].parent_col as int]
            == row2[db.fks@[e].child_col as int])
}

/// After the first row of a pair is stored, checking the second row
/// against the new state is exactly the extension check against the old
/// one.
proof fn lemma_extension_check(o: Database, mid: Database, t1: int, row1: Seq<Val>, t2: int, row2: Seq<Val>)
    requires
        db_inv(o),
        0 <= t1 < o.tables@.len(),
        0 <= t2 < o.tables@.len(),
        t1 != t2,
        mid.tables == o.tables,
        mid.fks == o.fks,
        mid.enforce_fk == o.enforce_fk,
        db_rows(mid) == db_rows(o).update(t1, db_rows(o)[t1].push(row1)),
    ensures
        insert_check(mid, t2, row2) == extension_check(o, t1, row1, t2, row2),
{
    assert(db_rows(mid)[t2] == db_rows(o)[t2]);
    assert(db_rows(mid)[t1] == db_rows(o)[t1].push(row1));
    if 0 <= t2 < o.tables@.len() && row2.len() == o.tables@[t2].columns@.len() && !dup_pk(
        o.tables@[t2],
        db_rows(o)[t2],
        row2,
    ) && !dup_unique(o.tables@[t2], db_rows(o)[t2], row2) && o.enforce_fk {
        assert forall|e: int|
            0 <= e < o.fks@.len() implies ((0 <= e < mid.fks@.len() && (#[trigger] mid.fks@[e]).child_table
            == t2 && !(row2[mid.fks@[e].child_col as int] is Null) && !parent_present(
            mid,
            e,
            row2[mid.fks@[e].child_col as int],
        )) == (0 <= e < o.fks@.len() && (o.fks@[e]).child_table == t2 && !(
        row2[o.fks@[e].child_col as int] is Null) && !parent_present(
            o,
            e,
            row2[o.fks@[e].child_col as int],
        ) && !((o.fks@[e].parent_table as int) == t1 && row1[o.fks@[e].parent_col as int]
            == row2[o.fks@[e].child_col as int]))) by {
            let f = o.fks@[e];
            let pt = f.parent_table as int;
            let cell = row2[f.child_col as int];
            if f.child_table == t2 && !(cell is Null) {
                if pt == t1 {
                    assert(db_rows(mid)[pt] == db_rows(o)[pt].push(row1));
                    if parent_present(o, e, cell) {
                        let p = choose|p: int|
                            0 <= p < db_rows(o)[pt].len() && (#[trigger] db_rows(o)[pt][p])[f.parent_col as int]
                                == cell;
                        assert(db_rows(mid)[pt][p] == db_rows(o)[pt][p]);
                        assert(parent_present(mid, e, cell));
                    }
                    if row1[f.parent_col as int] == cell {
                        let p = db_rows(o)[pt].len() as int;
                        assert(db_rows(mid)[pt][p] == row1);
                        assert(parent_present(mid, e, cell));
                    }
                    if parent_present(mid, e, cell) {
                        let p = choose|p: int|
                            0 <= p < db_rows(mid)[pt].len() && (#[trigger] db_rows(mid)[pt][p])[f.parent_col as int]
                                == cell;
                        if p < db_rows(o)[pt].len() {
                            assert(db_rows(mid)[pt][p] == db_rows(o)[pt][p]);
                            assert(parent_present(o, e, cell));
                        } else {
                            assert(db_rows(mid)[pt][p] == row1);
                        }
                    }
                } else {
                    assert(db_rows(mid)[pt] == db_rows(o)[pt]);
                    if parent_present(o, e, cell) {
                        let p = choose|p: int|
                            0 <= p < db_rows(o)[pt].len() && (#[trigger] db_rows(o)[pt][p])[f.parent_col as int]
                                == cell;
                        assert(db_rows(mid)[pt][p] == db_rows(o)[pt][p]);
                        assert(parent_present(mid, e, cell));
                    }
                    if parent_present(mid, e, cell) {
                        let p = choose|p: int|
                            0 <= p < db_rows(mid)[pt].len() && (#[trigger] db_rows(mid)[pt][p])[f.parent_col as int]
                                == cell;
                        assert(db_rows(o)[pt][p] == db_rows(mid)[pt][p]);
                        assert(parent_present(o, e, cell));
                    }
                }
            }
        }
        assert(missing_parent(mid, t2, row2) == missing_parent_plus(o, t1, row1, t2, row2));
    }
}

/// Whether a non-null cell of `row` collides in a unique column with a
/// row other than the one `row` replaces (the row with the same primary
/// key).
pub open spec fn dup_unique_other(t: TableDef, rows: Seq<Seq<Val>>, row: Seq<Val>) -> bool {
    exists|c: int, i: int|
        0 <= c < t.columns@.len() && t.columns@[c].unique && !(row[c] is Null) && 0 <= i
            < rows.len() && (#[trigger] rows[i][c]) == row[c] && pk_of(t, rows[i]) != pk_of(t, row)
}

/// Whether replacing the row of table `t` that shares `row`'s primary key
/// would change a column some foreign-key edge references.
pub open spec fn parent_key_change(db: Database, t: int, row: Seq<Val>) -> bool {
    exists|i: int, e: int|
        0 <= i < db_rows(db)[t].len() && pk_of(db.tables@[t], #[trigger] db_rows(db)[t][i])
            == pk_of(db.tables@[t], row) && 0 <= e < db.fks@.len() && (#[trigger] db.fks@[e]).parent_table
            == t && db_rows(db)[t][i][db.fks@[e].parent_col as int] != row[db.fks@[e].parent_col as int]
}

/// The outcome of checking an upsert, in the order the checks run: table,
/// arity, unique columns against other rows, then — on enforcing backends
/// only — referenced-column stability and foreign keys. A duplicate
/// primary key is no error here: it selects the row to replace.
pub open spec fn upsert_check(db: Database, t: int, row: Seq<Val>) -> Option<DataError> {
    if !(0 <= t < db.tables@.len()) {
        Some(DataError::NoSuchTable)
    } else if row.len() != db.tables@[t].columns@.len() {
        Some(DataError::WrongArity)
    } else if dup_unique_other(db.tables@[t], db_rows(db)[t], row) {
        Some(DataError::DuplicateUnique)
    } else if db.enforce_fk && parent_key_change(db, t, row) {
        Some(DataError::ParentKeyChange)
    } else if db.enforce_fk && missing_parent(db, t, row) {
        Some(DataError::MissingParent)
    } else {
        None
    }
}

/// Replacing the row that shares the new row's primary key, after every
/// upsert check passed, preserves the store's invariant.
proof fn lemma_upsert_update_preserves(o: Database, n: Database, t: int, i: int, rowv: Seq<Val>)
    requires
        db_inv(o),
        0 <= t < o.tables@.len(),
        rowv.len() == o.tables@[t].columns@.len(),
        0 <= i < db_rows(o)[t].len(),
        pk_of(o.tables@[t], db_rows(o)[t][i]) == pk_of(o.tables@[t], rowv),
        !dup_unique_other(o.tables@[t], db_rows(o)[t], rowv),
        o.enforce_fk ==> !parent_key_change(o, t, rowv),
        o.enforce_fk ==> !missing_parent(o, t, rowv),
        n.tables == o.tables,
        n.fks == o.fks,
        n.enforce_fk == o.enforce_fk,
        n.rows@.len() == o.rows@.len(),
        db_rows(n) == db_rows(o).update(t, db_rows(o)[t].update(i, rowv)),
    ensures
        db_inv(n),
{
    let td = o.tables@[t];
    let oldr = db_rows(o)[t];
    let newr = db_rows(n)[t];
    assert(newr == oldr.update(i, rowv));
    assert(table_rows_wf(td, oldr));
    assert forall|t2: int| 0 <= t2 < n.tables@.len() implies table_rows_wf(
        #[trigger] n.tables@[t2],
        db_rows(n)[t2],
    ) by {
        if t2 == t {
            assert forall|r: int| 0 <= r < newr.len() implies (#[trigger] newr[r]).len()
                == td.columns@.len() by {
                if r != i {
                    assert(newr[r] == oldr[r]);
                } else {
                    assert(newr[r] == rowv);
                }
            }
            assert forall|r1: int, r2: int| 0 <= r1 < r2 < newr.len() implies pk_of(td, newr[r1])
                != pk_of(td, newr[r2]) by {
                if r1 == i {
                    assert(newr[r2] == oldr[r2]);
                    assert(pk_of(td, newr[r1]) == pk_of(td, oldr[i]));
                } else if r2 == i {
                    assert(newr[r1] == oldr[r1]);
                    assert(pk_of(td, newr[r2]) == pk_of(td, oldr[i]));
                } else {
                    assert(newr[r1] == oldr[r1] && newr[r2] == oldr[r2]);
                }
            }
            assert forall|c: int, r1: int, r2: int|
                0 <= c < td.columns@.len() && td.columns@[c].unique && 0 <= r1 < r2 < newr.len()
                    && (#[trigger] newr[r1][c]) == (#[trigger] newr[r2][c]) implies newr[r1][c] is Null by {
                if r1 == i || r2 == i {
                    let other = if r1 == i {
                        r2
                    } else {
                        r1
                    };
                    assert(newr[other] == oldr[other]);
                    if !(rowv[c] is Null) {
                        assert(pk_of(td, oldr[other]) != pk_of(td, oldr[i]));
                        assert(!(oldr[other][c] == rowv[c] && pk_of(td, oldr[other]) != pk_of(
                            td,
                            rowv,
                        )));
                    }
                } else {
                    assert(newr[r1] == oldr[r1] && newr[r2] == oldr[r2]);
                }
            }
        } else {
            assert(db_rows(n)[t2] == db_rows(o)[t2]);
            assert(table_rows_wf(o.tables@[t2], db_rows(o)[t2]));
        }
    }
    if n.enforce_fk {
        assert forall|e: int| 0 <= e < n.fks@.len() implies fk_holds(
            #[trigger] n.fks@[e],
            db_rows(n)[n.fks@[e].child_table as int],
            db_rows(n)[n.fks@[e].parent_table as int],
        ) by {
            let f = o.fks@[e];
            assert(fk_wf(f, o.tables@));
            let ct = f.child_table as int;
            let pt = f.parent_table as int;
            let ocr = db_rows(o)[ct];
            let opr = db_rows(o)[pt];
            assert(fk_holds(f, ocr, opr));
            let ncr = db_rows(n)[ct];
            let npr = db_rows(n)[pt];
            assert(pt < ct);
            if ct == t {
                assert(ncr == oldr.update(i, rowv));
                assert(npr == opr);
                assert forall|r: int| 0 <= r < ncr.len() implies ((#[trigger] ncr[r])[f.child_col as int] is Null
                    || exists|p: int|
                        0 <= p < npr.len() && (#[trigger] npr[p])[f.parent_col as int]
                            == ncr[r][f.child_col as int]) by {
                    if r != i {
                        assert(ncr[r] == ocr[r]);
                    } else {
                        assert(ncr[r] == rowv);
                        assert(!(0 <= e < o.fks@.len() && (o.fks@[e]).child_table == t && !(
                        rowv[o.fks@[e].child_col as int] is Null) && !parent_present(
                            o,
                            e,
                            rowv[o.fks@[e].child_col as int],
                        )));
                        if !(rowv[f.child_col as int] is Null) {
                            assert(parent_present(o, e, rowv[f.child_col as int]));
                        }
                    }
                }
            } else if pt == t {
                assert(ncr == ocr);
                assert(npr == oldr.update(i, rowv));
                assert(npr[i][f.parent_col as int] == rowv[f.parent_col as int]);
                assert(!(0 <= i < oldr.len() && pk_of(td, oldr[i]) == pk_of(td, rowv) && 0 <= e
                    < o.fks@.len() && (o.fks@[e]).parent_table == t && oldr[i][o.fks@[e].parent_col as int]
                    != rowv[o.fks@[e].parent_col as int]));
                assert(oldr[i][f.parent_col as int] == rowv[f.parent_col as int]);
                assert forall|r: int| 0 <= r < ncr.len() implies ((#[trigger] ncr[r])[f.child_col as int] is Null
                    || exists|p: int|
                        0 <= p < npr.len() && (#[trigger] npr[p])[f.parent_col as int]
                            == ncr[r][f.child_col as int]) by {
                    if !(ocr[r][f.child_col as int] is Null) {
                        let p = choose|p: int|
                            0 <= p < opr.len() && (#[trigger] opr[p])[f.parent_col as int]
                                == ocr[r][f.child_col as int];
                        if p == i {
                            assert(npr[i][f.parent_col as int] == opr[i][f.parent_col as int]);
                        } else {
                            assert(npr[p] == opr[p]);
                        }
                    }
                }
            } else {
                assert(ncr == ocr && npr == opr);
            }
        }
    }
}

/// Appending a row that passed every insert check preserves the store's
/// invariant.
proof fn lemma_insert_preserves(o: Database, n: Database, t: int, rowv: Seq<Val>)
    requires
        db_inv(o),
        0 <= t < o.tables@.len(),
        rowv.len() == o.tables@[t].columns@.len(),
        !dup_pk(o.tables@[t], db_rows(o)[t], rowv),
        !dup_unique(o.tables@[t], db_rows(o)[t], rowv),
        o.enforce_fk ==> !missing_parent(o, t, rowv),
        n.tables == o.tables,
        n.fks == o.fks,
        n.enforce_fk == o.enforce_fk,
        n.rows@.len() == o.rows@.len(),
        db_rows(n) == db_rows(o).update(t, db_rows(o)[t].push(rowv)),
    ensures
        db_inv(n),
{
    let td = o.tables@[t];
    let oldr = db_rows(o)[t];
    let newr = db_rows(n)[t];
    assert(newr == oldr.push(rowv));
    assert(table_rows_wf(td, oldr));
    assert forall|t2: int| 0 <= t2 < n.tables@.len() implies table_rows_wf(
        #[trigger] n.tables@[t2],
        db_rows(n)[t2],
    ) by {
        if t2 == t {
            assert forall|r: int| 0 <= r < newr.len() implies (#[trigger] newr[r]).len()
                == td.columns@.len() by {
                if r < oldr.len() {
                    assert(newr[r] == oldr[r]);
                } else {
                    assert(newr[r] == rowv);
                }
            }
            assert forall|r1: int, r2: int| 0 <= r1 < r2 < newr.len() implies pk_of(td, newr[r1])
                != pk_of(td, newr[r2]) by {
                if r2 == oldr.len() {
                    assert(newr[r1] == oldr[r1]);
                    assert(pk_of(td, oldr[r1]) != pk_of(td, rowv));
                } else {
                    assert(newr[r1] == oldr[r1] && newr[r2] == oldr[r2]);
                }
            }
            assert forall|c: int, r1: int, r2: int|
                0 <= c < td.columns@.len() && td.columns@[c].unique && 0 <= r1 < r2 < newr.len()
                    && (#[trigger] newr[r1][c]) == (#[trigger] newr[r2][c]) implies newr[r1][c] is Null by {
                if r2 == oldr.len() {
                    assert(newr[r1] == oldr[r1]);
                    assert(newr[r2] == rowv);
                    if !(rowv[c] is Null) {
                        assert(oldr[r1][c] != rowv[c]);
                    }
                } else {
                    assert(newr[r1] == oldr[r1] && newr[r2] == oldr[r2]);
                }
            }
        } else {
            assert(db_rows(n)[t2] == db_rows(o)[t2]);
            assert(table_rows_wf(o.tables@[t2], db_rows(o)[t2]));
        }
    }
    if n.enforce_fk {
        assert forall|e: int| 0 <= e < n.fks@.len() implies fk_holds(
            #[trigger] n.fks@[e],
            db_rows(n)[n.fks@[e].child_table as int],
            db_rows(n)[n.fks@[e].parent_table as int],
        ) by {
            let f = o.fks@[e];
            assert(fk_wf(f, o.tables@));
            let ct = f.child_table as int;
            let pt = f.parent_table as int;
            let ocr = db_rows(o)[ct];
            let opr = db_rows(o)[pt];
            assert(fk_holds(f, ocr, opr));
            let ncr = db_rows(n)[ct];
            let npr = db_rows(n)[pt];
            assert(pt < ct);
            if ct == t {
                assert(ncr == ocr.push(rowv));
                assert(npr == opr);
                assert forall|r: int| 0 <= r < ncr.len() implies ((#[trigger] ncr[r])[f.child_col as int] is Null
                    || exists|p: int|
                        0 <= p < npr.len() && (#[trigger] npr[p])[f.parent_col as int]
                            == ncr[r][f.child_col as int]) by {
                    if r < ocr.len() {
                        assert(ncr[r] == ocr[r]);
                    } else {
                        assert(ncr[r] == rowv);
                        assert(!(0 <= e < o.fks@.len() && (o.fks@[e]).child_table == t && !(
                        rowv[o.fks@[e].child_col as int] is Null) && !parent_present(
                            o,
                            e,
                            rowv[o.fks@[e].child_col as int],
                        )));
                        if !(rowv[f.child_col as int] is Null) {
                            assert(parent_present(o, e, rowv[f.child_col as int]));
                        }
                    }
                }
            } else if pt == t {
                assert(ncr == ocr);
                assert(npr == opr.push(rowv));
                assert forall|r: int| 0 <= r < ncr.len() implies ((#[trigger] ncr[r])[f.child_col as int] is Null
                    || exists|p: int|
                        0 <= p < npr.len() && (#[trigger] npr[p])[f.parent_col as int]
                            == ncr[r][f.child_col as int]) by {
                    if !(ocr[r][f.child_col as int] is Null) {
                        let p = choose|p: int|
                            0 <= p < opr.len() && (#[trigger] opr[p])[f.parent_col as int]
                                == ocr[r][f.child_col as int];
                        assert(npr[p] == opr[p]);
                    }
                }
            } else {
                assert(ncr == ocr && npr == opr);
            }
        }
    }
}

impl Database {
    /// Creates the empty store for the declared catalog on the given
    /// backend. Foreign keys are enforced exactly where the backend
    /// supports them.
    pub fn new(backend: DbBackend) -> (db: Database)
        ensures
            db_inv(db),
            db.enforce_fk == backend.spec_supports_foreign_keys(),
            db.tables@.len() == crate::catalog::NUM_TABLES,
            forall|t: int| 0 <= t < db.tables@.len() ==> db_rows(db)[t].len() == 0,
            crate::catalog::declared_tables(db.tables@),
            crate::catalog::declared_fks(db.fks@),
    {
        let c = crate::catalog::catalog();
        let n = c.tables.len();
        let mut rows: Vec<Vec<Vec<Value>>> = Vec::new();
        let mut i: usize = 0;
        while i < n
            invariant
                i <= n,
                rows@.len() == i,
                forall|t: int| 0 <= t < i ==> (#[trigger] rows@[t])@.len() == 0,
            decreases n - i,
        {
            rows.push(Vec::new());
            i += 1;
        }
        let db = Database {
            tables: c.tables,
            fks: c.fks,
            enforce_fk: backend.supports_foreign_keys(),
            rows,
        };
        proof {
            assert(forall|t: int|
                0 <= t < db.tables@.len() ==> #[trigger] db_rows(db)[t] =~= Seq::<Seq<Val>>::empty());
            assert forall|t: int| 0 <= t < db.tables@.len() implies pk_wf(#[trigger] db.tables@[t]) by {
                assert(crate::schema::table_wf(db.tables@[t], crate::catalog::NUM_TYPES as int));
            }
        }
        db
    }

    /// The number of rows a table currently holds.
    pub fn row_count(&self, t: usize) -> (n: usize)
        requires
            t < self.tables@.len(),
            db_inv(*self),
        ensures
            n == db_rows(*self)[t as int].len(),
    {
        let n = self.rows[t].len();
        assert(db_rows(*self)[t as int].len() == self.rows@[t as int]@.len());
        n
    }

    /// The position of the row whose primary-key projection equals `key`,
    /// if any.
    fn find_pk(&self, t: usize, key: &Vec<Value>) -> (r: Option<usize>)
        requires
            db_inv(*self),
            t < self.tables@.len(),
        ensures
            match r {
                Some(i) => i < db_rows(*self)[t as int].len() && pk_of(
                    self.tables@[t as int],
                    db_rows(*self)[t as int][i as int],
                ) == key.deep_view(),
                None => forall|i: int|
                    0 <= i < db_rows(*self)[t as int].len() ==> pk_of(
                        self.tables@[t as int],
                        #[trigger] db_rows(*self)[t as int][i],
                    ) != key.deep_view(),
            },
    {
        let tbl = &self.rows[t];
        let ghost rows = db_rows(*self)[t as int];
        assert(rows =~= tbl.deep_view());
        let mut i: usize = 0;
        while i < tbl.len()
            invariant
                db_inv(*self),
                t < self.tables@.len(),
                rows == db_rows(*self)[t as int],
                rows == tbl.deep_view(),
                tbl == self.rows@[t as int],
                i <= rows.len(),
                forall|j: int|
                    0 <= j < i ==> pk_of(self.tables@[t as int], #[trigger] rows[j])
                        != key.deep_view(),
            decreases rows.len() - i,
        {
            assert(tbl.deep_view().len() == tbl@.len());
            assert(rows[i as int] == tbl@[i as int].deep_view());
            assert(table_rows_wf(self.tables@[t as int], rows));
            assert(rows[i as int].len() == self.tables@[t as int].columns@.len());
            assert(pk_wf(self.tables@[t as int]));
            let k = pk_project(&self.tables[t], &tbl[i]);
            if row_eq(&k, key) {
                return Some(i);
            }
            i += 1;
        }
        None
    }

    /// Whether some foreign-key cell of `row`, taken as a row of table
    /// `t`, references no parent row.
    fn scan_missing_parent(&self, t: usize, row: &Vec<Value>) -> (r: bool)
        requires
            db_inv(*self),
            t < self.tables@.len(),
            row.deep_view().len() == self.tables@[t as int].columns@.len(),
        ensures
            r == missing_parent(*self, t as int, row.deep_view()),
    {
        let mut e: usize = 0;
        while e < self.fks.len()
            invariant
                db_inv(*self),
                t < self.tables@.len(),
                row.deep_view().len() == self.tables@[t as int].columns@.len(),
                e <= self.fks@.len(),
                forall|e2: int|
                    0 <= e2 < e && (#[trigger] self.fks@[e2]).child_table == t ==> (
                    row.deep_view()[self.fks@[e2].child_col as int] is Null || parent_present(
                        *self,
                        e2,
                        row.deep_view()[self.fks@[e2].child_col as int],
                    )),
            decreases self.fks@.len() - e,
        {
            let f = &self.fks[e];
            if f.child_table == t {
                assert(fk_wf(self.fks@[e as int], self.tables@));
                if !matches!(row[f.child_col], Value::Null) {
                    assert(row@[f.child_col as int]@ == row.deep_view()[f.child_col as int]);
                    let ptbl = &self.rows[f.parent_table];
                    let ghost prows = db_rows(*self)[f.parent_table as int];
                    assert(ptbl.deep_view() =~= prows);
                    let mut found = false;
                    let mut p: usize = 0;
                    while p < ptbl.len()
                        invariant
                            db_inv(*self),
                            t < self.tables@.len(),
                            e < self.fks@.len(),
                            f == &self.fks@[e as int],
                            f.child_table == t,
                            !(row.deep_view()[f.child_col as int] is Null),
                            fk_wf(self.fks@[e as int], self.tables@),
                            row.deep_view().len() == self.tables@[t as int].columns@.len(),
                            prows == db_rows(*self)[f.parent_table as int],
                            ptbl == self.rows@[f.parent_table as int],
                            ptbl.deep_view() == prows,
                            p <= prows.len(),
                            !found ==> forall|q: int|
                                0 <= q < p ==> (#[trigger] prows[q][f.parent_col as int])
                                    != row.deep_view()[f.child_col as int],
                            found ==> parent_present(
                                *self,
                                e as int,
                                row.deep_view()[f.child_col as int],
                            ),
                        decreases prows.len() - p,
                    {
                        assert(ptbl.deep_view().len() == ptbl@.len());
                        assert(ptbl@[p as int].deep_view() == prows[p as int]);
                        assert(table_rows_wf(self.tables@[f.parent_table as int], prows));
                        assert(prows[p as int].len()
                            == self.tables@[f.parent_table as int].columns@.len());
                        assert(ptbl@[p as int].deep_view().len() == ptbl@[p as int]@.len());
                        if value_eq(&ptbl[p][f.parent_col], &row[f.child_col]) {
                            assert(prows[p as int][f.parent_col as int] == row.deep_view()[f.child_col as int]);
                            found = true;
                        }
                        assert(prows[p as int][f.parent_col as int] == ptbl@[p as int]@[f.parent_col as int]@);
                        p += 1;
                    }
                    if !found {
                        assert(!parent_present(
                            *self,
                            e as int,
                            row.deep_view()[f.child_col as int],
                        ));
                        assert(missing_parent(*self, t as int, row.deep_view()));
                        return true;
                    }
                }
            }
            e += 1;
        }
        assert(!missing_parent(*self, t as int, row.deep_view()));
        false
    }

    /// Checks an insert without performing it.
    fn check_insert(&self, t: usize, row: &Vec<Value>) -> (r: Option<DataError>)
        requires
            db_inv(*self),
        ensures
            r == insert_check(*self, t as int, row.deep_view()),
    {
        if t >= self.tables.len() {
            return Some(DataError::NoSuchTable);
        }
        assert(row.deep_view().len() == row@.len());
        if row.len() != self.tables[t].columns.len() {
            return Some(DataError::WrongArity);
        }
        assert(pk_wf(self.tables@[t as int]));
        let key = pk_project(&self.tables[t], row);
        if self.find_pk(t, &key).is_some() {
            assert(dup_pk(self.tables@[t as int], db_rows(*self)[t as int], row.deep_view()));
            return Some(DataError::DuplicateKey);
        }
        assert(!dup_pk(self.tables@[t as int], db_rows(*self)[t as int], row.deep_view()));
        let ghost rowsv = db_rows(*self)[t as int];
        let mut c: usize = 0;
        while c < self.tables[t].columns.len()
            invariant
                db_inv(*self),
                t < self.tables@.len(),
                !dup_pk(self.tables@[t as int], db_rows(*self)[t as int], row.deep_view()),
                row.deep_view().len() == self.tables@[t as int].columns@.len(),
                rowsv == db_rows(*self)[t as int],
                c <= self.tables@[t as int].columns@.len(),
                forall|c2: int, i: int|
                    0 <= c2 < c && self.tables@[t as int].columns@[c2].unique && !(
                    row.deep_view()[c2] is Null) && 0 <= i < rowsv.len() ==> (#[trigger] rowsv[i][c2])
                        != row.deep_view()[c2],
            decreases self.tables@[t as int].columns@.len() - c,
        {
            if self.tables[t].columns[c].unique && !matches!(row[c], Value::Null) {
                assert(row@[c as int]@ == row.deep_view()[c as int]);
                let tbl = &self.rows[t];
                assert(tbl.deep_view() =~= rowsv);
                let mut i: usize = 0;
                while i < tbl.len()
                    invariant
                        db_inv(*self),
                        t < self.tables@.len(),
                        c < self.tables@[t as int].columns@.len(),
                        self.tables@[t as int].columns@[c as int].unique,
                        !(row.deep_view()[c as int] is Null),
                        !dup_pk(self.tables@[t as int], db_rows(*self)[t as int], row.deep_view()),
                        row.deep_view().len() == self.tables@[t as int].columns@.len(),
                        rowsv == db_rows(*self)[t as int],
                        tbl == self.rows@[t as int],
                        tbl.deep_view() == rowsv,
                        i <= rowsv.len(),
                        forall|j: int|
                            0 <= j < i ==> (#[trigger] rowsv[j][c as int]) != row.deep_view()[c as int],
                    decreases rowsv.len() - i,
                {
                    assert(tbl.deep_view().len() == tbl@.len());
                    assert(tbl@[i as int].deep_view() == rowsv[i as int]);
                    assert(table_rows_wf(self.tables@[t as int], rowsv));
                    assert(rowsv[i as int].len() == self.tables@[t as int].columns@.len());
                    assert(tbl@[i as int].deep_view().len() == tbl@[i as int]@.len());
                    if value_eq(&tbl[i][c], &row[c]) {
                        assert(rowsv[i as int][c as int] == row.deep_view()[c as int]);
                        assert(dup_unique(
                            self.tables@[t as int],
                            db_rows(*self)[t as int],
                            row.deep_view(),
                        ));
                        return Some(DataError::DuplicateUnique);
                    }
                    assert(rowsv[i as int][c as int] == tbl@[i as int]@[c as int]@);
                    i += 1;
                }
            }
            c += 1;
        }
        assert(!dup_unique(self.tables@[t as int], db_rows(*self)[t as int], row.deep_view()));
        if self.enforce_fk {
            if self.scan_missing_parent(t, row) {
                return Some(DataError::MissingParent);
            }
        }
        None
    }

    /// Inserts a row: rejects it on a missing table, a wrong arity, a
    /// duplicate primary key (composite keys included), a collision in a
    /// unique column, or — on enforcing backends — a dangling foreign-key
    /// reference; otherwise appends it. Exactly one of these happens, and
    /// a rejection leaves the store untouched.
    pub fn insert(&mut self, t: usize, row: Vec<Value>) -> (r: Result<(), DataError>)
        requires
            db_inv(*old(self)),
        ensures
            db_inv(*final(self)),
            final(self).tables == old(self).tables,
            final(self).fks == old(self).fks,
            final(self).enforce_fk == old(self).enforce_fk,
            match r {
                Ok(()) => insert_check(*old(self), t as int, row.deep_view()) is None && t
                    < old(self).tables@.len() && db_rows(*final(self)) == db_rows(*old(self)).update(
                    t as int,
                    db_rows(*old(self))[t as int].push(row.deep_view()),
                ),
                Err(e) => Some(e) == insert_check(*old(self), t as int, row.deep_view()) && *final(self)
                    == *old(self),
            },
    {
        match self.check_insert(t, &row) {
            Some(e) => Err(e),
            None => {
                let ghost old_db = *self;
                let ghost rowv = row.deep_view();
                assert(t < self.tables@.len());
                assert(self.rows@.len() == self.tables@.len());
                let mut tbl: Vec<Vec<Value>> = Vec::new();
                self.rows.set_and_swap(t, &mut tbl);
                tbl.push(row);
                self.rows.set_and_swap(t, &mut tbl);
                proof {
                    assert(self.rows@ =~= old_db.rows@.update(t as int, self.rows@[t as int]));
                    assert(self.rows@[t as int]@.len() == old_db.rows@[t as int]@.len() + 1);
                    let target = db_rows(old_db).update(
                        t as int,
                        db_rows(old_db)[t as int].push(rowv),
                    );
                    assert forall|t2: int| 0 <= t2 < db_rows(*self).len() implies db_rows(*self)[t2]
                        == target[t2] by {
                        if t2 == t {
                            assert(db_rows(*self)[t2] =~= db_rows(old_db)[t2].push(rowv));
                        } else {
                            assert(self.rows@[t2] == old_db.rows@[t2]);
                        }
                    }
                    assert(db_rows(*self) =~= target);
                    lemma_insert_preserves(old_db, *self, t as int, rowv);
                }
                Ok(())
            },
        }
    }

    /// Checks an upsert without performing it.
    fn check_upsert(&self, t: usize, row: &Vec<Value>) -> (r: Option<DataError>)
        requires
            db_inv(*self),
        ensures
            r == upsert_check(*self, t as int, row.deep_view()),
    {
        if t >= self.tables.len() {
            return Some(DataError::NoSuchTable);
        }
        assert(row.deep_view().len() == row@.len());
        if row.len() != self.tables[t].columns.len() {
            return Some(DataError::WrongArity);
        }
        assert(pk_wf(self.tables@[t as int]));
        let key = pk_project(&self.tables[t], row);
        let m = self.find_pk(t, &key);
        let ghost rowsv = db_rows(*self)[t as int];
        let ghost td = self.tables@[t as int];
        let mut c: usize = 0;
        while c < self.tables[t].columns.len()
            invariant
                db_inv(*self),
                t < self.tables@.len(),
                td == self.tables@[t as int],
                rowsv == db_rows(*self)[t as int],
                row.deep_view().len() == td.columns@.len(),
                pk_of(td, row.deep_view()) == key.deep_view(),
                match m {
                    Some(j) => j < rowsv.len() && pk_of(td, rowsv[j as int]) == key.deep_view(),
                    None => forall|i: int|
                        0 <= i < rowsv.len() ==> pk_of(td, #[trigger] rowsv[i]) != key.deep_view(),
                },
                c <= td.columns@.len(),
                forall|c2: int, i: int|
                    0 <= c2 < c && td.columns@[c2].unique && !(row.deep_view()[c2] is Null) && 0
                        <= i < rowsv.len() && pk_of(td, rowsv[i]) != pk_of(td, row.deep_view())
                        ==> (#[trigger] rowsv[i][c2]) != row.deep_view()[c2],
            decreases td.columns@.len() - c,
        {
            if self.tables[t].columns[c].unique && !matches!(row[c], Value::Null) {
                assert(row@[c as int]@ == row.deep_view()[c as int]);
                let tbl = &self.rows[t];
                assert(tbl.deep_view() =~= rowsv);
                let mut i: usize = 0;
                while i < tbl.len()
                    invariant
                        db_inv(*self),
                        t < self.tables@.len(),
                        td == self.tables@[t as int],
                        rowsv == db_rows(*self)[t as int],
                        row.deep_view().len() == td.columns@.len(),
                        pk_of(td, row.deep_view()) == key.deep_view(),
                        c < td.columns@.len(),
                        td.columns@[c as int].unique,
                        !(row.deep_view()[c as int] is Null),
                        match m {
                            Some(j) => j < rowsv.len() && pk_of(td, rowsv[j as int])
                                == key.deep_view(),
                            None => forall|i2: int|
                                0 <= i2 < rowsv.len() ==> pk_of(td, #[trigger] rowsv[i2])
                                    != key.deep_view(),
                        },
                        tbl == self.rows@[t as int],
                        tbl.deep_view() == rowsv,
                        i <= rowsv.len(),
                        forall|i2: int|
                            0 <= i2 < i && pk_of(td, #[trigger] rowsv[i2]) != pk_of(
                                td,
                                row.deep_view(),
                            ) ==> rowsv[i2][c as int] != row.deep_view()[c as int],
                    decreases rowsv.len() - i,
                {
                    let skip = match m {
                        Some(j) => i == j,
                        None => false,
                    };
                    assert(tbl.deep_view().len() == tbl@.len());
                    assert(tbl@[i as int].deep_view() == rowsv[i as int]);
                    assert(table_rows_wf(td, rowsv));
                    assert(rowsv[i as int].len() == td.columns@.len());
                    assert(tbl@[i as int].deep_view().len() == tbl@[i as int]@.len());
                    if !skip {
                        proof {
                            if m is Some {
                                let j = m.unwrap() as int;
                                if i as int != j {
                                    assert(pk_of(td, rowsv[i as int]) != pk_of(td, rowsv[j]));
                                }
                            }
                            assert(pk_of(td, rowsv[i as int]) != pk_of(td, row.deep_view()));
                        }
                        if value_eq(&tbl[i][c], &row[c]) {
                            assert(rowsv[i as int][c as int] == row.deep_view()[c as int]);
                            assert(dup_unique_other(td, rowsv, row.deep_view()));
                            return Some(DataError::DuplicateUnique);
                        }
                        assert(rowsv[i as int][c as int] == tbl@[i as int]@[c as int]@);
                    } else {
                        assert(pk_of(td, rowsv[i as int]) == pk_of(td, row.deep_view()));
                    }
                    i += 1;
                }
            }
            c += 1;
        }
        assert(!dup_unique_other(td, rowsv, row.deep_view()));
        if self.enforce_fk {
            if let Some(j) = m {
                let tbl = &self.rows[t];
                assert(tbl.deep_view() =~= rowsv);
                assert(tbl.deep_view().len() == tbl@.len());
                assert(tbl@[j as int].deep_view() == rowsv[j as int]);
                assert(table_rows_wf(td, rowsv));
                assert(rowsv[j as int].len() == td.columns@.len());
                assert(tbl@[j as int].deep_view().len() == tbl@[j as int]@.len());
                let mut e: usize = 0;
                while e < self.fks.len()
                    invariant
                        db_inv(*self),
                        t < self.tables@.len(),
                        self.enforce_fk,
                        td == self.tables@[t as int],
                        rowsv == db_rows(*self)[t as int],
                        row.deep_view().len() == td.columns@.len(),
                        pk_of(td, row.deep_view()) == key.deep_view(),
                        !dup_unique_other(td, rowsv, row.deep_view()),
                        j < rowsv.len(),
                        pk_of(td, rowsv[j as int]) == key.deep_view(),
                        rowsv[j as int].len() == td.columns@.len(),
                        tbl == self.rows@[t as int],
                        tbl.deep_view() == rowsv,
                        e <= self.fks@.len(),
                        forall|e2: int|
                            0 <= e2 < e && (#[trigger] self.fks@[e2]).parent_table == t
                                ==> rowsv[j as int][self.fks@[e2].parent_col as int]
                                == row.deep_view()[self.fks@[e2].parent_col as int],
                    decreases self.fks@.len() - e,
                {
                    let f = &self.fks[e];
                    if f.parent_table == t {
                        assert(fk_wf(self.fks@[e as int], self.tables@));
                        if !value_eq(&tbl[j][f.parent_col], &row[f.parent_col]) {
                            assert(rowsv[j as int][f.parent_col as int]
                                != row.deep_view()[f.parent_col as int]);
                            assert(parent_key_change(*self, t as int, row.deep_view()));
                            return Some(DataError::ParentKeyChange);
                        }
                        assert(rowsv[j as int][f.parent_col as int] == tbl@[j as int]@[f.parent_col as int]@);
                        assert(row.deep_view()[f.parent_col as int] == row@[f.parent_col as int]@);
                    }
                    e += 1;
                }
                proof {
                    assert forall|i: int, e2: int|
                        !(0 <= i < rowsv.len() && pk_of(td, #[trigger] rowsv[i]) == pk_of(
                            td,
                            row.deep_view(),
                        ) && 0 <= e2 < self.fks@.len() && (#[trigger] self.fks@[e2]).parent_table
                            == t && rowsv[i][self.fks@[e2].parent_col as int]
                            != row.deep_view()[self.fks@[e2].parent_col as int]) by {
                        if 0 <= i < rowsv.len() && pk_of(td, rowsv[i]) == pk_of(
                            td,
                            row.deep_view(),
                        ) {
                            if i != j as int {
                                assert(pk_of(td, rowsv[i]) != pk_of(td, rowsv[j as int]));
                            }
                            assert(i == j as int);
                        }
                    }
                    assert(!parent_key_change(*self, t as int, row.deep_view()));
                }
            } else {
                assert(!parent_key_change(*self, t as int, row.deep_view()));
            }
            if self.scan_missing_parent(t, row) {
                return Some(DataError::MissingParent);
            }
        }
        None
    }

    /// Writes the current row for a primary key: replaces the row sharing
    /// the new row's primary key if one exists, and appends otherwise —
    /// never a duplicate. This is the atomic write that keeps at most one
    /// row per key, as leaderboard slots and per-version ratings require.
    pub fn upsert(&mut self, t: usize, row: Vec<Value>) -> (r: Result<(), DataError>)
        requires
            db_inv(*old(self)),
        ensures
            db_inv(*final(self)),
            final(self).tables == old(self).tables,
            final(self).fks == old(self).fks,
            final(self).enforce_fk == old(self).enforce_fk,
            match r {
                Ok(()) => upsert_check(*old(self), t as int, row.deep_view()) is None && t
                    < old(self).tables@.len() && (if dup_pk(
                    old(self).tables@[t as int],
                    db_rows(*old(self))[t as int],
                    row.deep_view(),
                ) {
                    exists|i: int|
                        0 <= i < db_rows(*old(self))[t as int].len() && pk_of(
                            old(self).tables@[t as int],
                            #[trigger] db_rows(*old(self))[t as int][i],
                        ) == pk_of(old(self).tables@[t as int], row.deep_view()) && db_rows(
                            *final(self),
                        ) == db_rows(*old(self)).update(
                            t as int,
                            db_rows(*old(self))[t as int].update(i, row.deep_view()),
                        )
                } else {
                    db_rows(*final(self)) == db_rows(*old(self)).update(
                        t as int,
                        db_rows(*old(self))[t as int].push(row.deep_view()),
                    )
                }),
                Err(e) => Some(e) == upsert_check(*old(self), t as int, row.deep_view()) && *final(self)
                    == *old(self),
            },
    {
        match self.check_upsert(t, &row) {
            Some(e) => Err(e),
            None => {
                let ghost old_db = *self;
                let ghost rowv = row.deep_view();
                assert(t < self.tables@.len());
                assert(self.rows@.len() == self.tables@.len());
                assert(pk_wf(self.tables@[t as int]));
                assert(row.deep_view().len() == row@.len());
                let key = pk_project(&self.tables[t], &row);
                let m = self.find_pk(t, &key);
                match m {
                    Some(i) => {
                        let mut tbl: Vec<Vec<Value>> = Vec::new();
                        self.rows.set_and_swap(t, &mut tbl);
                        tbl.set(i, row);
                        self.rows.set_and_swap(t, &mut tbl);
                        proof {
                            assert(self.rows@ =~= old_db.rows@.update(
                                t as int,
                                self.rows@[t as int],
                            ));
                            let target = db_rows(old_db).update(
                                t as int,
                                db_rows(old_db)[t as int].update(i as int, rowv),
                            );
                            assert forall|t2: int|
                                0 <= t2 < db_rows(*self).len() implies db_rows(*self)[t2]
                                == target[t2] by {
                                if t2 == t {
                                    assert(db_rows(*self)[t2] =~= db_rows(old_db)[t2].update(
                                        i as int,
                                        rowv,
                                    ));
                                } else {
                                    assert(self.rows@[t2] == old_db.rows@[t2]);
                                }
                            }
                            assert(db_rows(*self) =~= target);
                            assert(pk_of(old_db.tables@[t as int], db_rows(old_db)[t as int][i as int])
                                == pk_of(old_db.tables@[t as int], rowv));
                            lemma_upsert_update_preserves(old_db, *self, t as int, i as int, rowv);
                            assert(dup_pk(
                                old_db.tables@[t as int],
                                db_rows(old_db)[t as int],
                                rowv,
                            ));
                        }
                        Ok(())
                    },
                    None => {
                        let mut tbl: Vec<Vec<Value>> = Vec::new();
                        self.rows.set_and_swap(t, &mut tbl);
                        tbl.push(row);
                        self.rows.set_and_swap(t, &mut tbl);
                        proof {
                            assert(self.rows@ =~= old_db.rows@.update(
                                t as int,
                                self.rows@[t as int],
                            ));
                            let target = db_rows(old_db).update(
                                t as int,
                                db_rows(old_db)[t as int].push(rowv),
                            );
                            assert forall|t2: int|
                                0 <= t2 < db_rows(*self).len() implies db_rows(*self)[t2]
                                == target[t2] by {
                                if t2 == t {
                                    assert(db_rows(*self)[t2] =~= db_rows(old_db)[t2].push(rowv));
                                } else {
                                    assert(self.rows@[t2] == old_db.rows@[t2]);
                                }
                            }
                            assert(db_rows(*self) =~= target);
                            assert(!dup_pk(
                                old_db.tables@[t as int],
                                db_rows(old_db)[t as int],
                                rowv,
                            ));
                            assert(!dup_unique(
                                old_db.tables@[t as int],
                                db_rows(old_db)[t as int],
                                rowv,
                            ));
                            lemma_insert_preserves(old_db, *self, t as int, rowv);
                        }
                        Ok(())
                    },
                }
            },
        }
    }

    /// Deletes the row with the given primary-key values and cascades:
    /// every row whose foreign-key cell references a removed row is
    /// removed too, in a single pass over the tables in declared order
    /// (parents before children). On backends whose schema enforces
    /// foreign keys this models the backend's own cascade; elsewhere it is
    /// exactly the application-level emulation the schema calls for.
    /// Rejecting a missing table or key leaves the store untouched.
    pub fn delete(&mut self, t: usize, key: &Vec<Value>) -> (r: Result<(), DataError>)
        requires
            db_inv(*old(self)),
        ensures
            db_inv(*final(self)),
            final(self).tables == old(self).tables,
            final(self).fks == old(self).fks,
            final(self).enforce_fk == old(self).enforce_fk,
            match r {
                Ok(()) => delete_check(*old(self), t as int, key.deep_view()) is None && forall|
                    t2: int,
                |
                    0 <= t2 < old(self).tables@.len() ==> #[trigger] db_rows(*final(self))[t2]
                        == retained(
                        *old(self),
                        t as int,
                        key.deep_view(),
                        t2,
                        db_rows(*old(self))[t2],
                    ),
                Err(e) => Some(e) == delete_check(*old(self), t as int, key.deep_view()) && *final(self)
                    == *old(self),
            },
    {
        if t >= self.tables.len() {
            return Err(DataError::NoSuchTable);
        }
        if self.find_pk(t, key).is_none() {
            assert(!key_present(*self, t as int, key.deep_view()));
            return Err(DataError::NotFound);
        }
        assert(key_present(*self, t as int, key.deep_view()));
        let ghost old_db = *self;
        let ghost keyv = key.deep_view();
        let n = self.tables.len();
        assert(self.rows@.len() == n);
        let mut removed: Vec<Vec<Vec<Value>>> = Vec::new();
        let mut t2: usize = 0;
        while t2 < n
            invariant
                db_inv(old_db),
                self.tables == old_db.tables,
                self.fks == old_db.fks,
                self.enforce_fk == old_db.enforce_fk,
                self.rows@.len() == old_db.rows@.len(),
                n == old_db.tables@.len(),
                t < n,
                keyv == key.deep_view(),
                t2 <= n,
                removed@.len() == t2,
                forall|t3: int|
                    0 <= t3 < t2 ==> (#[trigger] self.rows@[t3]).deep_view() == retained(
                        old_db,
                        t as int,
                        keyv,
                        t3,
                        db_rows(old_db)[t3],
                    ),
                forall|t3: int|
                    0 <= t3 < t2 ==> (#[trigger] removed@[t3]).deep_view() == culled(
                        old_db,
                        t as int,
                        keyv,
                        t3,
                        db_rows(old_db)[t3],
                    ),
                forall|t3: int| t2 <= t3 < n ==> #[trigger] self.rows@[t3] == old_db.rows@[t3],
            decreases n - t2,
        {
            proof {
                lemma_culled_upto_at(old_db, t as int, keyv, t2 as int);
                assert forall|t3: int|
                    0 <= t3 < t2 implies #[trigger] removed.deep_view()[t3] == culled_upto(
                    old_db,
                    t as int,
                    keyv,
                    t2 as int,
                )[t3] by {
                    assert(removed.deep_view()[t3] == removed@[t3].deep_view());
                }
                assert(removed.deep_view() =~= culled_upto(old_db, t as int, keyv, t2 as int));
            }
            let ghost rows_t2 = db_rows(old_db)[t2 as int];
            assert(self.rows@[t2 as int] == old_db.rows@[t2 as int]);
            assert(self.rows@[t2 as int].deep_view() =~= rows_t2);
            assert(table_rows_wf(old_db.tables@[t2 as int], rows_t2));
            let m = self.rows[t2].len();
            assert(m == rows_t2.len());
            let mut keep: Vec<Vec<Value>> = Vec::new();
            let mut gone: Vec<Vec<Value>> = Vec::new();
            let mut i: usize = 0;
            while i < m
                invariant
                    db_inv(old_db),
                    self.tables == old_db.tables,
                    self.fks == old_db.fks,
                    self.rows@.len() == old_db.rows@.len(),
                    n == old_db.tables@.len(),
                    t < n,
                    t2 < n,
                    keyv == key.deep_view(),
                    removed@.len() == t2,
                    removed.deep_view() == culled_upto(old_db, t as int, keyv, t2 as int),
                    rows_t2 == db_rows(old_db)[t2 as int],
                    self.rows@[t2 as int] == old_db.rows@[t2 as int],
                    self.rows@[t2 as int].deep_view() == rows_t2,
                    table_rows_wf(old_db.tables@[t2 as int], rows_t2),
                    m == rows_t2.len(),
                    i <= m,
                    keep.deep_view() == retained(
                        old_db,
                        t as int,
                        keyv,
                        t2 as int,
                        rows_t2.take(i as int),
                    ),
                    gone.deep_view() == culled(
                        old_db,
                        t as int,
                        keyv,
                        t2 as int,
                        rows_t2.take(i as int),
                    ),
                decreases m - i,
            {
                assert(self.rows@[t2 as int].deep_view().len() == self.rows@[t2 as int]@.len());
                assert(self.rows@[t2 as int]@.len() == m);
                assert(self.rows@[t2 as int]@[i as int].deep_view() == rows_t2[i as int]);
                assert(rows_t2[i as int].len() == old_db.tables@[t2 as int].columns@.len());
                let row = crate::schema::clone_row(&self.rows[t2][i]);
                assert(row.deep_view() == rows_t2[i as int]);
                let c = row_condemned_exec(
                    &self.fks,
                    &self.tables,
                    &removed,
                    t,
                    key,
                    t2,
                    &row,
                    Ghost(old_db),
                );
                let ghost keep0 = keep.deep_view();
                let ghost gone0 = gone.deep_view();
                if c {
                    gone.push(row);
                } else {
                    keep.push(row);
                }
                i += 1;
                proof {
                    let taken = rows_t2.take(i as int);
                    assert(taken.drop_last() =~= rows_t2.take(i - 1));
                    assert(taken.last() == rows_t2[i - 1]);
                    if c {
                        assert(gone.deep_view() =~= gone0.push(rows_t2[i - 1]));
                        assert(keep.deep_view() == keep0);
                    } else {
                        assert(keep.deep_view() =~= keep0.push(rows_t2[i - 1]));
                        assert(gone.deep_view() == gone0);
                    }
                    assert(keep.deep_view() == retained(old_db, t as int, keyv, t2 as int, taken));
                    assert(gone.deep_view() == culled(old_db, t as int, keyv, t2 as int, taken));
                }
            }
            proof {
                assert(rows_t2.take(m as int) =~= rows_t2);
            }
            self.rows.set(t2, keep);
            removed.push(gone);
            t2 += 1;
        }
        proof {
            assert forall|t2: int| 0 <= t2 < old_db.tables@.len() implies #[trigger] db_rows(
                *self,
            )[t2] == retained(old_db, t as int, keyv, t2, db_rows(old_db)[t2]) by {
                assert(db_rows(*self)[t2] == self.rows@[t2].deep_view());
            }
            assert forall|t2: int| 0 <= t2 < self.tables@.len() implies table_rows_wf(
                #[trigger] self.tables@[t2],
                db_rows(*self)[t2],
            ) by {
                lemma_keep_wf(
                    old_db,
                    t as int,
                    keyv,
                    t2,
                    culled_upto(old_db, t as int, keyv, t2),
                    old_db.tables@[t2],
                    db_rows(old_db)[t2],
                );
            }
            if self.enforce_fk {
                assert forall|e: int| 0 <= e < self.fks@.len() implies fk_holds(
                    #[trigger] self.fks@[e],
                    db_rows(*self)[self.fks@[e].child_table as int],
                    db_rows(*self)[self.fks@[e].parent_table as int],
                ) by {
                    lemma_retained_fk_holds(old_db, t as int, keyv, e);
                    assert(fk_wf(old_db.fks@[e], old_db.tables@));
                }
            }
            assert(db_inv(*self));
        }
        Ok(())
    }

    /// Inserts two rows into two different tables as one atomic unit: the
    /// second row may reference the first (a score and its extension row
    /// share their id this way). Either both rows are stored or, if either
    /// check fails, the store is left exactly as it was.
    pub fn insert_pair(&mut self, t1: usize, row1: Vec<Value>, t2: usize, row2: Vec<Value>) -> (r:
        Result<(), DataError>)
        requires
            db_inv(*old(self)),
            t1 != t2,
            t2 < old(self).tables@.len(),
        ensures
            db_inv(*final(self)),
            final(self).tables == old(self).tables,
            final(self).fks == old(self).fks,
            final(self).enforce_fk == old(self).enforce_fk,
            final(self).rows@.len() == old(self).rows@.len(),
            match r {
                Ok(()) => insert_check(*old(self), t1 as int, row1.deep_view()) is None
                    && extension_check(
                    *old(self),
                    t1 as int,
                    row1.deep_view(),
                    t2 as int,
                    row2.deep_view(),
                ) is None && db_rows(*final(self)) == db_rows(*old(self)).update(
                    t1 as int,
                    db_rows(*old(self))[t1 as int].push(row1.deep_view()),
                ).update(t2 as int, db_rows(*old(self))[t2 as int].push(row2.deep_view())),
                Err(e) => db_rows(*final(self)) == db_rows(*old(self)) && (if insert_check(
                    *old(self),
                    t1 as int,
                    row1.deep_view(),
                ) is Some {
                    Some(e) == insert_check(*old(self), t1 as int, row1.deep_view())
                } else {
                    Some(e) == extension_check(
                        *old(self),
                        t1 as int,
                        row1.deep_view(),
                        t2 as int,
                        row2.deep_view(),
                    )
                }),
            },
    {
        let ghost old_db = *self;
        let ghost row1v = row1.deep_view();
        let ghost row2v = row2.deep_view();
        match self.insert(t1, row1) {
            Err(e) => Err(e),
            Ok(()) => {
                let ghost mid_db = *self;
                proof {
                    lemma_extension_check(old_db, mid_db, t1 as int, row1v, t2 as int, row2v);
                }
                match self.insert(t2, row2) {
                    Ok(()) => {
                        proof {
                            assert(db_rows(mid_db)[t2 as int] == db_rows(old_db)[t2 as int]);
                        }
                        Ok(())
                    },
                    Err(e) => {
                        assert(t1 < self.rows@.len());
                        let ghost before_pop = *self;
                        let mut tbl: Vec<Vec<Value>> = Vec::new();
                        self.rows.set_and_swap(t1, &mut tbl);
                        tbl.pop();
                        self.rows.set_and_swap(t1, &mut tbl);
                        proof {
                            assert(self.rows@ =~= before_pop.rows@.update(
                                t1 as int,
                                self.rows@[t1 as int],
                            ));
                            assert(self.rows@[t1 as int]@ =~= before_pop.rows@[t1 as int]@.drop_last());
                            assert(before_pop.rows@[t1 as int].deep_view() == db_rows(
                                before_pop,
                            )[t1 as int]);
                            assert(db_rows(before_pop)[t1 as int] == db_rows(old_db)[t1 as int].push(
                                row1v,
                            ));
                            assert(before_pop.rows@[t1 as int].deep_view().len()
                                == before_pop.rows@[t1 as int]@.len());
                            assert forall|t3: int|
                                0 <= t3 < db_rows(*self).len() implies #[trigger] db_rows(*self)[t3]
                                == db_rows(old_db)[t3] by {
                                if t3 == t1 {
                                    assert forall|j: int|
                                        0 <= j < self.rows@[t3]@.len() implies #[trigger] self.rows@[t3]@[j].deep_view()
                                        == db_rows(old_db)[t3][j] by {
                                        assert(self.rows@[t3]@[j]
                                            == before_pop.rows@[t3]@[j]);
                                        assert(before_pop.rows@[t3]@[j].deep_view()
                                            == db_rows(before_pop)[t3][j]);
                                    }
                                    assert(db_rows(*self)[t3] =~= db_rows(old_db)[t3]);
                                } else {
                                    assert(self.rows@[t3] == before_pop.rows@[t3]);
                                    assert(db_rows(before_pop)[t3] == db_rows(mid_db)[t3]);
                                    assert(db_rows(mid_db)[t3] == db_rows(old_db)[t3]);
                                }
                            }
                            assert(db_rows(*self) =~= db_rows(old_db));
                            lemma_db_inv_views(old_db, *self);
                        }
                        Err(e)
                    },
                }
            },
        }
    }

    /// The row with the given primary-key values, if it exists.
    pub fn get(&self, t: usize, key: &Vec<Value>) -> (r: Option<Vec<Value>>)
        requires
            db_inv(*self),
            t < self.tables@.len(),
        ensures
            match r {
                Some(row) => exists|i: int|
                    0 <= i < db_rows(*self)[t as int].len() && row.deep_view()
                        == #[trigger] db_rows(*self)[t as int][i] && pk_of(
                        self.tables@[t as int],
                        db_rows(*self)[t as int][i],
                    ) == key.deep_view(),
                None => forall|i: int|
                    0 <= i < db_rows(*self)[t as int].len() ==> pk_of(
                        self.tables@[t as int],
                        #[trigger] db_rows(*self)[t as int][i],
                    ) != key.deep_view(),
            },
    {
        match self.find_pk(t, key) {
            Some(i) => {
                let row = crate::schema::clone_row(&self.rows[t][i]);
                proof {
                    assert(db_rows(*self)[t as int] =~= self.rows@[t as int].deep_view());
                    assert(row.deep_view() == db_rows(*self)[t as int][i as int]);
                }
                Some(row)
            },
            None => None,
        }
    }
}

} // verus!
