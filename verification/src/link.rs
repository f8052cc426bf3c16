//! The relation linker: the statements that extend a secondary table with
//! the primary table's key columns and populate them with a randomized,
//! load-balanced wrap-around join, the stage machine over one linking
//! attempt, the teardown, and the balance law of the wrap-around
//! assignment.

use vstd::prelude::*;
use vstd::arithmetic::div_mod::lemma_fundamental_div_mod;
use vstd::arithmetic::div_mod::lemma_fundamental_div_mod_converse_div;
use vstd::arithmetic::div_mod::lemma_fundamental_div_mod_converse_mod;
use crate::SynthError;
use crate::registry::Relation;
use crate::registry::RelationRegistry;
use crate::text;
use crate::text::spec_join;

verus! {

/// One primary-key column of the primary table, as the catalog reports it.
#[derive(Debug, Clone)]
pub struct PkColumn {
    /// Column name.
    pub name: String,
    /// The column's SQL type text.
    pub data_type: String,
}

/// The result of lowering a text with `str::to_lowercase`; the result
/// depends on the characters alone.
pub uninterp spec fn lower_of(s: Seq<char>) -> Seq<char>;

/// Relies on `str::to_lowercase`: the lowercase mapping of the text.
#[verifier::external_body]
fn lowercase(s: &str) -> (r: String)
    ensures
        r@ == lower_of(s@),
{
    s.to_lowercase()
}

/// The catalog query for the primary-key column names and types of a
/// table.
pub open spec fn spec_pk_catalog_query(table: Seq<char>) -> Seq<char> {
    "SELECT c.column_name, c.data_type FROM information_schema.table_constraints tc JOIN information_schema.constraint_column_usage ccu ON tc.constraint_name = ccu.constraint_name JOIN information_schema.columns c ON c.table_name = tc.table_name AND ccu.column_name = c.column_name WHERE constraint_type = 'PRIMARY KEY' AND tc.table_name = '"@
        + table + "'"@
}

/// Builds the primary-key catalog query for `table`.
pub fn build_pk_catalog_query(table: &str) -> (r: String)
    ensures
        r@ == spec_pk_catalog_query(table@),
{
    let mut q = String::from_str(
        "SELECT c.column_name, c.data_type FROM information_schema.table_constraints tc JOIN information_schema.constraint_column_usage ccu ON tc.constraint_name = ccu.constraint_name JOIN information_schema.columns c ON c.table_name = tc.table_name AND ccu.column_name = c.column_name WHERE constraint_type = 'PRIMARY KEY' AND tc.table_name = '",
    );
    q.append(table);
    q.append("'");
    proof {
        assert(q@ =~= spec_pk_catalog_query(table@));
    }
    q
}

/// The catalog query for the column names of a table, in declaration
/// order.
pub open spec fn spec_columns_catalog_query(table: Seq<char>) -> Seq<char> {
    "SELECT column_name FROM information_schema.columns WHERE table_name = '"@ + table
        + "' ORDER BY ordinal_position"@
}

/// Builds the column-names catalog query for `table`.
pub fn build_columns_catalog_query(table: &str) -> (r: String)
    ensures
        r@ == spec_columns_catalog_query(table@),
{
    let mut q = String::from_str(
        "SELECT column_name FROM information_schema.columns WHERE table_name = '",
    );
    q.append(table);
    q.append("' ORDER BY ordinal_position");
    proof {
        assert(q@ =~= spec_columns_catalog_query(table@));
    }
    q
}

/// The names of the catalog's primary-key columns.
pub open spec fn spec_pk_names(cols: Seq<PkColumn>) -> Seq<Seq<char>> {
    cols.map_values(|c: PkColumn| c.name@)
}

/// The ADD COLUMN clauses: one per primary-key column, each with the
/// matching type, each followed by a comma.
pub open spec fn spec_add_column_clauses(cols: Seq<PkColumn>) -> Seq<char>
    decreases cols.len(),
{
    if cols.len() == 0 {
        Seq::empty()
    } else {
        spec_add_column_clauses(cols.drop_last()) + "ADD COLUMN "@ + cols.last().name@ + " "@
            + cols.last().data_type@ + ", "@
    }
}

/// The single ALTER statement that adds one column per primary-key column
/// to the secondary table and a cascading foreign-key constraint
/// referencing the primary table.
pub open spec fn spec_alter_add_sql(
    primary: Seq<char>,
    secondary: Seq<char>,
    cols: Seq<PkColumn>,
) -> Seq<char> {
    "ALTER TABLE "@ + secondary + " "@ + spec_add_column_clauses(cols) + "ADD CONSTRAINT "@
        + secondary + "_"@ + primary + "_fk FOREIGN KEY ("@ + spec_join(spec_pk_names(cols), ", "@)
        + ") REFERENCES "@ + primary + " ("@ + spec_join(spec_pk_names(cols), ", "@)
        + ") ON DELETE CASCADE;"@
}

/// Builds the ALTER statement of the extend step.
pub fn build_alter_add_sql(primary: &str, secondary: &str, cols: &Vec<PkColumn>) -> (r: String)
    ensures
        r@ == spec_alter_add_sql(primary@, secondary@, cols@),
{
    let n = cols.len();
    let mut q = String::from_str("ALTER TABLE ");
    q.append(secondary);
    q.append(" ");
    let mut names: Vec<String> = Vec::new();
    let mut i: usize = 0;
    while i < n
        invariant
            i <= n,
            n == cols@.len(),
            q@ == "ALTER TABLE "@ + secondary@ + " "@ + spec_add_column_clauses(
                cols@.take(i as int),
            ),
            names.deep_view() == spec_pk_names(cols@.take(i as int)),
        decreases n - i,
    {
        q.append("ADD COLUMN ");
        q.append(cols[i].name.as_str());
        q.append(" ");
        q.append(cols[i].data_type.as_str());
        q.append(", ");
        let ghost old_dv = names.deep_view();
        names.push(cols[i].name.clone());
        proof {
            let pre = cols@.take(i as int);
            let cur = cols@.take(i + 1 as int);
            assert(cur.drop_last() =~= pre);
            assert(cur.last() == cols@[i as int]);
            assert(q@ =~= "ALTER TABLE "@ + secondary@ + " "@ + spec_add_column_clauses(cur));
            assert(names.deep_view() =~= old_dv.push(cols@[i as int].name@));
            assert(spec_pk_names(cur) =~= spec_pk_names(pre).push(cols@[i as int].name@));
        }
        i += 1;
    }
    proof {
        assert(cols@.take(n as int) =~= cols@);
    }
    let joined = text::join_strings(&names, ", ");
    q.append("ADD CONSTRAINT ");
    q.append(secondary);
    q.append("_");
    q.append(primary);
    q.append("_fk FOREIGN KEY (");
    q.append(joined.as_str());
    q.append(") REFERENCES ");
    q.append(primary);
    q.append(" (");
    q.append(joined.as_str());
    q.append(") ON DELETE CASCADE;");
    proof {
        assert(q@ =~= spec_alter_add_sql(primary@, secondary@, cols@));
    }
    q
}

/// The SET clauses of the populate step: each new column takes the ranked
/// primary row's value.
pub open spec fn spec_set_clauses(names: Seq<Seq<char>>) -> Seq<Seq<char>> {
    names.map_values(|n: Seq<char>| n + " = c."@ + n)
}

/// The populate statement: primary rows are ranked by a random order
/// computed once, target secondary rows are ranked deterministically by
/// the secondary table's first column, and the secondary row at rank r
/// takes the primary row whose random rank is ((r - 1) mod P) + 1.
pub open spec fn spec_populate_sql(
    primary: Seq<char>,
    secondary: Seq<char>,
    pk_names: Seq<Seq<char>>,
    first_secondary: Seq<char>,
) -> Seq<char> {
    "WITH c AS (SELECT "@ + spec_join(pk_names, ", "@)
        + ", ROW_NUMBER() OVER (ORDER BY random()) AS rn FROM "@ + primary + "), o AS (SELECT "@
        + first_secondary + ", ROW_NUMBER() OVER (ORDER BY "@ + first_secondary + ") AS rn FROM "@
        + secondary + " WHERE "@ + pk_names[0] + " IS NULL) UPDATE "@ + secondary + " SET "@
        + spec_join(spec_set_clauses(pk_names), ", "@)
        + " FROM c JOIN o ON c.rn = ((o.rn - 1) % (SELECT COUNT(*) FROM c)) + 1 WHERE "@
        + secondary + "."@ + first_secondary + " = o."@ + first_secondary + ";"@
}

/// Builds the populate statement of the wrap-around join.
pub fn build_populate_sql(
    primary: &str,
    secondary: &str,
    pk_names: &Vec<String>,
    first_secondary: &str,
) -> (r: String)
    requires
        pk_names@.len() > 0,
    ensures
        r@ == spec_populate_sql(primary@, secondary@, pk_names.deep_view(), first_secondary@),
{
    let n = pk_names.len();
    let mut sets: Vec<String> = Vec::new();
    let mut i: usize = 0;
    while i < n
        invariant
            i <= n,
            n == pk_names@.len(),
            sets.deep_view() == spec_set_clauses(pk_names.deep_view().take(i as int)),
        decreases n - i,
    {
        let mut s = String::new();
        s.append(pk_names[i].as_str());
        s.append(" = c.");
        s.append(pk_names[i].as_str());
        proof {
            assert(s@ =~= spec_set_clauses(pk_names.deep_view())[i as int]);
        }
        sets.push(s);
        proof {
            let dv = pk_names.deep_view();
            assert(spec_set_clauses(dv.take(i + 1 as int)) =~= spec_set_clauses(dv.take(i as int)).push(
                spec_set_clauses(dv)[i as int],
            ));
            assert(sets.deep_view() =~= spec_set_clauses(dv.take(i + 1 as int)));
        }
        i += 1;
    }
    proof {
        assert(pk_names.deep_view().take(n as int) =~= pk_names.deep_view());
    }
    let keys = text::join_strings(pk_names, ", ");
    let set_joined = text::join_strings(&sets, ", ");
    let mut q = String::from_str("WITH c AS (SELECT ");
    q.append(keys.as_str());
    q.append(", ROW_NUMBER() OVER (ORDER BY random()) AS rn FROM ");
    q.append(primary);
    q.append("), o AS (SELECT ");
    q.append(first_secondary);
    q.append(", ROW_NUMBER() OVER (ORDER BY ");
    q.append(first_secondary);
    q.append(") AS rn FROM ");
    q.append(secondary);
    q.append(" WHERE ");
    q.append(pk_names[0].as_str());
    q.append(" IS NULL) UPDATE ");
    q.append(secondary);
    q.append(" SET ");
    q.append(set_joined.as_str());
    q.append(" FROM c JOIN o ON c.rn = ((o.rn - 1) % (SELECT COUNT(*) FROM c)) + 1 WHERE ");
    q.append(secondary);
    q.append(".");
    q.append(first_secondary);
    q.append(" = o.");
    q.append(first_secondary);
    q.append(";");
    proof {
        assert(pk_names.deep_view()[0] == pk_names@[0]@);
        assert(q@ =~= spec_populate_sql(
            primary@,
            secondary@,
            pk_names.deep_view(),
            first_secondary@,
        ));
    }
    q
}

/// The teardown statement: drops the foreign-key column named after the
/// lowercased primary table.
pub open spec fn spec_drop_sql(secondary: Seq<char>, primary: Seq<char>) -> Seq<char> {
    "ALTER TABLE "@ + secondary + " DROP COLUMN "@ + lower_of(primary) + "_id"@
}

/// Builds the teardown statement for a recorded relation.
pub fn build_drop_sql(secondary: &str, primary: &str) -> (r: String)
    ensures
        r@ == spec_drop_sql(secondary@, primary@),
{
    let lowered = lowercase(primary);
    let mut q = String::from_str("ALTER TABLE ");
    q.append(secondary);
    q.append(" DROP COLUMN ");
    q.append(lowered.as_str());
    q.append("_id");
    proof {
        assert(q@ =~= spec_drop_sql(secondary@, primary@));
    }
    q
}

/// The stage one linking attempt is at.
#[derive(Debug, Clone, Copy, PartialEq, Eq, Structural)]
pub enum LinkStage {
    /// Waiting for the catalog's primary-key columns and the secondary
    /// table's column list.
    AwaitCatalog,
    /// The ALTER statement was handed out; waiting for its outcome.
    AwaitExtend,
    /// The populate statement was handed out; waiting for its outcome.
    AwaitPopulate,
    /// The relation is linked and recorded.
    Linked,
    /// The attempt failed; no further statement is handed out.
    Failed,
}

/// One linking attempt: the decision core of the linker. The caller runs
/// the statements this machine hands out against the data store and feeds
/// the outcomes back; the three statements are not one atomic unit, so a
/// failure after the extend step leaves the added column in place.
#[derive(Debug)]
pub struct LinkOperation {
    /// The relation being created.
    pub relation: Relation,
    /// The current stage.
    pub stage: LinkStage,
    /// The discovered primary-key columns; non-empty past discovery.
    pub pk_columns: Vec<PkColumn>,
    /// The secondary table's first column, the deterministic rank key.
    pub first_secondary: String,
}

impl LinkOperation {
    /// Past discovery a linking attempt always holds at least one
    /// primary-key column.
    pub open spec fn wf(self) -> bool {
        (self.stage == LinkStage::AwaitExtend || self.stage == LinkStage::AwaitPopulate)
            ==> self.pk_columns@.len() > 0
    }

    /// Starts a linking attempt for `relation`.
    pub fn begin(relation: Relation) -> (op: LinkOperation)
        ensures
            op.wf(),
            op.stage == LinkStage::AwaitCatalog,
            op.relation == relation,
    {
        LinkOperation {
            relation,
            stage: LinkStage::AwaitCatalog,
            pk_columns: Vec::new(),
            first_secondary: String::new(),
        }
    }

    /// Feeds in the catalog's answer: the primary table's key columns and
    /// the secondary table's columns in declaration order, or nothing when
    /// the lookup failed.
    ///
    /// Hands out the ALTER statement of the extend step, or fails with
    /// `CatalogLookupFailed` exactly when the lookup failed or reported no
    /// key column or no secondary column.
    pub fn on_catalog(&mut self, answer: Option<(Vec<PkColumn>, Vec<String>)>) -> (r: Result<
        String,
        SynthError,
    >)
        requires
            old(self).wf(),
            old(self).stage == LinkStage::AwaitCatalog,
        ensures
            final(self).wf(),
            final(self).relation == old(self).relation,
            match answer {
                Some((pk, cols)) => {
                    if pk@.len() > 0 && cols@.len() > 0 {
                        &&& final(self).stage == LinkStage::AwaitExtend
                        &&& final(self).pk_columns@ == pk@
                        &&& final(self).first_secondary@ == cols@[0]@
                        &&& (r matches Ok(stmt) && stmt@ == spec_alter_add_sql(
                            old(self).relation.primary_table@,
                            old(self).relation.secondary_table@,
                            pk@,
                        ))
                    } else {
                        final(self).stage == LinkStage::Failed && r == Err::<String, SynthError>(
                            SynthError::CatalogLookupFailed,
                        )
                    }
                },
                None => final(self).stage == LinkStage::Failed && r == Err::<String, SynthError>(
                    SynthError::CatalogLookupFailed,
                ),
            },
    {
        match answer {
            Some((pk, cols)) => {
                if pk.len() > 0 && cols.len() > 0 {
                    let stmt = build_alter_add_sql(
                        self.relation.primary_table.as_str(),
                        self.relation.secondary_table.as_str(),
                        &pk,
                    );
                    let first = cols[0].clone();
                    self.pk_columns = pk;
                    self.first_secondary = first;
                    self.stage = LinkStage::AwaitExtend;
                    Ok(stmt)
                } else {
                    self.stage = LinkStage::Failed;
                    Err(SynthError::CatalogLookupFailed)
                }
            },
            None => {
                self.stage = LinkStage::Failed;
                Err(SynthError::CatalogLookupFailed)
            },
        }
    }

    /// Feeds in the outcome of the ALTER statement.
    ///
    /// Hands out the populate statement, or fails with `DuplicateColumn`
    /// exactly when the ALTER failed; the column-name collision is the
    /// linker's own failure mode there, and nothing is rolled back.
    pub fn on_extended(&mut self, ok: bool) -> (r: Result<String, SynthError>)
        requires
            old(self).wf(),
            old(self).stage == LinkStage::AwaitExtend,
        ensures
            final(self).wf(),
            final(self).relation == old(self).relation,
            final(self).pk_columns == old(self).pk_columns,
            final(self).first_secondary == old(self).first_secondary,
            ok ==> final(self).stage == LinkStage::AwaitPopulate && (r matches Ok(stmt)
                && stmt@ == spec_populate_sql(
                old(self).relation.primary_table@,
                old(self).relation.secondary_table@,
                spec_pk_names(old(self).pk_columns@),
                old(self).first_secondary@,
            )),
            !ok ==> final(self).stage == LinkStage::Failed && r == Err::<String, SynthError>(
                SynthError::DuplicateColumn,
            ),
    {
        if ok {
            let n = self.pk_columns.len();
            let mut names: Vec<String> = Vec::new();
            let mut i: usize = 0;
            while i < n
                invariant
                    i <= n,
                    n == self.pk_columns@.len(),
                    names.deep_view() == spec_pk_names(self.pk_columns@.take(i as int)),
                decreases n - i,
            {
                let ghost old_dv = names.deep_view();
                names.push(self.pk_columns[i].name.clone());
                proof {
                    let pre = self.pk_columns@.take(i as int);
                    let cur = self.pk_columns@.take(i + 1 as int);
                    assert(cur.drop_last() =~= pre);
                    assert(cur.last() == self.pk_columns@[i as int]);
                    assert(names.deep_view() =~= old_dv.push(self.pk_columns@[i as int].name@));
                    assert(spec_pk_names(cur) =~= spec_pk_names(pre).push(
                        self.pk_columns@[i as int].name@,
                    ));
                }
                i += 1;
            }
            proof {
                assert(self.pk_columns@.take(n as int) =~= self.pk_columns@);
            }
            let stmt = build_populate_sql(
                self.relation.primary_table.as_str(),
                self.relation.secondary_table.as_str(),
                &names,
                self.first_secondary.as_str(),
            );
            self.stage = LinkStage::AwaitPopulate;
            Ok(stmt)
        } else {
            self.stage = LinkStage::Failed;
            Err(SynthError::DuplicateColumn)
        }
    }

    /// Feeds in the outcome of the populate statement.
    ///
    /// On success records the relation in the registry under a fresh id
    /// and returns the id; on failure fails with `StoreFailure`, records
    /// nothing, and leaves the already-extended secondary table as it is.
    pub fn on_populated(&mut self, ok: bool, reg: &mut RelationRegistry) -> (r: Result<
        u64,
        SynthError,
    >)
        requires
            old(self).wf(),
            old(self).stage == LinkStage::AwaitPopulate,
            old(reg).wf(),
            old(reg).spec_ids_left() > 0,
        ensures
            final(self).wf(),
            final(self).relation == old(self).relation,
            final(reg).wf(),
            ok ==> final(self).stage == LinkStage::Linked && (r matches Ok(id)
                && !old(reg).spec_map().contains_key(id) && final(reg).spec_map() == old(
                reg,
            ).spec_map().insert(id, old(self).relation)),
            !ok ==> final(self).stage == LinkStage::Failed && r == Err::<u64, SynthError>(
                SynthError::StoreFailure,
            ) && *final(reg) == *old(reg),
    {
        if ok {
            let id = reg.insert(self.relation.duplicate());
            self.stage = LinkStage::Linked;
            Ok(id)
        } else {
            self.stage = LinkStage::Failed;
            Err(SynthError::StoreFailure)
        }
    }
}

/// Tears a recorded relation down: deletes its registry record and hands
/// out the statement that drops the foreign-key column, or reports
/// `RelationNotFound` leaving the registry unchanged.
pub fn unlink_relation(reg: &mut RelationRegistry, id: u64) -> (r: Result<
    (Relation, String),
    SynthError,
>)
    requires
        old(reg).wf(),
    ensures
        final(reg).wf(),
        match r {
            Ok((rel, stmt)) => old(reg).spec_map().contains_key(id) && rel == old(
                reg,
            ).spec_map()[id] && final(reg).spec_map() == old(reg).spec_map().remove(id)
                && stmt@ == spec_drop_sql(rel.secondary_table@, rel.primary_table@),
            Err(e) => e == SynthError::RelationNotFound && !old(reg).spec_map().contains_key(id)
                && *final(reg) == *old(reg),
        },
{
    let rel = match reg.remove(id) {
        Ok(rel) => rel,
        Err(e) => {
            return Err(e);
        },
    };
    let stmt = build_drop_sql(rel.secondary_table.as_str(), rel.primary_table.as_str());
    Ok((rel, stmt))
}

/// The wrap-around assignment: the secondary row at zero-based rank `i`
/// takes the primary row at zero-based random rank `i mod p`, so every
/// secondary row receives an assignment whatever the relative sizes.
pub fn wrap_assign(p: usize, s: usize) -> (r: Vec<usize>)
    requires
        1 <= p,
    ensures
        r@.len() == s,
        forall|i: int| 0 <= i < s ==> #[trigger] r@[i] == i % (p as int),
{
    let mut r: Vec<usize> = Vec::new();
    let mut i: usize = 0;
    while i < s
        invariant
            i <= s,
            1 <= p,
            r@.len() == i,
            forall|j: int| 0 <= j < i ==> #[trigger] r@[j] == j % (p as int),
        decreases s - i,
    {
        r.push(i % p);
        i += 1;
    }
    r
}

/// How many of the ranks below `s` the wrap-around assignment sends to the
/// primary rank `k`.
pub open spec fn spec_use_count(s: nat, p: nat, k: nat) -> nat
    decreases s,
{
    if s == 0 {
        0
    } else {
        spec_use_count((s - 1) as nat, p, k) + if (s - 1) as nat % p == k {
            1nat
        } else {
            0nat
        }
    }
}

/// The exact use count of each primary rank: the whole wraps plus one when
/// the rank falls inside the final partial wrap.
pub proof fn lemma_use_count_exact(s: nat, p: nat, k: nat)
    requires
        1 <= p,
        k < p,
    ensures
        spec_use_count(s, p, k) == s / p + if k < s % p {
            1int
        } else {
            0int
        },
    decreases s,
{
    if s == 0 {
        lemma_fundamental_div_mod_converse_div(0, p as int, 0, 0);
        lemma_fundamental_div_mod_converse_mod(0, p as int, 0, 0);
    } else {
        let s1 = (s - 1) as nat;
        lemma_use_count_exact(s1, p, k);
        lemma_fundamental_div_mod(s1 as int, p as int);
        let q = s1 as int / p as int;
        let m = s1 as int % p as int;
        assert(0 <= m < p as int) by {
            vstd::arithmetic::div_mod::lemma_mod_bound(s1 as int, p as int);
        }
        assert(s as int == q * p + (m + 1));
        if m + 1 < p as int {
            lemma_fundamental_div_mod_converse_div(s as int, p as int, q, m + 1);
            lemma_fundamental_div_mod_converse_mod(s as int, p as int, q, m + 1);
        } else {
            assert(s as int == (q + 1) * p + 0) by (nonlinear_arith)
                requires
                    s as int == q * p + (m + 1),
                    m + 1 == p as int,
            ;
            lemma_fundamental_div_mod_converse_div(s as int, p as int, q + 1, 0);
            lemma_fundamental_div_mod_converse_mod(s as int, p as int, q + 1, 0);
        }
    }
}

/// Link distribution law: over `s` secondary ranks and `p` primary ranks,
/// every primary rank is used at least `floor(s/p)` times and at most
/// `ceil(s/p)` times; when `p` divides `s` the distribution is exact.
pub proof fn lemma_wrap_distribution(s: nat, p: nat, k: nat)
    requires
        1 <= p,
        k < p,
    ensures
        spec_use_count(s, p, k) >= s / p,
        spec_use_count(s, p, k) <= s / p + 1,
        s % p == 0 ==> spec_use_count(s, p, k) == s / p,
        s % p != 0 ==> spec_use_count(s, p, k) == s / p + if k < s % p {
            1int
        } else {
            0int
        },
{
    lemma_use_count_exact(s, p, k);
}

/// How often `k` occurs in the assignment `r`.
pub open spec fn spec_count_eq(r: Seq<usize>, k: nat) -> nat
    decreases r.len(),
{
    if r.len() == 0 {
        0
    } else {
        spec_count_eq(r.drop_last(), k) + if r.last() as nat == k {
            1nat
        } else {
            0nat
        }
    }
}

/// The occurrences of `k` in a wrap-around assignment are its use count.
pub proof fn lemma_count_eq_wrap(r: Seq<usize>, p: nat, k: nat)
    requires
        1 <= p,
        forall|i: int| 0 <= i < r.len() ==> #[trigger] r[i] == i % (p as int),
    ensures
        spec_count_eq(r, k) == spec_use_count(r.len(), p, k),
    decreases r.len(),
{
    if r.len() > 0 {
        assert(forall|i: int|
            0 <= i < r.drop_last().len() ==> #[trigger] r.drop_last()[i] == r[i]);
        lemma_count_eq_wrap(r.drop_last(), p, k);
    }
}

/// A table's columns after the extend step: the added columns sit at the
/// end, in order.
pub open spec fn spec_columns_after_add(
    cols: Seq<Seq<char>>,
    added: Seq<Seq<char>>,
) -> Seq<Seq<char>> {
    cols + added
}

/// Keeps every column but `name`.
pub open spec fn spec_keep_other(name: Seq<char>) -> spec_fn(Seq<char>) -> bool {
    |c: Seq<char>| c != name
}

/// A table's columns after one named column is dropped.
pub open spec fn spec_columns_after_drop(cols: Seq<Seq<char>>, name: Seq<char>) -> Seq<
    Seq<char>,
> {
    cols.filter(spec_keep_other(name))
}

/// A filter that keeps every element keeps the whole list.
proof fn lemma_filter_keeps_all(cols: Seq<Seq<char>>, name: Seq<char>)
    requires
        forall|i: int| 0 <= i < cols.len() ==> cols[i] != name,
    ensures
        cols.filter(spec_keep_other(name)) == cols,
    decreases cols.len(),
{
    reveal(Seq::filter);
    if cols.len() > 0 {
        assert(forall|i: int| 0 <= i < cols.drop_last().len() ==> cols.drop_last()[i] == cols[i]);
        lemma_filter_keeps_all(cols.drop_last(), name);
        assert(cols[cols.len() - 1] != name);
        assert(spec_keep_other(name)(cols.last()));
        assert(cols.filter(spec_keep_other(name)) =~= cols);
    }
}

/// Unlinking immediately after linking undoes it: dropping the added
/// foreign-key column restores the secondary table's columns, and deleting
/// the fresh registry record restores the registry's map.
pub proof fn lemma_unlink_reverses_link(
    cols: Seq<Seq<char>>,
    fk: Seq<char>,
    m: Map<u64, Relation>,
    id: u64,
    rel: Relation,
)
    requires
        !cols.contains(fk),
        !m.contains_key(id),
    ensures
        spec_columns_after_drop(spec_columns_after_add(cols, seq![fk]), fk) == cols,
        m.insert(id, rel).remove(id) == m,
{
    reveal(Seq::filter);
    let pred = spec_keep_other(fk);
    let one = seq![fk];
    Seq::<Seq<char>>::filter_distributes_over_add(cols, one, pred);
    assert(forall|i: int| 0 <= i < cols.len() ==> cols[i] != fk);
    lemma_filter_keeps_all(cols, fk);
    assert(one.filter(pred) =~= Seq::<Seq<char>>::empty()) by {
        reveal(Seq::filter);
        assert(one.drop_last() =~= Seq::<Seq<char>>::empty());
        assert(one.drop_last().filter(pred) =~= Seq::<Seq<char>>::empty());
        assert(!pred(one.last()));
    }
    assert(spec_columns_after_drop(spec_columns_after_add(cols, one), fk) =~= cols);
    assert(m.insert(id, rel).remove(id) =~= m);
}

} // verus!
