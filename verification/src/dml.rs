//! The bulk loader: turns generated rows into one INSERT statement that
//! lists only the non-auto-increment column names and one quoted value
//! tuple per row.

use vstd::prelude::*;
use crate::SynthError;
use crate::kind;
use crate::rows::spec_gen_fields;
use crate::schema::FieldSpec;
use crate::schema::TableSpec;
use crate::schema::spec_all_resolve;
use crate::schema::spec_field_kind;
use crate::text;
use crate::text::spec_join;

verus! {

/// The insert column names: one per non-auto-increment field, in
/// declaration order.
pub open spec fn spec_gen_names(fs: Seq<FieldSpec>) -> Seq<Seq<char>> {
    spec_gen_fields(fs).map_values(|f: FieldSpec| f.name@)
}

/// One value tuple: the row's values joined as quoted literals.
pub open spec fn spec_tuple(row: Seq<Seq<char>>) -> Seq<char> {
    "'"@ + spec_join(row, "', '"@) + "'"@
}

/// The value tuples of all rows, in order.
pub open spec fn spec_tuples(rows: Seq<Seq<Seq<char>>>) -> Seq<Seq<char>>
    decreases rows.len(),
{
    if rows.len() == 0 {
        Seq::empty()
    } else {
        spec_tuples(rows.drop_last()).push(spec_tuple(rows.last()))
    }
}

/// The complete INSERT statement for `t` and `rows`.
pub open spec fn spec_insert_stmt(t: TableSpec, rows: Seq<Seq<Seq<char>>>) -> Seq<char> {
    "INSERT INTO "@ + t.name@ + " ("@ + spec_join(spec_gen_names(t.fields@), ", "@)
        + ") VALUES ("@ + spec_join(spec_tuples(rows), "), ("@) + ");"@
}

/// Builds the single INSERT statement for `t` over `rows`.
///
/// Fails with `UnsupportedFieldKind` exactly when some field's kind name
/// does not resolve; otherwise the returned text is the complete statement
/// with one column per non-auto-increment field and one tuple per row.
pub fn build_insert(t: &TableSpec, rows: &Vec<Vec<String>>) -> (r: Result<String, SynthError>)
    ensures
        spec_all_resolve(t.fields@) ==> (r matches Ok(s) && s@ == spec_insert_stmt(
            *t,
            rows.deep_view(),
        )),
        !spec_all_resolve(t.fields@) ==> r == Err::<String, SynthError>(
            SynthError::UnsupportedFieldKind,
        ),
{
    let n = t.fields.len();
    let mut names: Vec<String> = Vec::new();
    let mut i: usize = 0;
    while i < n
        invariant
            i <= n,
            n == t.fields@.len(),
            names.deep_view() == spec_gen_names(t.fields@.take(i as int)),
            forall|j: int| 0 <= j < i ==> #[trigger] spec_field_kind(t.fields@[j]) is Some,
        decreases n - i,
    {
        let f = &t.fields[i];
        let k = match kind::resolve(f.kind.as_str()) {
            Ok(k) => k,
            Err(e) => {
                proof {
                    assert(spec_field_kind(t.fields@[i as int]) is None);
                    assert(!spec_all_resolve(t.fields@));
                }
                return Err(e);
            },
        };
        let ghost old_dv = names.deep_view();
        let auto = kind::is_auto_increment(k);
        if !auto {
            names.push(f.name.clone());
            proof {
                assert(names.deep_view() =~= old_dv.push(f.name@));
            }
        }
        proof {
            let pre = t.fields@.take(i as int);
            let cur = t.fields@.take(i + 1 as int);
            assert(cur.drop_last() =~= pre);
            assert(cur.last() == t.fields@[i as int]);
            if auto {
                assert(spec_gen_fields(cur) == spec_gen_fields(pre));
                assert(names.deep_view() =~= spec_gen_names(cur));
            } else {
                assert(spec_gen_fields(cur) == spec_gen_fields(pre).push(t.fields@[i as int]));
                assert(spec_gen_names(cur) =~= spec_gen_names(pre).push(t.fields@[i as int].name@));
                assert(names.deep_view() =~= spec_gen_names(cur));
            }
        }
        i += 1;
    }
    proof {
        assert(t.fields@.take(n as int) =~= t.fields@);
    }
    let m = rows.len();
    let mut tuples: Vec<String> = Vec::new();
    let mut ri: usize = 0;
    while ri < m
        invariant
            ri <= m,
            m == rows@.len(),
            tuples.deep_view() == spec_tuples(rows.deep_view().take(ri as int)),
        decreases m - ri,
    {
        let joined = text::join_strings(&rows[ri], "', '");
        let mut tp = String::from_str("'");
        tp.append(joined.as_str());
        tp.append("'");
        proof {
            let dv = rows.deep_view();
            assert(dv[ri as int] =~= rows@[ri as int].deep_view());
            assert(tp@ =~= spec_tuple(dv[ri as int]));
            let pre = dv.take(ri as int);
            let cur = dv.take(ri + 1 as int);
            assert(cur.drop_last() =~= pre);
            assert(cur.last() == dv[ri as int]);
        }
        tuples.push(tp);
        proof {
            assert(tuples.deep_view() =~= spec_tuples(rows.deep_view().take(ri + 1 as int)));
        }
        ri += 1;
    }
    proof {
        assert(rows.deep_view().take(m as int) =~= rows.deep_view());
    }
    let names_joined = text::join_strings(&names, ", ");
    let tuples_joined = text::join_strings(&tuples, "), (");
    let mut q = String::from_str("INSERT INTO ");
    q.append(t.name.as_str());
    q.append(" (");
    q.append(names_joined.as_str());
    q.append(") VALUES (");
    q.append(tuples_joined.as_str());
    q.append(");");
    proof {
        assert(q@ =~= spec_insert_stmt(*t, rows.deep_view()));
    }
    Ok(q)
}

/// A generated row lines up with the insert column list: one value per
/// non-auto-increment field, in the same order.
pub proof fn lemma_row_matches_insert_columns(fields: Seq<FieldSpec>, row: Seq<Seq<char>>)
    requires
        crate::rows::spec_row_ok(fields, row),
    ensures
        row.len() == spec_gen_names(fields).len(),
{
}

} // verus!
