//! The schema compiler: turns a `TableSpec` into CREATE TABLE text, with
//! one column definition per field in declaration order, an optional
//! verbatim fragment at the head of the body, and a single composite
//! PRIMARY KEY clause listing every key field.

use vstd::prelude::*;
use crate::SynthError;
use crate::config::GenConfig;
use crate::config::spec_opt_or;
use crate::kind;
use crate::kind::ColumnClass;
use crate::kind::FieldKind;
use crate::schema::FieldSpec;
use crate::schema::TableSpec;
use crate::schema::spec_all_resolve;
use crate::schema::spec_field_kind;
use crate::schema::spec_is_primary;
use crate::schema::spec_marked_not_null;
use crate::text;
use crate::text::spec_int_chars;
use crate::text::spec_join;

verus! {

/// The SQL type text of a column: the kind's column class, with bounded
/// character columns sized to the configured maximum length (default 255).
pub open spec fn spec_column_type_sql(k: FieldKind, c: GenConfig) -> Seq<char> {
    match kind::spec_column_class(k) {
        ColumnClass::Varchar => "VARCHAR("@ + spec_int_chars(spec_opt_or(c.max_length, 255))
            + ")"@,
        ColumnClass::LatitudeDecimal => "DECIMAL(8,6)"@,
        ColumnClass::LongitudeDecimal => "DECIMAL(9,6)"@,
        ColumnClass::BooleanCol => "BOOLEAN"@,
        ColumnClass::TextCol => "TEXT"@,
        ColumnClass::IntegerCol => "INT"@,
        ColumnClass::SerialCol => "SERIAL"@,
        ColumnClass::FloatCol => "FLOAT"@,
        ColumnClass::BigIntCol => "BIGINT"@,
        ColumnClass::TimeCol => "Time"@,
        ColumnClass::DateCol => "DATE"@,
        ColumnClass::TimestampCol => "TIMESTAMP"@,
    }
}

/// One column definition: name, a space, the type text, and the NOT NULL
/// marker unless the field is explicitly marked nullable.
pub open spec fn spec_column_def(f: FieldSpec) -> Seq<char> {
    f.name@ + " "@ + spec_column_type_sql(spec_field_kind(f).unwrap(), f.config) + (
    if spec_marked_not_null(f) {
        " NOT NULL "@
    } else {
        Seq::<char>::empty()
    })
}

/// The column definitions of `fs`, in declaration order.
pub open spec fn spec_column_defs(fs: Seq<FieldSpec>) -> Seq<Seq<char>>
    decreases fs.len(),
{
    if fs.len() == 0 {
        Seq::empty()
    } else {
        spec_column_defs(fs.drop_last()).push(spec_column_def(fs.last()))
    }
}

/// The names of the primary-key fields of `fs`, in declaration order.
pub open spec fn spec_pk_names(fs: Seq<FieldSpec>) -> Seq<Seq<char>>
    decreases fs.len(),
{
    if fs.len() == 0 {
        Seq::empty()
    } else if spec_is_primary(fs.last()) {
        spec_pk_names(fs.drop_last()).push(fs.last().name@)
    } else {
        spec_pk_names(fs.drop_last())
    }
}

/// The PRIMARY KEY clause: one composite clause naming every key field,
/// empty when no field is marked primary.
pub open spec fn spec_pk_clause(fs: Seq<FieldSpec>) -> Seq<char> {
    if spec_pk_names(fs).len() > 0 {
        ", PRIMARY KEY("@ + spec_join(spec_pk_names(fs), ", "@) + ")"@
    } else {
        Seq::<char>::empty()
    }
}

/// The body of the CREATE TABLE statement: the verbatim fragment first
/// when present, then the joined column definitions.
pub open spec fn spec_table_body(t: TableSpec) -> Seq<char> {
    let defs = spec_join(spec_column_defs(t.fields@), ", "@);
    match t.raw_ddl_fragment {
        Some(raw) => raw@ + ", "@ + defs,
        None => defs,
    }
}

/// The complete CREATE TABLE statement for `t`.
pub open spec fn spec_create_table(t: TableSpec) -> Seq<char> {
    "CREATE TABLE "@ + t.name@ + " ("@ + spec_table_body(t) + spec_pk_clause(t.fields@)
        + ");"@
}

/// The SQL type text of one resolved field.
fn column_type_sql(k: FieldKind, c: &GenConfig) -> (r: String)
    ensures
        r@ == spec_column_type_sql(k, *c),
{
    match kind::column_class(k) {
        ColumnClass::Varchar => {
            let m: i32 = match c.max_length {
                Some(v) => v,
                None => 255,
            };
            let mut s = String::from_str("VARCHAR(");
            let digits = text::i64_chars(m as i64);
            let ds = text::chars_to_string(&digits);
            s.append(ds.as_str());
            s.append(")");
            assert(s@ =~= spec_column_type_sql(k, *c));
            s
        },
        ColumnClass::LatitudeDecimal => String::from_str("DECIMAL(8,6)"),
        ColumnClass::LongitudeDecimal => String::from_str("DECIMAL(9,6)"),
        ColumnClass::BooleanCol => String::from_str("BOOLEAN"),
        ColumnClass::TextCol => String::from_str("TEXT"),
        ColumnClass::IntegerCol => String::from_str("INT"),
        ColumnClass::SerialCol => String::from_str("SERIAL"),
        ColumnClass::FloatCol => String::from_str("FLOAT"),
        ColumnClass::BigIntCol => String::from_str("BIGINT"),
        ColumnClass::TimeCol => String::from_str("Time"),
        ColumnClass::DateCol => String::from_str("DATE"),
        ColumnClass::TimestampCol => String::from_str("TIMESTAMP"),
    }
}

/// Compiles `t` into its CREATE TABLE statement.
///
/// Fails with `UnsupportedFieldKind` exactly when some field's kind name
/// does not resolve in the registry; otherwise the returned text is the
/// complete statement for `t`.
pub fn compile_create_table(t: &TableSpec) -> (r: Result<String, SynthError>)
    ensures
        spec_all_resolve(t.fields@) ==> (r matches Ok(s) && s@ == spec_create_table(*t)),
        !spec_all_resolve(t.fields@) ==> r == Err::<String, SynthError>(
            SynthError::UnsupportedFieldKind,
        ),
{
    let n = t.fields.len();
    let mut defs: Vec<String> = Vec::new();
    let mut pks: Vec<String> = Vec::new();
    let mut i: usize = 0;
    while i < n
        invariant
            i <= n,
            n == t.fields@.len(),
            defs.deep_view() == spec_column_defs(t.fields@.take(i as int)),
            pks.deep_view() == spec_pk_names(t.fields@.take(i as int)),
            forall|j: int| 0 <= j < i ==> #[trigger] spec_field_kind(t.fields@[j]) is Some,
        decreases n - i,
    {
        let f = &t.fields[i];
        let k = match kind::resolve(f.kind.as_str()) {
            Ok(k) => k,
            Err(e) => {
                assert(spec_field_kind(t.fields@[i as int]) is None);
                return Err(e);
            },
        };
        let mut d = String::new();
        d.append(f.name.as_str());
        d.append(" ");
        let ty = column_type_sql(k, &f.config);
        d.append(ty.as_str());
        let marked = match f.attributes.is_not_null {
            Some(b) => b,
            None => true,
        };
        if marked {
            d.append(" NOT NULL ");
        }
        proof {
            assert(d@ =~= spec_column_def(t.fields@[i as int]));
        }
        defs.push(d);
        let primary = match f.attributes.is_primary {
            Some(b) => b,
            None => false,
        };
        if primary {
            pks.push(f.name.clone());
        }
        proof {
            let pre = t.fields@.take(i as int);
            let cur = t.fields@.take(i + 1 as int);
            assert(cur.drop_last() =~= pre);
            assert(cur.last() == t.fields@[i as int]);
            assert(defs.deep_view() =~= spec_column_defs(cur));
            assert(pks.deep_view() =~= spec_pk_names(cur));
        }
        i += 1;
    }
    proof {
        assert(t.fields@.take(n as int) =~= t.fields@);
    }
    let joined = text::join_strings(&defs, ", ");
    let mut q = String::from_str("CREATE TABLE ");
    q.append(t.name.as_str());
    q.append(" (");
    match &t.raw_ddl_fragment {
        Some(raw) => {
            q.append(raw.as_str());
            q.append(", ");
        },
        None => {},
    }
    q.append(joined.as_str());
    if pks.len() > 0 {
        let pk_join = text::join_strings(&pks, ", ");
        q.append(", PRIMARY KEY(");
        q.append(pk_join.as_str());
        q.append(")");
    }
    q.append(");");
    proof {
        assert(q@ =~= spec_create_table(*t));
    }
    Ok(q)
}

/// Compiles `t` only when no table of that name exists yet: an existing
/// table is never altered, extended or validated against the new
/// declaration, so the whole compilation is skipped.
pub fn compile_if_missing(t: &TableSpec, table_exists: bool) -> (r: Result<
    Option<String>,
    SynthError,
>)
    ensures
        table_exists ==> r == Ok::<Option<String>, SynthError>(None),
        !table_exists && spec_all_resolve(t.fields@) ==> (r matches Ok(Some(s)) && s@
            == spec_create_table(*t)),
        !table_exists && !spec_all_resolve(t.fields@) ==> r == Err::<Option<String>, SynthError>(
            SynthError::UnsupportedFieldKind,
        ),
{
    if table_exists {
        return Ok(None);
    }
    match compile_create_table(t) {
        Ok(s) => Ok(Some(s)),
        Err(e) => Err(e),
    }
}

} // verus!
