//! The dynamic value model and the two type-system bridges: marshalling a
//! dynamic value onto a store bind parameter, and decoding a result cell
//! back into a dynamic value.

use vstd::prelude::*;

verus! {

/// A dynamically typed value, as the caller-facing boundary hands it in and
/// as `select` hands rows back.
///
/// `Real` carries the store's native floating-point value opaquely: this
/// layer never computes with it, it only moves it between the caller and
/// the store.  `Structured` holds the textual serialization of a nested
/// value; such values never round-trip structurally through this layer.
pub enum DynValue {
    Text(String),
    Int(i64),
    Real(rusqlite::types::Value),
    Bool(bool),
    Null,
    Structured(String),
}

/// A store-native bind parameter: one of SQLite's storage classes, as a
/// parameter can be bound.  `Real` carries the store's own value opaquely.
pub enum BindParam {
    Text(String),
    Integer(i64),
    Real(rusqlite::types::Value),
    Null,
}

/// One cell of a result row, under the storage class the store actually
/// used for it — not the column's declared type.
pub enum SqlCell {
    Null,
    Integer(i64),
    Real(rusqlite::types::Value),
    Text(String),
    Blob(Vec<u8>),
}

/// How a single dynamic value is marshalled onto a bind parameter:
/// a string binds as text, verbatim; an integer as a signed 64-bit
/// integer; a real as the store's floating-point form; a boolean as the
/// store's truth values 1 and 0; null as the null marker; and a nested
/// structured value degrades to its textual serialization, bound as text.
pub open spec fn marshal_spec(v: DynValue) -> BindParam {
    match v {
        DynValue::Text(s) => BindParam::Text(s),
        DynValue::Int(i) => BindParam::Integer(i),
        DynValue::Real(r) => BindParam::Real(r),
        DynValue::Bool(b) => if b {
            BindParam::Integer(1)
        } else {
            BindParam::Integer(0)
        },
        DynValue::Null => BindParam::Null,
        DynValue::Structured(s) => BindParam::Text(s),
    }
}

/// Marshals one dynamic value onto the bind parameter `marshal_spec` gives.
pub fn marshal_value(v: DynValue) -> (r: BindParam)
    ensures
        r == marshal_spec(v),
{
    match v {
        DynValue::Text(s) => BindParam::Text(s),
        DynValue::Int(i) => BindParam::Integer(i),
        DynValue::Real(r) => BindParam::Real(r),
        DynValue::Bool(b) => if b {
            BindParam::Integer(1)
        } else {
            BindParam::Integer(0)
        },
        DynValue::Null => BindParam::Null,
        DynValue::Structured(s) => BindParam::Text(s),
    }
}

/// Marshals an ordered sequence of dynamic values positionally, preserving
/// order and count.
pub fn marshal_params(params: Vec<DynValue>) -> (r: Vec<BindParam>)
    ensures
        r@.len() == params@.len(),
        forall|i: int| 0 <= i < params@.len() ==> r@[i] == marshal_spec(#[trigger] params@[i]),
{
    let ghost orig = params@;
    let mut rest = params;
    let mut out: Vec<BindParam> = Vec::new();
    while rest.len() > 0
        invariant
            out@.len() + rest@.len() == orig.len(),
            forall|i: int| 0 <= i < out@.len() ==> out@[i] == marshal_spec(#[trigger] orig[i]),
            forall|i: int| 0 <= i < rest@.len() ==> #[trigger] rest@[i] == orig[out@.len() + i],
        decreases rest@.len(),
    {
        let v = rest.remove(0);
        out.push(marshal_value(v));
    }
    out
}

/// How one result cell decodes into a dynamic value.  The decoder tries
/// interpretations in a fixed priority order — text, then integer, then
/// real — and the first one the cell's storage class admits wins; a cell
/// that admits none of them (a blob) decodes to null.  Because the
/// storage class of the cell, not the column's declared type, decides,
/// one column can yield different value kinds across rows.
pub open spec fn decode_spec(c: SqlCell) -> DynValue {
    match c {
        SqlCell::Text(s) => DynValue::Text(s),
        SqlCell::Integer(i) => DynValue::Int(i),
        SqlCell::Real(r) => DynValue::Real(r),
        SqlCell::Null => DynValue::Null,
        SqlCell::Blob(_) => DynValue::Null,
    }
}

/// Decodes one result cell into the dynamic value `decode_spec` gives.
pub fn decode_cell(c: SqlCell) -> (r: DynValue)
    ensures
        r == decode_spec(c),
{
    match c {
        SqlCell::Text(s) => DynValue::Text(s),
        SqlCell::Integer(i) => DynValue::Int(i),
        SqlCell::Real(r) => DynValue::Real(r),
        SqlCell::Null => DynValue::Null,
        SqlCell::Blob(_) => DynValue::Null,
    }
}

/// Decodes one result row: pairs each column name with the decoded cell,
/// in declared column order.
pub fn decode_row(names: &Vec<String>, cells: Vec<SqlCell>) -> (r: Vec<(String, DynValue)>)
    requires
        names@.len() == cells@.len(),
    ensures
        r@.len() == names@.len(),
        forall|i: int| 0 <= i < r@.len() ==> (#[trigger] r@[i]).0 == names@[i]
            && r@[i].1 == decode_spec(cells@[i]),
{
    let ghost orig = cells@;
    let mut rest = cells;
    let mut out: Vec<(String, DynValue)> = Vec::new();
    while rest.len() > 0
        invariant
            out@.len() + rest@.len() == orig.len(),
            orig.len() == names@.len(),
            forall|i: int| 0 <= i < out@.len() ==> (#[trigger] out@[i]).0 == names@[i]
                && out@[i].1 == decode_spec(orig[i]),
            forall|i: int| 0 <= i < rest@.len() ==> #[trigger] rest@[i] == orig[out@.len() + i],
        decreases rest@.len(),
    {
        let i: usize = out.len();
        let cell = rest.remove(0);
        let name = names[i].clone();
        out.push((name, decode_cell(cell)));
    }
    out
}

/// Decodes a whole result table: every row is paired with the same column
/// names, in declared order, and every cell through `decode_spec`.
pub fn decode_table(names: &Vec<String>, table: Vec<Vec<SqlCell>>) -> (r: Vec<
    Vec<(String, DynValue)>,
>)
    requires
        forall|i: int| 0 <= i < table@.len() ==> (#[trigger] table@[i])@.len() == names@.len(),
    ensures
        r@.len() == table@.len(),
        forall|i: int| 0 <= i < r@.len() ==> (#[trigger] r@[i])@.len() == names@.len(),
        forall|i: int, j: int| 0 <= i < r@.len() && 0 <= j < names@.len()
            ==> (#[trigger] r@[i]@[j]).0 == names@[j] && r@[i]@[j].1 == decode_spec(
            table@[i]@[j],
        ),
{
    let ghost orig = table@;
    let mut rest = table;
    let mut out: Vec<Vec<(String, DynValue)>> = Vec::new();
    while rest.len() > 0
        invariant
            out@.len() + rest@.len() == orig.len(),
            forall|i: int| 0 <= i < orig.len() ==> (#[trigger] orig[i])@.len() == names@.len(),
            forall|i: int| 0 <= i < out@.len() ==> (#[trigger] out@[i])@.len() == names@.len(),
            forall|i: int, j: int| 0 <= i < out@.len() && 0 <= j < names@.len()
                ==> (#[trigger] out@[i]@[j]).0 == names@[j] && out@[i]@[j].1 == decode_spec(
                orig[i]@[j],
            ),
            forall|i: int| 0 <= i < rest@.len() ==> #[trigger] rest@[i] == orig[out@.len() + i],
        decreases rest@.len(),
    {
        let row = rest.remove(0);
        out.push(decode_row(names, row));
    }
    out
}

/// Classifies a dynamic number by the marshalling priority: an exact
/// signed 64-bit reading wins; otherwise a floating-point reading; a
/// number with neither representable form degrades to its textual form.
pub open spec fn number_spec(
    int_form: Option<i64>,
    real_form: Option<rusqlite::types::Value>,
    text_form: String,
) -> DynValue {
    match int_form {
        Some(i) => DynValue::Int(i),
        None => match real_form {
            Some(r) => DynValue::Real(r),
            None => DynValue::Text(text_form),
        },
    }
}

/// Classifies a dynamic number from its three candidate readings, by the
/// priority `number_spec` gives.
pub fn classify_number(
    int_form: Option<i64>,
    real_form: Option<rusqlite::types::Value>,
    text_form: String,
) -> (r: DynValue)
    ensures
        r == number_spec(int_form, real_form, text_form),
{
    match int_form {
        Some(i) => DynValue::Int(i),
        None => match real_form {
            Some(r) => DynValue::Real(r),
            None => DynValue::Text(text_form),
        },
    }
}

/// How the store keeps a bound parameter, under the model that a
/// parameter's storage class is preserved verbatim: SQLite stores a bound
/// value under the class it was bound as, unless the target column's
/// affinity converts it.
pub open spec fn stored_cell_spec(p: BindParam) -> SqlCell {
    match p {
        BindParam::Text(s) => SqlCell::Text(s),
        BindParam::Integer(i) => SqlCell::Integer(i),
        BindParam::Real(r) => SqlCell::Real(r),
        BindParam::Null => SqlCell::Null,
    }
}

/// Law: a decoded cell is only ever a text, integer, real or null
/// dynamic value — a row handed back by a query never holds a boolean
/// or a structured value, whatever the store returned.
pub proof fn lemma_decode_range(c: SqlCell)
    ensures
        decode_spec(c) is Text || decode_spec(c) is Int || decode_spec(c) is Real || decode_spec(c)
            is Null,
{
}

/// Law: a string or integer dynamic value, marshalled onto a bind
/// parameter, stored under its own storage class, and decoded back,
/// returns unchanged.
pub proof fn lemma_text_int_round_trip(v: DynValue)
    requires
        v is Text || v is Int,
    ensures
        decode_spec(stored_cell_spec(marshal_spec(v))) == v,
{
}

} // verus!

