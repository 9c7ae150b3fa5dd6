//! The statement builder: literals, UPDATE and INSERT statements.
//!
//! Values are written into the statement text, so every text value goes through
//! [`escape_sql_string`], which is the only place where a value could break out
//! of its literal.

use vstd::prelude::*;
use vstd::string::StringExecFns;
use crate::ids::{hyphenated, id_to_string, Id};
use crate::patch::Patch;
use crate::text::{
    bool_text, join, joined, push_bool, push_char, push_signed_decimal, signed_decimal, views,
};

verus! {

/// Whether a character is written with a backslash inside a literal.
pub open spec fn needs_escape(c: char) -> bool {
    c == '\\' || c == '\'' || c == '"' || c == '\n' || c == '\t' || c == '\r'
}

/// The character as it stands inside a literal.
pub open spec fn escaped_char(c: char) -> Seq<char> {
    if c == '\n' {
        seq!['\\', 'n']
    } else if c == '\t' {
        seq!['\\', 't']
    } else if c == '\r' {
        seq!['\\', 'r']
    } else if needs_escape(c) {
        seq!['\\', c]
    } else {
        seq![c]
    }
}

/// The text as it stands between the quotes of a literal.
pub open spec fn escaped_body(s: Seq<char>) -> Seq<char>
    decreases s.len(),
{
    if s.len() == 0 {
        Seq::empty()
    } else {
        escaped_body(s.drop_last()) + escaped_char(s.last())
    }
}

/// The literal for a text: `E'`, the escaped text, and a closing quote.
pub open spec fn escaped(s: Seq<char>) -> Seq<char> {
    seq!['E', '\''] + escaped_body(s) + seq!['\'']
}

/// The character that a backslash and `c` stand for.
pub open spec fn unescaped_char(c: char) -> char {
    if c == 'n' {
        '\n'
    } else if c == 't' {
        '\t'
    } else if c == 'r' {
        '\r'
    } else {
        c
    }
}

/// Reads the inside of a literal from the front of `t`, up to the first quote
/// that no backslash stands before: the text it holds and what follows the
/// quote. Nothing where the literal does not end.
pub open spec fn read_literal_body(t: Seq<char>) -> Option<(Seq<char>, Seq<char>)>
    decreases t.len(),
{
    if t.len() == 0 {
        None
    } else if t[0] == '\'' {
        Some((Seq::empty(), t.skip(1)))
    } else if t[0] == '\\' {
        if t.len() < 2 {
            None
        } else {
            match read_literal_body(t.skip(2)) {
                Some((body, rest)) => Some((seq![unescaped_char(t[1])] + body, rest)),
                None => None,
            }
        }
    } else {
        match read_literal_body(t.skip(1)) {
            Some((body, rest)) => Some((seq![t[0]] + body, rest)),
            None => None,
        }
    }
}

/// The escaped text of two texts in a row is their escaped texts in a row.
pub proof fn lemma_escaped_body_concat(a: Seq<char>, b: Seq<char>)
    ensures
        escaped_body(a + b) == escaped_body(a) + escaped_body(b),
    decreases b.len(),
{
    if b.len() == 0 {
        assert(a + b =~= a);
        assert(escaped_body(a) + escaped_body(b) =~= escaped_body(a));
    } else {
        lemma_escaped_body_concat(a, b.drop_last());
        assert((a + b).drop_last() =~= a + b.drop_last());
        assert((a + b).last() == b.last());
        assert(escaped_body(a + b) =~= escaped_body(a) + escaped_body(b));
    }
}

/// A literal reads back as the text it was made from, and the reader stops at
/// the closing quote whatever follows: no text value can end its literal early
/// or reach into the rest of the statement.
pub proof fn lemma_literal_round_trip(s: Seq<char>, rest: Seq<char>)
    ensures
        read_literal_body(escaped_body(s) + seq!['\''] + rest) == Some((s, rest)),
    decreases s.len(),
{
    let t = escaped_body(s) + seq!['\''] + rest;
    if s.len() == 0 {
        assert(t.skip(1) =~= rest);
    } else {
        let head = seq![s[0]];
        let tail = s.skip(1);
        assert(s =~= head + tail);
        lemma_escaped_body_concat(head, tail);
        assert(head.drop_last() =~= Seq::<char>::empty());
        assert(escaped_body(head.drop_last()) =~= Seq::<char>::empty());
        assert(head.last() == s[0]);
        assert(escaped_body(head) =~= escaped_char(s[0]));
        lemma_literal_round_trip(tail, rest);
        let after = escaped_body(tail) + seq!['\''] + rest;
        assert(t =~= escaped_char(s[0]) + after);
        if needs_escape(s[0]) {
            assert(t.skip(2) =~= after);
            assert(unescaped_char(t[1]) == s[0]);
            assert(seq![s[0]] + tail =~= s);
        } else {
            assert(t.skip(1) =~= after);
            assert(seq![s[0]] + tail =~= s);
        }
    }
}

/// Writes a text as a literal: `E'...'`, with a backslash before each
/// backslash, single quote and double quote, and `\n`, `\t`, `\r` for the line
/// feed, the tab and the carriage return.
pub fn escape_sql_string(string: &str) -> (out: String)
    ensures
        out@ == escaped(string@),
{
    let mut out = String::from_str("E'");
    proof {
        reveal_strlit("E'");
        assert("E'"@ =~= seq!['E', '\'']);
    }
    for c in it: string.chars()
        invariant
            it.seq() == string@,
            out@ == seq!['E', '\''] + escaped_body(string@.take(it.index() as int)),
    {
        proof {
            let next = string@.take(it.index() + 1);
            assert(next.drop_last() =~= string@.take(it.index() as int));
            assert(next.last() == c);
        }
        if c == '\n' {
            push_char(&mut out, '\\');
            push_char(&mut out, 'n');
        } else if c == '\t' {
            push_char(&mut out, '\\');
            push_char(&mut out, 't');
        } else if c == '\r' {
            push_char(&mut out, '\\');
            push_char(&mut out, 'r');
        } else if c == '\\' || c == '\'' || c == '"' {
            push_char(&mut out, '\\');
            push_char(&mut out, c);
        } else {
            push_char(&mut out, c);
        }
        assert(out@ =~= seq!['E', '\''] + escaped_body(string@.take(it.index() + 1)));
    }
    assert(string@.take(string@.len() as int) =~= string@);
    push_char(&mut out, '\'');
    assert(out@ =~= escaped(string@));
    out
}

} // verus!

verus! {

/// A value on its way into a statement.
#[derive(Debug)]
pub enum SqlValue {
    /// A text, written as an escaped literal.
    Text(String),
    /// An identifier, written as the escaped literal of its hyphenated form.
    Uuid(Id),
    /// A whole number, written in base ten.
    Integer(i64),
    /// A truth value, written `true` or `false`.
    Bool(bool),
    /// No value, written `NULL`.
    Null,
}

/// The mathematical content of a [`SqlValue`].
pub enum SqlValueView {
    Text(Seq<char>),
    Uuid(Id),
    Integer(int),
    Bool(bool),
    Null,
}

impl View for SqlValue {
    type V = SqlValueView;

    open spec fn view(&self) -> SqlValueView {
        match self {
            SqlValue::Text(s) => SqlValueView::Text(s@),
            SqlValue::Uuid(id) => SqlValueView::Uuid(*id),
            SqlValue::Integer(v) => SqlValueView::Integer(*v as int),
            SqlValue::Bool(b) => SqlValueView::Bool(*b),
            SqlValue::Null => SqlValueView::Null,
        }
    }
}

/// The keyword for an empty value.
pub open spec fn null_text() -> Seq<char> {
    seq!['N', 'U', 'L', 'L']
}

/// How a value is written in a statement.
pub open spec fn literal(v: SqlValueView) -> Seq<char> {
    match v {
        SqlValueView::Text(s) => escaped(s),
        SqlValueView::Uuid(id) => escaped(hyphenated(id)),
        SqlValueView::Integer(i) => signed_decimal(i),
        SqlValueView::Bool(b) => bool_text(b),
        SqlValueView::Null => null_text(),
    }
}

/// Writes a value as it goes into a statement: texts and identifiers quoted and
/// escaped, numbers and truth values bare, an empty value as `NULL`.
pub fn print_sql(value: &SqlValue) -> (out: String)
    ensures
        out@ == literal(value@),
{
    match value {
        SqlValue::Text(s) => escape_sql_string(s.as_str()),
        SqlValue::Uuid(id) => {
            let text = id_to_string(*id);
            escape_sql_string(text.as_str())
        },
        SqlValue::Integer(v) => {
            let mut out = String::new();
            push_signed_decimal(&mut out, *v);
            assert(out@ =~= signed_decimal(*v as int));
            out
        },
        SqlValue::Bool(b) => {
            let mut out = String::new();
            push_bool(&mut out, *b);
            assert(out@ =~= bool_text(*b));
            out
        },
        SqlValue::Null => {
            let out = String::from_str("NULL");
            proof {
                reveal_strlit("NULL");
                assert("NULL"@ =~= null_text());
            }
            out
        },
    }
}

/// Writes an optional value: `NULL` where there is none.
pub fn print_sql_option(value: &Option<SqlValue>) -> (out: String)
    ensures
        out@ == match value {
            Some(v) => literal(v@),
            None => null_text(),
        },
{
    match value {
        Some(v) => print_sql(v),
        None => print_sql(&SqlValue::Null),
    }
}

/// One column of an UPDATE: its name and what the request says about it.
#[derive(Debug)]
pub struct Assignment {
    pub name: String,
    pub value: Patch<SqlValue>,
}

/// The mathematical content of an [`Assignment`].
pub struct AssignmentView {
    pub name: Seq<char>,
    pub value: Patch<SqlValueView>,
}

impl View for Assignment {
    type V = AssignmentView;

    open spec fn view(&self) -> AssignmentView {
        AssignmentView {
            name: self.name@,
            value: match self.value {
                Patch::Missing => Patch::Missing,
                Patch::Null => Patch::Null,
                Patch::Value(v) => Patch::Value(v@),
            },
        }
    }
}

/// The views of a list of assignments.
pub open spec fn assignment_views(fields: Seq<Assignment>) -> Seq<AssignmentView> {
    Seq::new(fields.len(), |i: int| fields[i]@)
}

/// The `name=value` part for one assignment, where it has one.
pub open spec fn set_clause(field: AssignmentView) -> Option<Seq<char>> {
    match field.value {
        Patch::Missing => None,
        Patch::Null => Some(field.name + seq!['='] + null_text()),
        Patch::Value(v) => Some(field.name + seq!['='] + literal(v)),
    }
}

/// The `name=value` parts of an UPDATE, in the order of the fields: none for a
/// missing field, `name=NULL` for an emptied one, `name=<literal>` for a given
/// one.
pub open spec fn set_clauses(fields: Seq<AssignmentView>) -> Seq<Seq<char>>
    decreases fields.len(),
{
    if fields.len() == 0 {
        Seq::empty()
    } else {
        match set_clause(fields.last()) {
            None => set_clauses(fields.drop_last()),
            Some(clause) => set_clauses(fields.drop_last()).push(clause),
        }
    }
}

/// The UPDATE statement for a table and its assignments, or nothing where every
/// field is missing.
pub open spec fn update_statement(
    table: Seq<char>,
    fields: Seq<AssignmentView>,
    additional_sql: Seq<char>,
) -> Option<Seq<char>> {
    let clauses = set_clauses(fields);
    if clauses.len() == 0 {
        None
    } else {
        Some(
            "UPDATE "@ + table + " SET "@ + joined(clauses, ", "@) + " "@ + additional_sql,
        )
    }
}

/// The view of an optional string.
pub open spec fn option_view(s: Option<String>) -> Option<Seq<char>> {
    match s {
        Some(s) => Some(s@),
        None => None,
    }
}

/// Builds `UPDATE <table> SET <name=value, ...> <additional_sql>` from the
/// fields that the request touches. A missing field gets no part, an emptied one
/// is set to `NULL`, a given one to its literal. When no field is touched there
/// is no statement.
pub fn update_query(table: &str, fields: &Vec<Assignment>, additional_sql: &str) -> (stmt: Option<
    String,
>)
    ensures
        option_view(stmt) == update_statement(
            table@,
            assignment_views(fields@),
            additional_sql@,
        ),
{
    let mut clauses: Vec<String> = Vec::new();
    let mut i: usize = 0;
    while i < fields.len()
        invariant
            i <= fields.len(),
            views(clauses@) == set_clauses(assignment_views(fields@).take(i as int)),
        decreases fields.len() - i,
    {
        proof {
            let all = assignment_views(fields@);
            let next = all.take(i + 1);
            assert(next.drop_last() =~= all.take(i as int));
            assert(next.last() == fields[i as int]@);
        }
        let ghost before = views(clauses@);
        match &fields[i].value {
            Patch::Missing => {},
            Patch::Null => {
                let mut clause = fields[i].name.clone();
                clause.append("=NULL");
                proof {
                    reveal_strlit("=NULL");
                    assert("=NULL"@ =~= seq!['='] + null_text());
                    assert(clause@ =~= fields[i as int]@.name + seq!['='] + null_text());
                }
                clauses.push(clause);
                assert(views(clauses@) =~= before.push(clause@));
            },
            Patch::Value(v) => {
                let mut clause = fields[i].name.clone();
                push_char(&mut clause, '=');
                let text = print_sql(v);
                clause.append(text.as_str());
                assert(clause@ =~= fields[i as int]@.name + seq!['='] + literal(v@));
                clauses.push(clause);
                assert(views(clauses@) =~= before.push(clause@));
            },
        }
        i += 1;
    }
    assert(assignment_views(fields@).take(fields.len() as int) =~= assignment_views(fields@));
    if clauses.len() == 0 {
        None
    } else {
        let mut out = String::from_str("UPDATE ");
        out.append(table);
        out.append(" SET ");
        let list = join(&clauses, ", ");
        out.append(list.as_str());
        out.append(" ");
        out.append(additional_sql);
        Some(out)
    }
}

/// Only the fields that the request touches count: leaving the missing ones out
/// of the list gives the same parts, so a missing field never shows in the
/// statement.
pub proof fn lemma_missing_fields_leave_no_trace(fields: Seq<AssignmentView>)
    ensures
        set_clauses(fields) == set_clauses(fields.filter(|f: AssignmentView| !(f.value is Missing))),
    decreases fields.len(),
{
    let touched = |f: AssignmentView| !(f.value is Missing);
    reveal(Seq::filter);
    if fields.len() == 0 {
        assert(fields.filter(touched) =~= Seq::<AssignmentView>::empty());
    } else {
        lemma_missing_fields_leave_no_trace(fields.drop_last());
        let kept = fields.drop_last().filter(touched);
        if touched(fields.last()) {
            assert(fields.filter(touched) =~= kept.push(fields.last()));
            assert(fields.filter(touched).drop_last() =~= kept);
        } else {
            assert(fields.filter(touched) =~= kept);
        }
    }
}

/// Each field that the request touches has its part in the statement, and an
/// emptied field's part sets the column to `NULL`.
pub proof fn lemma_touched_fields_are_set(fields: Seq<AssignmentView>, i: int)
    requires
        0 <= i < fields.len(),
        !(fields[i].value is Missing),
    ensures
        set_clause(fields[i]) is Some,
        set_clauses(fields).contains(set_clause(fields[i])->0),
        fields[i].value is Null ==> set_clause(fields[i])->0 == fields[i].name + seq!['=']
            + null_text(),
    decreases fields.len(),
{
    let clause = set_clause(fields[i])->0;
    if i == fields.len() - 1 {
        let all = set_clauses(fields);
        assert(all.last() == clause);
        assert(all[all.len() - 1] == clause);
    } else {
        lemma_touched_fields_are_set(fields.drop_last(), i);
        let before = set_clauses(fields.drop_last());
        let k = choose|k: int| 0 <= k < before.len() && before[k] == clause;
        assert(set_clauses(fields)[k] == clause);
    }
}

} // verus!

verus! {

/// One column of an INSERT: its name and the value, if the request gives one.
#[derive(Debug)]
pub struct Column {
    pub name: String,
    pub value: Option<SqlValue>,
}

/// The mathematical content of a [`Column`].
pub struct ColumnView {
    pub name: Seq<char>,
    pub value: Option<SqlValueView>,
}

impl View for Column {
    type V = ColumnView;

    open spec fn view(&self) -> ColumnView {
        ColumnView {
            name: self.name@,
            value: match self.value {
                Some(v) => Some(v@),
                None => None,
            },
        }
    }
}

/// The views of a list of columns.
pub open spec fn column_views(fields: Seq<Column>) -> Seq<ColumnView> {
    Seq::new(fields.len(), |i: int| fields[i]@)
}

/// The names of the columns that have a value, in order.
pub open spec fn insert_names(fields: Seq<ColumnView>) -> Seq<Seq<char>>
    decreases fields.len(),
{
    if fields.len() == 0 {
        Seq::empty()
    } else {
        match fields.last().value {
            None => insert_names(fields.drop_last()),
            Some(_) => insert_names(fields.drop_last()).push(fields.last().name),
        }
    }
}

/// The literals of the columns that have a value, in order.
pub open spec fn insert_values(fields: Seq<ColumnView>) -> Seq<Seq<char>>
    decreases fields.len(),
{
    if fields.len() == 0 {
        Seq::empty()
    } else {
        match fields.last().value {
            None => insert_values(fields.drop_last()),
            Some(v) => insert_values(fields.drop_last()).push(literal(v)),
        }
    }
}

/// The INSERT statement for a table and its columns.
pub open spec fn insert_statement(
    table: Seq<char>,
    fields: Seq<ColumnView>,
    additional_sql: Seq<char>,
) -> Seq<char> {
    "INSERT INTO "@ + table + " ("@ + joined(insert_names(fields), ", "@) + ") VALUES ("@
        + joined(insert_values(fields), ", "@) + ") "@ + additional_sql
}

/// Builds `INSERT INTO <table> (<names>) VALUES (<literals>) <additional_sql>`
/// from the columns that have a value. A column without one is left out of both
/// lists, so that the storage fills in its default.
pub fn insert_query(table: &str, fields: &Vec<Column>, additional_sql: &str) -> (stmt: String)
    ensures
        stmt@ == insert_statement(table@, column_views(fields@), additional_sql@),
{
    let mut names: Vec<String> = Vec::new();
    let mut values: Vec<String> = Vec::new();
    let mut i: usize = 0;
    while i < fields.len()
        invariant
            i <= fields.len(),
            views(names@) == insert_names(column_views(fields@).take(i as int)),
            views(values@) == insert_values(column_views(fields@).take(i as int)),
        decreases fields.len() - i,
    {
        proof {
            let all = column_views(fields@);
            let next = all.take(i + 1);
            assert(next.drop_last() =~= all.take(i as int));
            assert(next.last() == fields[i as int]@);
        }
        let ghost names_before = views(names@);
        let ghost values_before = views(values@);
        match &fields[i].value {
            None => {},
            Some(v) => {
                let name = fields[i].name.clone();
                let text = print_sql(v);
                names.push(name);
                values.push(text);
                assert(views(names@) =~= names_before.push(name@));
                assert(views(values@) =~= values_before.push(text@));
            },
        }
        i += 1;
    }
    assert(column_views(fields@).take(fields.len() as int) =~= column_views(fields@));
    let mut out = String::from_str("INSERT INTO ");
    out.append(table);
    out.append(" (");
    let name_list = join(&names, ", ");
    out.append(name_list.as_str());
    out.append(") VALUES (");
    let value_list = join(&values, ", ");
    out.append(value_list.as_str());
    out.append(") ");
    out.append(additional_sql);
    out
}

/// A statement names as many columns as it gives values.
pub proof fn lemma_insert_lists_match(fields: Seq<ColumnView>)
    ensures
        insert_names(fields).len() == insert_values(fields).len(),
        insert_names(fields).len() <= fields.len(),
    decreases fields.len(),
{
    if fields.len() > 0 {
        lemma_insert_lists_match(fields.drop_last());
    }
}

/// The views of a row of optional values.
pub open spec fn row_views(row: Seq<Option<SqlValue>>) -> Seq<Option<SqlValueView>> {
    Seq::new(
        row.len(),
        |i: int|
            match row[i] {
                Some(v) => Some(v@),
                None => None,
            },
    )
}

/// The texts of one row of a batch: the literal of each value, `default` where
/// there is none.
pub open spec fn row_texts(row: Seq<Option<SqlValueView>>) -> Seq<Seq<char>> {
    Seq::new(
        row.len(),
        |i: int|
            match row[i] {
                Some(v) => literal(v),
                None => "default"@,
            },
    )
}

/// One row of a batch, in brackets.
pub open spec fn row_tuple(row: Seq<Option<SqlValueView>>) -> Seq<char> {
    "("@ + joined(row_texts(row), ", "@) + ")"@
}

/// The rows of a batch, each in brackets.
pub open spec fn batch_tuples(rows: Seq<Vec<Option<SqlValue>>>) -> Seq<Seq<char>> {
    Seq::new(rows.len(), |i: int| row_tuple(row_views(rows[i]@)))
}

/// The INSERT statement for several rows at once.
pub open spec fn insert_batch_statement(
    table: Seq<char>,
    names: Seq<Seq<char>>,
    rows: Seq<Vec<Option<SqlValue>>>,
    additional_sql: Seq<char>,
) -> Seq<char> {
    "INSERT INTO "@ + table + " ("@ + joined(names, ", "@) + ") VALUES "@ + joined(
        batch_tuples(rows),
        ", "@,
    ) + " "@ + additional_sql
}

fn row_text(row: &Vec<Option<SqlValue>>) -> (out: String)
    ensures
        out@ == row_tuple(row_views(row@)),
{
    let mut texts: Vec<String> = Vec::new();
    let mut i: usize = 0;
    while i < row.len()
        invariant
            i <= row.len(),
            views(texts@) == row_texts(row_views(row@)).take(i as int),
        decreases row.len() - i,
    {
        let text = match &row[i] {
            Some(v) => print_sql(v),
            None => String::from_str("default"),
        };
        let ghost before = views(texts@);
        assert(text@ == row_texts(row_views(row@))[i as int]);
        texts.push(text);
        assert(views(texts@) =~= before.push(text@));
        assert(views(texts@) =~= row_texts(row_views(row@)).take(i + 1));
        i += 1;
    }
    assert(row_texts(row_views(row@)).take(row.len() as int) =~= row_texts(row_views(row@)));
    let mut out = String::from_str("(");
    let list = join(&texts, ", ");
    out.append(list.as_str());
    out.append(")");
    out
}

/// Builds `INSERT INTO <table> (<names>) VALUES (<row>), (<row>) ... <additional_sql>`
/// for several rows at once. Every column is named, and a row writes `default`
/// where it has no value for one.
pub fn insert_batch_query(
    table: &str,
    names: &Vec<String>,
    rows: &Vec<Vec<Option<SqlValue>>>,
    additional_sql: &str,
) -> (stmt: String)
    ensures
        stmt@ == insert_batch_statement(table@, views(names@), rows@, additional_sql@),
{
    let mut tuples: Vec<String> = Vec::new();
    let mut i: usize = 0;
    while i < rows.len()
        invariant
            i <= rows.len(),
            views(tuples@) == batch_tuples(rows@).take(i as int),
        decreases rows.len() - i,
    {
        let tuple = row_text(&rows[i]);
        let ghost before = views(tuples@);
        assert(tuple@ == batch_tuples(rows@)[i as int]);
        tuples.push(tuple);
        assert(views(tuples@) =~= before.push(tuple@));
        assert(views(tuples@) =~= batch_tuples(rows@).take(i + 1));
        i += 1;
    }
    assert(batch_tuples(rows@).take(rows.len() as int) =~= batch_tuples(rows@));
    let mut out = String::from_str("INSERT INTO ");
    out.append(table);
    out.append(" (");
    let name_list = join(names, ", ");
    out.append(name_list.as_str());
    out.append(") VALUES ");
    let tuple_list = join(&tuples, ", ");
    out.append(tuple_list.as_str());
    out.append(" ");
    out.append(additional_sql);
    out
}

} // verus!

verus! {

/// A text on its way into a statement.
pub open spec fn text_value(s: String) -> SqlValueView {
    SqlValueView::Text(s@)
}

/// The patch of a text column.
pub open spec fn text_patch(p: Patch<String>) -> Patch<SqlValueView> {
    match p {
        Patch::Missing => Patch::Missing,
        Patch::Null => Patch::Null,
        Patch::Value(s) => Patch::Value(SqlValueView::Text(s@)),
    }
}

/// The patch of an identifier column.
pub open spec fn id_patch(p: Patch<Id>) -> Patch<SqlValueView> {
    match p {
        Patch::Missing => Patch::Missing,
        Patch::Null => Patch::Null,
        Patch::Value(id) => Patch::Value(SqlValueView::Uuid(id)),
    }
}

/// An optional text column of an INSERT.
pub open spec fn text_column(s: Option<String>) -> Option<SqlValueView> {
    match s {
        Some(s) => Some(SqlValueView::Text(s@)),
        None => None,
    }
}

/// An optional identifier column of an INSERT.
pub open spec fn id_column(id: Option<Id>) -> Option<SqlValueView> {
    match id {
        Some(id) => Some(SqlValueView::Uuid(id)),
        None => None,
    }
}

/// Makes the assignment of a text column.
pub fn assign_text(name: &str, patch: &Patch<String>) -> (assignment: Assignment)
    ensures
        assignment@ == (AssignmentView { name: name@, value: text_patch(*patch) }),
{
    Assignment {
        name: name.to_owned(),
        value: match patch {
            Patch::Missing => Patch::Missing,
            Patch::Null => Patch::Null,
            Patch::Value(s) => Patch::Value(SqlValue::Text(s.clone())),
        },
    }
}

/// Makes the assignment of an identifier column.
pub fn assign_id(name: &str, patch: &Patch<Id>) -> (assignment: Assignment)
    ensures
        assignment@ == (AssignmentView { name: name@, value: id_patch(*patch) }),
{
    Assignment {
        name: name.to_owned(),
        value: match patch {
            Patch::Missing => Patch::Missing,
            Patch::Null => Patch::Null,
            Patch::Value(id) => Patch::Value(SqlValue::Uuid(*id)),
        },
    }
}

/// Makes a text column of an INSERT.
pub fn column_text(name: &str, value: &str) -> (column: Column)
    ensures
        column@ == (ColumnView { name: name@, value: Some(SqlValueView::Text(value@)) }),
{
    Column { name: name.to_owned(), value: Some(SqlValue::Text(value.to_owned())) }
}

/// Makes an optional text column of an INSERT.
pub fn column_optional_text(name: &str, value: &Option<String>) -> (column: Column)
    ensures
        column@ == (ColumnView { name: name@, value: text_column(*value) }),
{
    Column {
        name: name.to_owned(),
        value: match value {
            Some(s) => Some(SqlValue::Text(s.clone())),
            None => None,
        },
    }
}

/// Makes an identifier column of an INSERT.
pub fn column_id(name: &str, value: Id) -> (column: Column)
    ensures
        column@ == (ColumnView { name: name@, value: Some(SqlValueView::Uuid(value)) }),
{
    Column { name: name.to_owned(), value: Some(SqlValue::Uuid(value)) }
}

/// Makes an optional identifier column of an INSERT.
pub fn column_optional_id(name: &str, value: Option<Id>) -> (column: Column)
    ensures
        column@ == (ColumnView { name: name@, value: id_column(value) }),
{
    Column {
        name: name.to_owned(),
        value: match value {
            Some(id) => Some(SqlValue::Uuid(id)),
            None => None,
        },
    }
}

} // verus!

verus! {

/// The patch of a truth value column.
pub open spec fn bool_patch(p: Patch<bool>) -> Patch<SqlValueView> {
    match p {
        Patch::Missing => Patch::Missing,
        Patch::Null => Patch::Null,
        Patch::Value(b) => Patch::Value(SqlValueView::Bool(b)),
    }
}

/// An optional truth value column of an INSERT.
pub open spec fn bool_column(b: Option<bool>) -> Option<SqlValueView> {
    match b {
        Some(b) => Some(SqlValueView::Bool(b)),
        None => None,
    }
}

/// Makes the assignment of a truth value column.
pub fn assign_bool(name: &str, patch: &Patch<bool>) -> (assignment: Assignment)
    ensures
        assignment@ == (AssignmentView { name: name@, value: bool_patch(*patch) }),
{
    Assignment {
        name: name.to_owned(),
        value: match patch {
            Patch::Missing => Patch::Missing,
            Patch::Null => Patch::Null,
            Patch::Value(b) => Patch::Value(SqlValue::Bool(*b)),
        },
    }
}

/// Makes an optional truth value column of an INSERT.
pub fn column_optional_bool(name: &str, value: Option<bool>) -> (column: Column)
    ensures
        column@ == (ColumnView { name: name@, value: bool_column(value) }),
{
    Column {
        name: name.to_owned(),
        value: match value {
            Some(b) => Some(SqlValue::Bool(b)),
            None => None,
        },
    }
}

} // verus!

verus! {

/// A text without characters that need escaping stands in its literal as it is.
pub proof fn lemma_plain_text_is_kept(s: Seq<char>)
    requires
        forall|i: int| 0 <= i < s.len() ==> !needs_escape(#[trigger] s[i]),
    ensures
        escaped_body(s) == s,
    decreases s.len(),
{
    if s.len() > 0 {
        lemma_plain_text_is_kept(s.drop_last());
        assert(escaped_body(s) =~= s.drop_last().push(s.last()));
        assert(s.drop_last().push(s.last()) =~= s);
    }
}

/// The literal of an identifier is its hyphenated form between `E'` and `'`:
/// digits and hyphens need no escaping.
pub proof fn lemma_identifier_literal(id: Id)
    ensures
        literal(SqlValueView::Uuid(id)) == seq!['E', '\''] + hyphenated(id) + seq!['\''],
{
    let text = hyphenated(id);
    assert forall|i: int| 0 <= i < text.len() implies !needs_escape(#[trigger] text[i]) by {
        let c = text[i];
        if !(i == 8 || i == 13 || i == 18 || i == 23) {
            let d = crate::ids::nibble(id, i - crate::ids::hyphens_before(i));
            assert(c == crate::ids::hex_char(d));
        }
    }
    lemma_plain_text_is_kept(text);
}

} // verus!
