//! The graph store seen from the bridge: the statements sent to it and the
//! reading of the rows that come back.
//!
//! People are `Person` nodes with a `uid` property; a friendship is one
//! `BE_FRIEND_OF` relationship, read in both directions.

use vstd::prelude::*;
use crate::text::{decimal, decimal_text};

verus! {

/// A value bound to a parameter of a statement.
#[derive(Debug, Clone, PartialEq, Eq)]
pub enum Param {
    Text(String),
    Number(i64),
}

/// The mathematical value of a `Param`.
pub enum ParamValue {
    Text(Seq<char>),
    Number(int),
}

impl View for Param {
    type V = ParamValue;

    open spec fn view(&self) -> ParamValue {
        match *self {
            Param::Text(s) => ParamValue::Text(s@),
            Param::Number(n) => ParamValue::Number(n as int),
        }
    }
}

/// A statement for the graph store: its text, the values of its parameters in
/// the order they are bound, and the column read from each row that comes back.
#[derive(Debug, Clone, PartialEq, Eq)]
pub struct Statement {
    pub text: String,
    pub params: Vec<(String, Param)>,
    pub column: Option<String>,
}

/// The mathematical value of a `Statement`.
pub struct StatementView {
    pub text: Seq<char>,
    pub params: Seq<(Seq<char>, ParamValue)>,
    pub column: Option<Seq<char>>,
}

impl View for Statement {
    type V = StatementView;

    open spec fn view(&self) -> StatementView {
        StatementView {
            text: self.text@,
            params: Seq::new(self.params.len() as nat, |i: int| (self.params[i].0@, self.params[i].1@)),
            column: match self.column {
                Some(c) => Some(c@),
                None => None,
            },
        }
    }
}

/// A statement about one person.
pub open spec fn about_one(text: Seq<char>, uid: Seq<char>, column: Option<Seq<char>>) -> StatementView {
    StatementView { text, params: seq![("uid"@, ParamValue::Text(uid))], column }
}

/// A statement about two people.
pub open spec fn about_two(text: Seq<char>, uid_a: Seq<char>, uid_b: Seq<char>, column: Option<Seq<char>>) -> StatementView {
    StatementView {
        text,
        params: seq![("uid_a"@, ParamValue::Text(uid_a)), ("uid_b"@, ParamValue::Text(uid_b))],
        column,
    }
}

fn one(text: &str, uid: String, column: Option<String>) -> (statement: Statement)
    ensures
        statement@ == about_one(text@, uid@, match column { Some(c) => Some(c@), None => None }),
{
    let mut params: Vec<(String, Param)> = Vec::new();
    params.push((String::from_str("uid"), Param::Text(uid)));
    let statement = Statement { text: String::from_str(text), params, column };
    assert(statement@.params =~= seq![("uid"@, ParamValue::Text(uid@))]);
    statement
}

fn two(text: &str, uid_a: String, uid_b: String, column: Option<String>) -> (statement: Statement)
    ensures
        statement@ == about_two(text@, uid_a@, uid_b@, match column { Some(c) => Some(c@), None => None }),
{
    let mut params: Vec<(String, Param)> = Vec::new();
    params.push((String::from_str("uid_a"), Param::Text(uid_a)));
    params.push((String::from_str("uid_b"), Param::Text(uid_b)));
    let statement = Statement { text: String::from_str(text), params, column };
    assert(statement@.params =~= seq![
        ("uid_a"@, ParamValue::Text(uid_a@)),
        ("uid_b"@, ParamValue::Text(uid_b@)),
    ]);
    statement
}

/// Creates the person `uid`.
pub fn insert_node_statement(uid: String) -> (statement: Statement)
    ensures
        statement@ == about_one("CREATE (:Person{ uid: $uid })"@, uid@, None),
{
    one("CREATE (:Person{ uid: $uid })", uid, None)
}

/// Deletes the person `uid`.
pub fn delete_node_statement(uid: String) -> (statement: Statement)
    ensures
        statement@ == about_one("MATCH (p: Person{ uid: $uid }) DELETE p"@, uid@, None),
{
    one("MATCH (p: Person{ uid: $uid }) DELETE p", uid, None)
}

/// Asks whether the person `uid` exists; the answer is the flag `node_exists`
/// of the single row.
pub fn exist_node_statement(uid: String) -> (statement: Statement)
    ensures
        statement@ == about_one(
            "MATCH (p: Person{ uid: $uid } ) WITH count(p) > 0 AS node_exists RETURN node_exists"@,
            uid@,
            Some("node_exists"@),
        ),
{
    one(
        "MATCH (p: Person{ uid: $uid } ) WITH count(p) > 0 AS node_exists RETURN node_exists",
        uid,
        Some(String::from_str("node_exists")),
    )
}

/// Makes `uid_a` and `uid_b` friends.
pub fn insert_statement(uid_a: String, uid_b: String) -> (statement: Statement)
    ensures
        statement@ == about_two(
            "MATCH (a:Person{ uid: $uid_a }), (b: Person{ uid: $uid_b }) CREATE (a) -[:BE_FRIEND_OF]-> (b)"@,
            uid_a@,
            uid_b@,
            None,
        ),
{
    two(
        "MATCH (a:Person{ uid: $uid_a }), (b: Person{ uid: $uid_b }) CREATE (a) -[:BE_FRIEND_OF]-> (b)",
        uid_a,
        uid_b,
        None,
    )
}

/// Ends the friendship of `uid_a` and `uid_b`, whichever of them it started from.
pub fn delete_statement(uid_a: String, uid_b: String) -> (statement: Statement)
    ensures
        statement@ == about_two(
            "MATCH (:Person{uid: $uid_a}) -[r:BE_FRIEND_OF]- (:Person{uid: $uid_b}) DELETE r"@,
            uid_a@,
            uid_b@,
            None,
        ),
{
    two(
        "MATCH (:Person{uid: $uid_a}) -[r:BE_FRIEND_OF]- (:Person{uid: $uid_b}) DELETE r",
        uid_a,
        uid_b,
        None,
    )
}

/// Lists the friends of `uid` in ascending order, one `uid` per row.
pub fn friends_statement(uid: String) -> (statement: Statement)
    ensures
        statement@ == about_one(
            "MATCH (:Person { uid: $uid }) -[:BE_FRIEND_OF]- (b:Person) RETURN b.uid AS uid ORDER BY uid"@,
            uid@,
            Some("uid"@),
        ),
{
    one(
        "MATCH (:Person { uid: $uid }) -[:BE_FRIEND_OF]- (b:Person) RETURN b.uid AS uid ORDER BY uid",
        uid,
        Some(String::from_str("uid")),
    )
}

/// Asks whether `uid_a` and `uid_b` are friends; the answer is the flag
/// `is_friend` of the single row.
pub fn is_friend_statement(uid_a: String, uid_b: String) -> (statement: Statement)
    ensures
        statement@ == about_two(
            "MATCH (: Person { uid: $uid_a }) -[r: BE_FRIEND_OF]- (: Person { uid: $uid_b }) WITH count(r) > 0 AS is_friend RETURN is_friend"@,
            uid_a@,
            uid_b@,
            Some("is_friend"@),
        ),
{
    two(
        "MATCH (: Person { uid: $uid_a }) -[r: BE_FRIEND_OF]- (: Person { uid: $uid_b }) WITH count(r) > 0 AS is_friend RETURN is_friend",
        uid_a,
        uid_b,
        Some(String::from_str("is_friend")),
    )
}

/// The text that recommends, for one person, everybody who is reached over at
/// least `$threshold` paths of exactly `level` friendships.
pub open spec fn recommendations_text(level: int) -> Seq<char> {
    "MATCH (a:Person) -[:BE_FRIEND_OF * "@ + decimal(level)
        + "]- (b:Person) WITH a.uid AS src_uid, b.uid AS dst_uid, count(*) AS relative WHERE src_uid = $uid AND relative >= $threshold RETURN dst_uid"@
}

/// What `recommendations_statement` builds.
pub open spec fn recommendations_view(uid: Seq<char>, level: int, threshold: int) -> StatementView {
    StatementView {
        text: recommendations_text(level),
        params: seq![("uid"@, ParamValue::Text(uid)), ("threshold"@, ParamValue::Number(threshold))],
        column: Some("dst_uid"@),
    }
}

/// Recommends to `uid` everybody reached over at least `threshold` paths of
/// exactly `level` friendships, one `dst_uid` per row. The bound is inclusive;
/// to ask for more than `n` paths, ask for at least `n + 1`.
pub fn recommendations_statement(uid: String, level: i32, threshold: i32) -> (statement: Statement)
    ensures
        statement@ == recommendations_view(uid@, level as int, threshold as int),
{
    let mut text = String::from_str("MATCH (a:Person) -[:BE_FRIEND_OF * ");
    let depth = decimal_text(level as i64);
    text.append(depth.as_str());
    text.append(
        "]- (b:Person) WITH a.uid AS src_uid, b.uid AS dst_uid, count(*) AS relative WHERE src_uid = $uid AND relative >= $threshold RETURN dst_uid",
    );
    let mut params: Vec<(String, Param)> = Vec::new();
    params.push((String::from_str("uid"), Param::Text(uid)));
    params.push((String::from_str("threshold"), Param::Number(threshold as i64)));
    let statement = Statement { text, params, column: Some(String::from_str("dst_uid")) };
    assert(statement@.params =~= seq![
        ("uid"@, ParamValue::Text(uid@)),
        ("threshold"@, ParamValue::Number(threshold as int)),
    ]);
    statement
}

/// The values that are present in `cells`, in their order.
pub open spec fn present<T>(cells: Seq<Option<T>>) -> Seq<T>
    decreases cells.len(),
{
    if cells.len() == 0 {
        Seq::empty()
    } else {
        match cells.last() {
            Some(value) => present(cells.drop_last()).push(value),
            None => present(cells.drop_last()),
        }
    }
}

/// Reads one column of the rows of a listing: `cells` holds, row by row, the
/// value of the column or `None` where the row has none. Rows without a value
/// are passed over.
pub fn collect_column(cells: &Vec<Option<String>>) -> (values: Vec<String>)
    ensures
        values@ == present(cells@),
{
    let mut values: Vec<String> = Vec::new();
    let mut i: usize = 0;
    while i < cells.len()
        invariant
            i <= cells.len(),
            values@ == present(cells@.take(i as int)),
        decreases cells.len() - i,
    {
        proof {
            assert(cells@.take(i + 1).drop_last() =~= cells@.take(i as int));
            assert(cells@.take(i + 1).last() == cells@[i as int]);
        }
        match &cells[i] {
            Some(value) => {
                values.push(value.clone());
            },
            None => {},
        }
        i = i + 1;
    }
    proof {
        assert(cells@.take(i as int) =~= cells@);
    }
    values
}

/// Whether a yes-or-no question was answered: there is a first row and it
/// holds the flag.
pub open spec fn answered(cells: Seq<Option<bool>>) -> bool {
    cells.len() > 0 && cells[0] is Some
}

/// Tests `answered` at run time.
pub fn has_flag(cells: &Vec<Option<bool>>) -> (yes: bool)
    ensures
        yes == answered(cells@),
{
    cells.len() > 0 && cells[0].is_some()
}

/// Reads the answer to a yes-or-no question: the flag of the first row.
pub fn first_flag(cells: &Vec<Option<bool>>) -> (flag: bool)
    requires
        answered(cells@),
    ensures
        Some(flag) == cells[0],
{
    match cells[0] {
        Some(flag) => flag,
        None => false,
    }
}

} // verus!
