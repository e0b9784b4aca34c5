//! One row of a result: its columns in the order the statement declares them.

use vstd::prelude::*;
use vstd::string::StringExecFns;
use crate::value::{ResultValue, ResultValueView, StoreValue, StoreValueView};
use crate::value::{cell_view, deliver_value, delivered};

verus! {

/// One column of a row: its name and its value.
#[derive(Debug, PartialEq, Eq)]
pub struct Column {
    pub name: String,
    pub value: ResultValue,
}

impl View for Column {
    type V = (Seq<char>, ResultValueView);

    open spec fn view(&self) -> (Seq<char>, ResultValueView) {
        (self.name@, self.value@)
    }
}

/// A result row. The columns stand in declared order, for display. Read as a
/// mapping from name to value, a name that occurs twice stands for its last
/// column.
#[derive(Debug, PartialEq, Eq)]
pub struct ResultRow {
    pub columns: Vec<Column>,
}

impl View for ResultRow {
    type V = Seq<(Seq<char>, ResultValueView)>;

    open spec fn view(&self) -> Seq<(Seq<char>, ResultValueView)> {
        Seq::new(self.columns@.len(), |i: int| self.columns@[i]@)
    }
}

/// The mapping that a list of columns stands for: each column is entered in
/// turn, so a later column replaces an earlier one of the same name.
pub open spec fn mapping(columns: Seq<(Seq<char>, ResultValueView)>) -> Map<
    Seq<char>,
    ResultValueView,
>
    decreases columns.len(),
{
    if columns.len() == 0 {
        Map::empty()
    } else {
        mapping(columns.drop_last()).insert(columns.last().0, columns.last().1)
    }
}

/// The views of the cells that the store handed out for one row.
pub open spec fn cell_views(cells: Seq<Option<StoreValue>>) -> Seq<Option<StoreValueView>> {
    Seq::new(cells.len(), |i: int| cell_view(cells[i]))
}

/// The views of a list of names.
pub open spec fn name_views(names: Seq<String>) -> Seq<Seq<char>> {
    Seq::new(names.len(), |i: int| names[i]@)
}

/// The row made of the declared column names and the cells of one row of the
/// store: one column for each name, in order. A name without a cell gets
/// null.
pub open spec fn row_of(names: Seq<Seq<char>>, cells: Seq<Option<StoreValueView>>) -> Seq<
    (Seq<char>, ResultValueView),
> {
    Seq::new(
        names.len(),
        |i: int|
            (
                names[i],
                delivered(
                    if i < cells.len() {
                        cells[i]
                    } else {
                        None
                    },
                ),
            ),
    )
}

impl ResultRow {
    /// The row as a mapping from column name to value.
    pub open spec fn as_map(&self) -> Map<Seq<char>, ResultValueView> {
        mapping(self@)
    }

    /// The number of columns.
    pub fn len(&self) -> (n: usize)
        ensures
            n == self@.len(),
    {
        self.columns.len()
    }

    /// The value under a column name, if the row has that name.
    pub fn get(&self, name: &str) -> (found: Option<&ResultValue>)
        ensures
            match found {
                Some(value) => self.as_map().contains_key(name@) && self.as_map()[name@]
                    == value@,
                None => !self.as_map().contains_key(name@),
            },
    {
        let key = String::from_str(name);
        let mut found: Option<&ResultValue> = None;
        let mut i: usize = 0;
        while i < self.columns.len()
            invariant
                i <= self.columns.len(),
                key@ == name@,
                match found {
                    Some(value) => mapping(self@.take(i as int)).contains_key(name@) && mapping(
                        self@.take(i as int),
                    )[name@] == value@,
                    None => !mapping(self@.take(i as int)).contains_key(name@),
                },
            decreases self.columns.len() - i,
        {
            proof {
                let next = self@.take(i + 1);
                assert(next.drop_last() =~= self@.take(i as int));
                assert(next.last() == self.columns@[i as int]@);
                assert(mapping(next) == mapping(next.drop_last()).insert(
                    next.last().0,
                    next.last().1,
                ));
            }
            if self.columns[i].name == key {
                found = Some(&self.columns[i].value);
            }
            i += 1;
        }
        proof {
            assert(self@.take(i as int) =~= self@);
        }
        found
    }
}

/// Builds the result row for one row of the store.
pub fn deliver_row(names: &Vec<String>, cells: &Vec<Option<StoreValue>>) -> (row: ResultRow)
    ensures
        row@ == row_of(name_views(names@), cell_views(cells@)),
{
    let mut columns: Vec<Column> = Vec::new();
    let mut i: usize = 0;
    while i < names.len()
        invariant
            i <= names.len(),
            columns.len() == i,
            forall|k: int|
                0 <= k < i ==> (#[trigger] columns[k])@ == row_of(
                    name_views(names@),
                    cell_views(cells@),
                )[k],
        decreases names.len() - i,
    {
        let value = if i < cells.len() {
            deliver_value(&cells[i])
        } else {
            ResultValue::Null
        };
        columns.push(Column { name: names[i].clone(), value });
        i += 1;
    }
    let row = ResultRow { columns };
    assert(row@ =~= row_of(name_views(names@), cell_views(cells@)));
    row
}

/// A row has exactly the declared columns, under their names and in their
/// order, whatever the store handed out.
pub proof fn lemma_row_keeps_columns(names: Seq<Seq<char>>, cells: Seq<Option<StoreValueView>>)
    ensures
        row_of(names, cells).len() == names.len(),
        forall|i: int| 0 <= i < names.len() ==> (#[trigger] row_of(names, cells)[i]).0 == names[i],
{
}

} // verus!
