//! The values that cross the bridge: what the caller supplies, what is bound
//! to the statement, what the store holds and what the caller gets back.

use vstd::prelude::*;

verus! {

/// A number as the caller wrote it, seen three ways.
#[derive(Debug, PartialEq, Eq)]
pub struct InputNumber {
    /// The number as a signed 64-bit integer, where it is one.
    pub integer: Option<i64>,
    /// The bits of the number as a double, where it has such a form.
    pub real: Option<u64>,
    /// The number as the caller's text.
    pub text: String,
}

pub struct InputNumberView {
    pub integer: Option<i64>,
    pub real: Option<u64>,
    pub text: Seq<char>,
}

impl View for InputNumber {
    type V = InputNumberView;

    open spec fn view(&self) -> InputNumberView {
        InputNumberView { integer: self.integer, real: self.real, text: self.text@ }
    }
}

/// A value as the loosely typed caller supplies it.
#[derive(Debug, PartialEq, Eq)]
pub enum InputValue {
    Null,
    Bool(bool),
    Number(InputNumber),
    Text(String),
    /// A list or a record, held as its textual form.
    Nested(String),
}

pub enum InputValueView {
    Null,
    Bool(bool),
    Number(InputNumberView),
    Text(Seq<char>),
    Nested(Seq<char>),
}

impl View for InputValue {
    type V = InputValueView;

    open spec fn view(&self) -> InputValueView {
        match *self {
            InputValue::Null => InputValueView::Null,
            InputValue::Bool(b) => InputValueView::Bool(b),
            InputValue::Number(n) => InputValueView::Number(n@),
            InputValue::Text(s) => InputValueView::Text(s@),
            InputValue::Nested(s) => InputValueView::Nested(s@),
        }
    }
}

/// A value bound to one positional placeholder of a statement.
#[derive(Debug, PartialEq, Eq)]
pub enum ParamValue {
    Null,
    Bool(bool),
    Integer(i64),
    /// The bits of a double.
    Real(u64),
    Text(String),
}

pub enum ParamValueView {
    Null,
    Bool(bool),
    Integer(i64),
    Real(u64),
    Text(Seq<char>),
}

impl View for ParamValue {
    type V = ParamValueView;

    open spec fn view(&self) -> ParamValueView {
        match *self {
            ParamValue::Null => ParamValueView::Null,
            ParamValue::Bool(b) => ParamValueView::Bool(b),
            ParamValue::Integer(i) => ParamValueView::Integer(i),
            ParamValue::Real(r) => ParamValueView::Real(r),
            ParamValue::Text(s) => ParamValueView::Text(s@),
        }
    }
}

/// A value in the store's own typing.
#[derive(Debug, PartialEq, Eq)]
pub enum StoreValue {
    Null,
    Integer(i64),
    /// The bits of a double.
    Real(u64),
    Text(String),
    Blob(Vec<u8>),
}

pub enum StoreValueView {
    Null,
    Integer(i64),
    Real(u64),
    Text(Seq<char>),
    Blob(Seq<u8>),
}

impl View for StoreValue {
    type V = StoreValueView;

    open spec fn view(&self) -> StoreValueView {
        match *self {
            StoreValue::Null => StoreValueView::Null,
            StoreValue::Integer(i) => StoreValueView::Integer(i),
            StoreValue::Real(r) => StoreValueView::Real(r),
            StoreValue::Text(s) => StoreValueView::Text(s@),
            StoreValue::Blob(b) => StoreValueView::Blob(b@),
        }
    }
}

/// A value of a result row. A blob has no form here.
#[derive(Debug, PartialEq, Eq)]
pub enum ResultValue {
    Null,
    Integer(i64),
    /// The bits of a double.
    Real(u64),
    Text(String),
}

pub enum ResultValueView {
    Null,
    Integer(i64),
    Real(u64),
    Text(Seq<char>),
}

impl View for ResultValue {
    type V = ResultValueView;

    open spec fn view(&self) -> ResultValueView {
        match *self {
            ResultValue::Null => ResultValueView::Null,
            ResultValue::Integer(i) => ResultValueView::Integer(i),
            ResultValue::Real(r) => ResultValueView::Real(r),
            ResultValue::Text(s) => ResultValueView::Text(s@),
        }
    }
}

/// The parameter that stands for a caller's value: text stays text, a number
/// that is a signed 64-bit integer is bound as one, any other number as a
/// double, or as its text where it has no double form; a nested structure is
/// bound as its text.
pub open spec fn bound(v: InputValueView) -> ParamValueView {
    match v {
        InputValueView::Null => ParamValueView::Null,
        InputValueView::Bool(b) => ParamValueView::Bool(b),
        InputValueView::Number(n) => match n.integer {
            Some(i) => ParamValueView::Integer(i),
            None => match n.real {
                Some(r) => ParamValueView::Real(r),
                None => ParamValueView::Text(n.text),
            },
        },
        InputValueView::Text(s) => ParamValueView::Text(s),
        InputValueView::Nested(s) => ParamValueView::Text(s),
    }
}

/// The parameters for a list of values: one for each, in the same position.
pub open spec fn bound_all(values: Seq<InputValueView>) -> Seq<ParamValueView> {
    Seq::new(values.len(), |i: int| bound(values[i]))
}

/// The views of a list of callers' values.
pub open spec fn input_views(values: Seq<InputValue>) -> Seq<InputValueView> {
    Seq::new(values.len(), |i: int| values[i]@)
}

/// The views of a list of parameters.
pub open spec fn param_views(params: Seq<ParamValue>) -> Seq<ParamValueView> {
    Seq::new(params.len(), |i: int| params[i]@)
}

/// Whether the bits of a double encode no number.
pub open spec fn is_not_a_number(bits: u64) -> bool {
    bits & 0x7fff_ffff_ffff_ffffu64 > 0x7ff0_0000_0000_0000u64
}

/// The value that the store holds once a parameter was written to a column
/// that keeps values as they come: a boolean is kept as the integer 1 or 0,
/// and a double that encodes no number as null.
pub open spec fn stored(p: ParamValueView) -> StoreValueView {
    match p {
        ParamValueView::Null => StoreValueView::Null,
        ParamValueView::Bool(b) => StoreValueView::Integer(if b { 1i64 } else { 0i64 }),
        ParamValueView::Integer(i) => StoreValueView::Integer(i),
        ParamValueView::Real(r) => if is_not_a_number(r) {
            StoreValueView::Null
        } else {
            StoreValueView::Real(r)
        },
        ParamValueView::Text(s) => StoreValueView::Text(s),
    }
}

/// The result value for one cell of a row. A cell that could not be read, and
/// a blob, come back as null.
pub open spec fn delivered(cell: Option<StoreValueView>) -> ResultValueView {
    match cell {
        None => ResultValueView::Null,
        Some(StoreValueView::Null) => ResultValueView::Null,
        Some(StoreValueView::Integer(i)) => ResultValueView::Integer(i),
        Some(StoreValueView::Real(r)) => ResultValueView::Real(r),
        Some(StoreValueView::Text(s)) => ResultValueView::Text(s),
        Some(StoreValueView::Blob(_)) => ResultValueView::Null,
    }
}

/// The view of a cell.
pub open spec fn cell_view(cell: Option<StoreValue>) -> Option<StoreValueView> {
    match cell {
        None => None,
        Some(v) => Some(v@),
    }
}

/// Turns one caller's value into the parameter that is bound for it.
pub fn bind_value(value: &InputValue) -> (param: ParamValue)
    ensures
        param@ == bound(value@),
{
    match value {
        InputValue::Null => ParamValue::Null,
        InputValue::Bool(b) => ParamValue::Bool(*b),
        InputValue::Number(n) => match n.integer {
            Some(i) => ParamValue::Integer(i),
            None => match n.real {
                Some(r) => ParamValue::Real(r),
                None => ParamValue::Text(n.text.clone()),
            },
        },
        InputValue::Text(s) => ParamValue::Text(s.clone()),
        InputValue::Nested(s) => ParamValue::Text(s.clone()),
    }
}

/// Turns the caller's values into parameters, position by position.
pub fn bind_values(values: &Vec<InputValue>) -> (params: Vec<ParamValue>)
    ensures
        param_views(params@) == bound_all(input_views(values@)),
{
    let mut params: Vec<ParamValue> = Vec::new();
    let mut i: usize = 0;
    while i < values.len()
        invariant
            i <= values.len(),
            params.len() == i,
            forall|k: int| 0 <= k < i ==> (#[trigger] params[k])@ == bound(values[k]@),
        decreases values.len() - i,
    {
        params.push(bind_value(&values[i]));
        i += 1;
    }
    assert(param_views(params@) =~= bound_all(input_views(values@)));
    params
}

/// Turns one cell of a row into a result value.
pub fn deliver_value(cell: &Option<StoreValue>) -> (value: ResultValue)
    ensures
        value@ == delivered(cell_view(*cell)),
{
    match cell {
        None => ResultValue::Null,
        Some(StoreValue::Null) => ResultValue::Null,
        Some(StoreValue::Integer(i)) => ResultValue::Integer(*i),
        Some(StoreValue::Real(r)) => ResultValue::Real(*r),
        Some(StoreValue::Text(s)) => ResultValue::Text(s.clone()),
        Some(StoreValue::Blob(_)) => ResultValue::Null,
    }
}

/// Binding is positional: where two of the caller's values change places,
/// the two parameters bound for them change places, and every other
/// parameter stays.
pub proof fn lemma_binding_is_positional(values: Seq<InputValueView>, i: int, j: int)
    requires
        0 <= i < values.len(),
        0 <= j < values.len(),
    ensures
        bound_all(values.update(i, values[j]).update(j, values[i])) == bound_all(values).update(
            i,
            bound_all(values)[j],
        ).update(j, bound_all(values)[i]),
        forall|k: int| 0 <= k < values.len() ==> #[trigger] bound_all(values)[k] == bound(values[k]),
{
    assert(bound_all(values.update(i, values[j]).update(j, values[i])) =~= bound_all(
        values,
    ).update(i, bound_all(values)[j]).update(j, bound_all(values)[i]));
}

/// A value that was bound, written and read back unchanged by the store
/// comes back as itself: null as null, an integer, a double and a text with
/// the same content. The two exceptions: a boolean comes back as the integer
/// 1 or 0, and a double that encodes no number as null.
pub proof fn lemma_round_trip(p: ParamValueView)
    ensures
        delivered(Some(stored(p))) == match p {
            ParamValueView::Null => ResultValueView::Null,
            ParamValueView::Bool(b) => ResultValueView::Integer(if b { 1i64 } else { 0i64 }),
            ParamValueView::Integer(i) => ResultValueView::Integer(i),
            ParamValueView::Real(r) => if is_not_a_number(r) {
                ResultValueView::Null
            } else {
                ResultValueView::Real(r)
            },
            ParamValueView::Text(s) => ResultValueView::Text(s),
        },
{
}

} // verus!
