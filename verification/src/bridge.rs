//! The course of one call: what to ask of the store next, and what to make of
//! its answer.
//!
//! A call opens a connection, prepares the statement, and then either starts
//! the query and fetches its rows one by one, or runs the statement once. The
//! bridge decides; a driver does what the bridge asks for and reports back.

use vstd::prelude::*;
use crate::error::{ExecutionError, Stage};
use crate::row::{ResultRow, cell_views, deliver_row, name_views, row_of};
use crate::statement::{StatementKind, classify, kind_of};
use crate::value::{InputValue, InputValueView, ParamValue, ParamValueView};
use crate::value::{ResultValueView, StoreValue, StoreValueView};
use crate::value::{bind_values, bound_all, input_views, param_views};

verus! {

/// What a call hands back: the rows of a reading statement, or the count of
/// rows that a writing statement changed and the identifier of the record
/// inserted last on the connection.
#[derive(Debug, PartialEq, Eq)]
pub struct Envelope {
    pub rows: Vec<ResultRow>,
    pub rows_affected: usize,
    pub last_insert_id: Option<i64>,
}

pub struct EnvelopeView {
    pub rows: Seq<Seq<(Seq<char>, ResultValueView)>>,
    pub rows_affected: usize,
    pub last_insert_id: Option<i64>,
}

/// The views of a list of rows.
pub open spec fn row_views(rows: Seq<ResultRow>) -> Seq<Seq<(Seq<char>, ResultValueView)>> {
    Seq::new(rows.len(), |i: int| rows[i]@)
}

impl View for Envelope {
    type V = EnvelopeView;

    open spec fn view(&self) -> EnvelopeView {
        EnvelopeView {
            rows: row_views(self.rows@),
            rows_affected: self.rows_affected,
            last_insert_id: self.last_insert_id,
        }
    }
}

/// What the driver is to do next.
#[derive(Clone, Copy, Debug, PartialEq, Eq, Structural)]
pub enum Request {
    /// Open a connection to the location.
    Open,
    /// Prepare the statement on the connection and read its column names.
    Prepare,
    /// Bind the parameters and start the query.
    Query,
    /// Fetch the next row of the query.
    NextRow,
    /// Bind the parameters and run the statement.
    Execute,
}

/// What the store answered.
#[derive(Debug, PartialEq, Eq)]
pub enum Event {
    /// The connection is open.
    Opened,
    /// The connection could not be opened.
    OpenFailed(String),
    /// The statement is prepared; the names of its output columns, each as
    /// far as the store could tell it.
    Prepared(Vec<Option<String>>),
    /// The statement could not be prepared.
    PrepareFailed(String),
    /// The parameters are bound and the query has started.
    QueryStarted,
    /// The parameters could not be bound, or the query could not start.
    QueryFailed(String),
    /// One more row; its cells, each as far as it could be read.
    Row(Vec<Option<StoreValue>>),
    /// The query has no more rows.
    RowsEnd,
    /// The next row could not be fetched.
    RowFailed(String),
    /// The statement has run.
    Executed { rows_affected: usize, last_insert_id: i64 },
    /// The parameters could not be bound, or the statement failed.
    ExecuteFailed(String),
}

pub enum EventView {
    Opened,
    OpenFailed(Seq<char>),
    Prepared(Seq<Option<Seq<char>>>),
    PrepareFailed(Seq<char>),
    QueryStarted,
    QueryFailed(Seq<char>),
    Row(Seq<Option<StoreValueView>>),
    RowsEnd,
    RowFailed(Seq<char>),
    Executed { rows_affected: usize, last_insert_id: i64 },
    ExecuteFailed(Seq<char>),
}

/// The views of the column names that the store declared.
pub open spec fn declared_views(names: Seq<Option<String>>) -> Seq<Option<Seq<char>>> {
    Seq::new(
        names.len(),
        |i: int|
            match names[i] {
                Some(name) => Some(name@),
                None => None,
            },
    )
}

impl View for Event {
    type V = EventView;

    open spec fn view(&self) -> EventView {
        match *self {
            Event::Opened => EventView::Opened,
            Event::OpenFailed(detail) => EventView::OpenFailed(detail@),
            Event::Prepared(names) => EventView::Prepared(declared_views(names@)),
            Event::PrepareFailed(detail) => EventView::PrepareFailed(detail@),
            Event::QueryStarted => EventView::QueryStarted,
            Event::QueryFailed(detail) => EventView::QueryFailed(detail@),
            Event::Row(cells) => EventView::Row(cell_views(cells@)),
            Event::RowsEnd => EventView::RowsEnd,
            Event::RowFailed(detail) => EventView::RowFailed(detail@),
            Event::Executed { rows_affected, last_insert_id } => EventView::Executed {
                rows_affected,
                last_insert_id,
            },
            Event::ExecuteFailed(detail) => EventView::ExecuteFailed(detail@),
        }
    }
}

/// A call under way.
#[derive(Debug, PartialEq, Eq)]
pub struct Bridge {
    /// What the driver is to do next.
    pub pending: Request,
    /// Where the store is.
    pub location: String,
    /// The statement, as the caller wrote it.
    pub query: String,
    /// The parameters to bind, in the order of the placeholders.
    pub params: Vec<ParamValue>,
    /// The labels of the output columns, once the statement is prepared.
    pub columns: Vec<String>,
    /// The rows fetched so far.
    pub rows: Vec<ResultRow>,
}

pub struct BridgeView {
    pub pending: Request,
    pub location: Seq<char>,
    pub query: Seq<char>,
    pub params: Seq<ParamValueView>,
    pub columns: Seq<Seq<char>>,
    pub rows: Seq<Seq<(Seq<char>, ResultValueView)>>,
}

impl View for Bridge {
    type V = BridgeView;

    open spec fn view(&self) -> BridgeView {
        BridgeView {
            pending: self.pending,
            location: self.location@,
            query: self.query@,
            params: param_views(self.params@),
            columns: name_views(self.columns@),
            rows: row_views(self.rows@),
        }
    }
}

/// How a call goes on after an answer of the store.
#[derive(Debug, PartialEq, Eq)]
pub enum Progress {
    /// The call goes on: the driver does what the bridge has pending.
    Ask(Bridge),
    /// The call is over.
    Done(Result<Envelope, ExecutionError>),
}

pub enum ProgressView {
    Ask(BridgeView),
    Done(Result<EnvelopeView, (Stage, Seq<char>)>),
}

impl View for Progress {
    type V = ProgressView;

    open spec fn view(&self) -> ProgressView {
        match *self {
            Progress::Ask(bridge) => ProgressView::Ask(bridge@),
            Progress::Done(Ok(envelope)) => ProgressView::Done(Ok(envelope@)),
            Progress::Done(Err(error)) => ProgressView::Done(Err(error@)),
        }
    }
}

/// The labels of the output columns: a name that the store could not tell
/// becomes the empty label.
pub open spec fn labels(names: Seq<Option<Seq<char>>>) -> Seq<Seq<char>> {
    Seq::new(
        names.len(),
        |i: int|
            match names[i] {
                Some(name) => name,
                None => Seq::empty(),
            },
    )
}

/// A call at its start: nothing is open yet, the parameters are bound in the
/// caller's order.
pub open spec fn started(
    location: Seq<char>,
    query: Seq<char>,
    values: Seq<InputValueView>,
) -> BridgeView {
    BridgeView {
        pending: Request::Open,
        location,
        query,
        params: bound_all(values),
        columns: Seq::empty(),
        rows: Seq::empty(),
    }
}

/// The failure of a stage, with the store's words.
pub open spec fn failed(stage: Stage, detail: Seq<char>) -> ProgressView {
    ProgressView::Done(Err((stage, detail)))
}

/// One step of a call. An answer of the store to what is pending moves the
/// call on or ends it; any failure ends it at once, under the stage that
/// failed. An answer to something that is not pending changes nothing.
pub open spec fn step(s: BridgeView, e: EventView) -> ProgressView {
    match (s.pending, e) {
        (Request::Open, EventView::Opened) => ProgressView::Ask(
            BridgeView { pending: Request::Prepare, ..s },
        ),
        (Request::Open, EventView::OpenFailed(detail)) => failed(Stage::Open, detail),
        (Request::Prepare, EventView::Prepared(names)) => match kind_of(s.query) {
            StatementKind::Read => ProgressView::Ask(
                BridgeView { pending: Request::Query, columns: labels(names), ..s },
            ),
            StatementKind::Write => ProgressView::Ask(
                BridgeView { pending: Request::Execute, ..s },
            ),
        },
        (Request::Prepare, EventView::PrepareFailed(detail)) => failed(Stage::Prepare, detail),
        (Request::Query, EventView::QueryStarted) => ProgressView::Ask(
            BridgeView { pending: Request::NextRow, ..s },
        ),
        (Request::Query, EventView::QueryFailed(detail)) => failed(Stage::Query, detail),
        (Request::NextRow, EventView::Row(cells)) => ProgressView::Ask(
            BridgeView { rows: s.rows.push(row_of(s.columns, cells)), ..s },
        ),
        (Request::NextRow, EventView::RowsEnd) => ProgressView::Done(
            Ok(EnvelopeView { rows: s.rows, rows_affected: 0, last_insert_id: None }),
        ),
        (Request::NextRow, EventView::RowFailed(detail)) => failed(Stage::Collect, detail),
        (Request::Execute, EventView::Executed { rows_affected, last_insert_id }) => {
            ProgressView::Done(
                Ok(
                    EnvelopeView {
                        rows: Seq::empty(),
                        rows_affected,
                        last_insert_id: Some(last_insert_id),
                    },
                ),
            )
        },
        (Request::Execute, EventView::ExecuteFailed(detail)) => failed(Stage::Execute, detail),
        _ => ProgressView::Ask(s),
    }
}

/// A call after a list of answers, taken in turn. Once the call is over,
/// further answers change nothing.
pub open spec fn run(p: ProgressView, events: Seq<EventView>) -> ProgressView
    decreases events.len(),
{
    if events.len() == 0 {
        p
    } else {
        match p {
            ProgressView::Done(_) => p,
            ProgressView::Ask(s) => run(step(s, events[0]), events.drop_first()),
        }
    }
}

/// Turns the declared column names into labels.
pub fn column_labels(names: &Vec<Option<String>>) -> (out: Vec<String>)
    ensures
        name_views(out@) == labels(declared_views(names@)),
{
    let mut out: Vec<String> = Vec::new();
    let mut i: usize = 0;
    while i < names.len()
        invariant
            i <= names.len(),
            out.len() == i,
            forall|k: int| 0 <= k < i ==> (#[trigger] out[k])@ == labels(declared_views(names@))[k],
        decreases names.len() - i,
    {
        let label = match &names[i] {
            Some(name) => name.clone(),
            None => String::new(),
        };
        out.push(label);
        i += 1;
    }
    assert(name_views(out@) =~= labels(declared_views(names@)));
    out
}

impl Bridge {
    /// Begins a call: binds the caller's values and asks for a connection.
    pub fn start(location: String, query: String, values: &Vec<InputValue>) -> (bridge: Bridge)
        ensures
            bridge@ == started(location@, query@, input_views(values@)),
            on_course(bridge@),
    {
        let bridge = Bridge {
            pending: Request::Open,
            location,
            query,
            params: bind_values(values),
            columns: Vec::new(),
            rows: Vec::new(),
        };
        assert(name_views(bridge.columns@) =~= Seq::empty());
        assert(row_views(bridge.rows@) =~= Seq::empty());
        bridge
    }

    /// The same call with something else pending.
    fn asking(self, pending: Request) -> (bridge: Bridge)
        ensures
            bridge@ == (BridgeView { pending, ..self@ }),
    {
        Bridge {
            pending,
            location: self.location,
            query: self.query,
            params: self.params,
            columns: self.columns,
            rows: self.rows,
        }
    }

    /// Takes one answer of the store and says how the call goes on.
    pub fn advance(self, event: Event) -> (progress: Progress)
        ensures
            progress@ == step(self@, event@),
            on_course(self@) ==> (progress@ matches ProgressView::Ask(next) ==> on_course(next)),
    {
        proof {
            if on_course(self@) {
                lemma_stays_on_course(self@, event@);
            }
        }
        match self.pending {
            Request::Open => match event {
                Event::Opened => Progress::Ask(self.asking(Request::Prepare)),
                Event::OpenFailed(detail) => Progress::Done(
                    Err(ExecutionError { stage: Stage::Open, detail }),
                ),
                _ => Progress::Ask(self),
            },
            Request::Prepare => match event {
                Event::Prepared(names) => match classify(self.query.as_str()) {
                    StatementKind::Read => {
                        let columns = column_labels(&names);
                        Progress::Ask(
                            Bridge {
                                pending: Request::Query,
                                location: self.location,
                                query: self.query,
                                params: self.params,
                                columns,
                                rows: self.rows,
                            },
                        )
                    },
                    StatementKind::Write => Progress::Ask(self.asking(Request::Execute)),
                },
                Event::PrepareFailed(detail) => Progress::Done(
                    Err(ExecutionError { stage: Stage::Prepare, detail }),
                ),
                _ => Progress::Ask(self),
            },
            Request::Query => match event {
                Event::QueryStarted => Progress::Ask(self.asking(Request::NextRow)),
                Event::QueryFailed(detail) => Progress::Done(
                    Err(ExecutionError { stage: Stage::Query, detail }),
                ),
                _ => Progress::Ask(self),
            },
            Request::NextRow => match event {
                Event::Row(cells) => {
                    let row = deliver_row(&self.columns, &cells);
                    let ghost before = row_views(self.rows@);
                    let mut rows = self.rows;
                    rows.push(row);
                    assert(row_views(rows@) =~= before.push(row@));
                    Progress::Ask(
                        Bridge {
                            pending: Request::NextRow,
                            location: self.location,
                            query: self.query,
                            params: self.params,
                            columns: self.columns,
                            rows,
                        },
                    )
                },
                Event::RowsEnd => Progress::Done(
                    Ok(Envelope { rows: self.rows, rows_affected: 0, last_insert_id: None }),
                ),
                Event::RowFailed(detail) => Progress::Done(
                    Err(ExecutionError { stage: Stage::Collect, detail }),
                ),
                _ => Progress::Ask(self),
            },
            Request::Execute => match event {
                Event::Executed { rows_affected, last_insert_id } => {
                    let envelope = Envelope {
                        rows: Vec::new(),
                        rows_affected,
                        last_insert_id: Some(last_insert_id),
                    };
                    assert(row_views(envelope.rows@) =~= Seq::empty());
                    Progress::Done(Ok(envelope))
                },
                Event::ExecuteFailed(detail) => Progress::Done(
                    Err(ExecutionError { stage: Stage::Execute, detail }),
                ),
                _ => Progress::Ask(self),
            },
        }
    }
}

/// Whether a call is in a state that a call can reach from its start: what
/// is pending fits the kind of its statement, and rows are held only while
/// rows are fetched.
pub open spec fn on_course(s: BridgeView) -> bool {
    &&& match kind_of(s.query) {
        StatementKind::Read => s.pending != Request::Execute,
        StatementKind::Write => s.pending != Request::Query && s.pending != Request::NextRow,
    }
    &&& s.pending != Request::NextRow ==> s.rows.len() == 0
}

/// The answers of the store for the rows of a query, one for each.
pub open spec fn row_events(cells: Seq<Seq<Option<StoreValueView>>>) -> Seq<EventView> {
    Seq::new(cells.len(), |i: int| EventView::Row(cells[i]))
}

/// The result rows for the rows of a query, one for each, in their order.
pub open spec fn rows_of(columns: Seq<Seq<char>>, cells: Seq<Seq<Option<StoreValueView>>>) -> Seq<
    Seq<(Seq<char>, ResultValueView)>,
> {
    Seq::new(cells.len(), |i: int| row_of(columns, cells[i]))
}

/// The answers of the store in a reading call that meets no failure: the
/// connection, the prepared statement with its column names, the start of
/// the query, each row, and the end of the rows.
pub open spec fn read_answers(
    names: Seq<Option<Seq<char>>>,
    cells: Seq<Seq<Option<StoreValueView>>>,
) -> Seq<EventView> {
    seq![EventView::Opened, EventView::Prepared(names), EventView::QueryStarted] + row_events(
        cells,
    ).push(EventView::RowsEnd)
}

/// The answers of the store in a writing call that meets no failure.
pub open spec fn write_answers(
    names: Seq<Option<Seq<char>>>,
    rows_affected: usize,
    last_insert_id: i64,
) -> Seq<EventView> {
    seq![
        EventView::Opened,
        EventView::Prepared(names),
        EventView::Executed { rows_affected, last_insert_id },
    ]
}

/// A call is started on course, and every step keeps it there.
pub proof fn lemma_stays_on_course(s: BridgeView, e: EventView)
    requires
        on_course(s),
    ensures
        step(s, e) matches ProgressView::Ask(next) ==> on_course(next) && next.query == s.query
            && next.location == s.location && next.params == s.params,
        forall|location: Seq<char>, query: Seq<char>, values: Seq<InputValueView>|
            on_course(#[trigger] started(location, query, values)),
{
}

/// While rows are fetched, every row that the store hands out adds one
/// result row, in order, and the end of the rows ends the call with all of
/// them, no affected rows and no inserted record.
pub proof fn lemma_fetch_keeps_every_row(s: BridgeView, cells: Seq<Seq<Option<StoreValueView>>>)
    requires
        s.pending == Request::NextRow,
    ensures
        run(ProgressView::Ask(s), row_events(cells).push(EventView::RowsEnd)) == ProgressView::Done(
            Ok(
                EnvelopeView {
                    rows: s.rows + rows_of(s.columns, cells),
                    rows_affected: 0,
                    last_insert_id: None,
                },
            ),
        ),
    decreases cells.len(),
{
    let events = row_events(cells).push(EventView::RowsEnd);
    if cells.len() == 0 {
        assert(events.drop_first().len() == 0);
        assert(run(step(s, events[0]), events.drop_first()) == step(s, events[0]));
        assert(s.rows + rows_of(s.columns, cells) =~= s.rows);
    } else {
        let rest = cells.drop_first();
        let next = BridgeView { rows: s.rows.push(row_of(s.columns, cells[0])), ..s };
        assert(events[0] == EventView::Row(cells[0]));
        assert(step(s, events[0]) == ProgressView::Ask(next));
        assert(events.drop_first() =~= row_events(rest).push(EventView::RowsEnd));
        lemma_fetch_keeps_every_row(next, rest);
        assert(next.rows + rows_of(next.columns, rest) =~= s.rows + rows_of(s.columns, cells));
    }
}

/// A reading statement returns as many rows as the store hands out: the
/// envelope holds one result row for each, in the store's order, under the
/// declared column labels, with no affected rows and no inserted record.
pub proof fn lemma_read_returns_every_row(
    location: Seq<char>,
    query: Seq<char>,
    values: Seq<InputValueView>,
    names: Seq<Option<Seq<char>>>,
    cells: Seq<Seq<Option<StoreValueView>>>,
)
    requires
        kind_of(query) == StatementKind::Read,
    ensures
        run(ProgressView::Ask(started(location, query, values)), read_answers(names, cells))
            == ProgressView::Done(
            Ok(
                EnvelopeView {
                    rows: rows_of(labels(names), cells),
                    rows_affected: 0,
                    last_insert_id: None,
                },
            ),
        ),
        rows_of(labels(names), cells).len() == cells.len(),
{
    let s0 = started(location, query, values);
    let s1 = BridgeView { pending: Request::Prepare, ..s0 };
    let s2 = BridgeView { pending: Request::Query, columns: labels(names), ..s1 };
    let s3 = BridgeView { pending: Request::NextRow, ..s2 };
    let tail = row_events(cells).push(EventView::RowsEnd);
    let e0 = read_answers(names, cells);
    let e1 = e0.drop_first();
    let e2 = e1.drop_first();
    let e3 = e2.drop_first();
    assert(e0[0] == EventView::Opened);
    assert(e1[0] == EventView::Prepared(names));
    assert(e2[0] == EventView::QueryStarted);
    assert(e3 =~= tail);
    assert(step(s0, e0[0]) == ProgressView::Ask(s1));
    assert(step(s1, e1[0]) == ProgressView::Ask(s2));
    assert(step(s2, e2[0]) == ProgressView::Ask(s3));
    assert(run(ProgressView::Ask(s0), e0) == run(ProgressView::Ask(s1), e1));
    assert(run(ProgressView::Ask(s1), e1) == run(ProgressView::Ask(s2), e2));
    assert(run(ProgressView::Ask(s2), e2) == run(ProgressView::Ask(s3), e3));
    lemma_fetch_keeps_every_row(s3, cells);
    assert(s3.rows + rows_of(s3.columns, cells) =~= rows_of(labels(names), cells));
}

/// A writing statement returns no rows, the count of affected rows that the
/// store reports, and the identifier that the store reports.
pub proof fn lemma_write_returns_report(
    location: Seq<char>,
    query: Seq<char>,
    values: Seq<InputValueView>,
    names: Seq<Option<Seq<char>>>,
    rows_affected: usize,
    last_insert_id: i64,
)
    requires
        kind_of(query) == StatementKind::Write,
    ensures
        run(
            ProgressView::Ask(started(location, query, values)),
            write_answers(names, rows_affected, last_insert_id),
        ) == ProgressView::Done(
            Ok(
                EnvelopeView {
                    rows: Seq::empty(),
                    rows_affected,
                    last_insert_id: Some(last_insert_id),
                },
            ),
        ),
{
    let s0 = started(location, query, values);
    let s1 = BridgeView { pending: Request::Prepare, ..s0 };
    let s2 = BridgeView { pending: Request::Execute, ..s1 };
    let e0 = write_answers(names, rows_affected, last_insert_id);
    let e1 = e0.drop_first();
    let e2 = e1.drop_first();
    assert(e0[0] == EventView::Opened);
    assert(e1[0] == EventView::Prepared(names));
    assert(e2[0] == EventView::Executed { rows_affected, last_insert_id });
    assert(e2.drop_first().len() == 0);
    assert(step(s0, e0[0]) == ProgressView::Ask(s1));
    assert(step(s1, e1[0]) == ProgressView::Ask(s2));
    assert(run(ProgressView::Ask(s0), e0) == run(ProgressView::Ask(s1), e1));
    assert(run(ProgressView::Ask(s1), e1) == run(ProgressView::Ask(s2), e2));
    assert(run(ProgressView::Ask(s2), e2) == run(step(s2, e2[0]), e2.drop_first()));
}

/// Whatever the store answers and in whatever order, the envelope of a call
/// goes by the kind of its statement. That of a writing statement has no
/// rows, and its count and identifier are those of one report of the store
/// among the answers. That of a reading statement has no affected rows and
/// no inserted record.
pub proof fn lemma_envelope_goes_by_kind(
    s: BridgeView,
    events: Seq<EventView>,
    envelope: EnvelopeView,
)
    requires
        on_course(s),
        run(ProgressView::Ask(s), events) == ProgressView::Done(Ok(envelope)),
    ensures
        kind_of(s.query) == StatementKind::Write ==> envelope.rows.len() == 0 && exists|k: int|
            0 <= k < events.len() && #[trigger] events[k] == (EventView::Executed {
                rows_affected: envelope.rows_affected,
                last_insert_id: envelope.last_insert_id.unwrap(),
            }) && envelope.last_insert_id.is_some(),
        kind_of(s.query) == StatementKind::Read ==> envelope.rows_affected == 0
            && envelope.last_insert_id.is_none(),
    decreases events.len(),
{
    if events.len() > 0 {
        let rest = events.drop_first();
        match step(s, events[0]) {
            ProgressView::Ask(next) => {
                lemma_stays_on_course(s, events[0]);
                lemma_envelope_goes_by_kind(next, rest, envelope);
                if kind_of(s.query) == StatementKind::Write {
                    let k = choose|k: int|
                        0 <= k < rest.len() && #[trigger] rest[k] == (EventView::Executed {
                            rows_affected: envelope.rows_affected,
                            last_insert_id: envelope.last_insert_id.unwrap(),
                        }) && envelope.last_insert_id.is_some();
                    assert(events[k + 1] == rest[k]);
                }
            },
            ProgressView::Done(outcome) => {
                assert(run(step(s, events[0]), rest) == step(s, events[0]));
                if kind_of(s.query) == StatementKind::Write {
                    assert(events[0] == (EventView::Executed {
                        rows_affected: envelope.rows_affected,
                        last_insert_id: envelope.last_insert_id.unwrap(),
                    }));
                }
            },
        }
    }
}

/// Whether two calls stand at the same point: the same thing is pending,
/// their statements are of one kind, and they hold the same column labels
/// and the same rows.
pub open spec fn alike(a: BridgeView, b: BridgeView) -> bool {
    &&& a.pending == b.pending
    &&& kind_of(a.query) == kind_of(b.query)
    &&& a.columns == b.columns
    &&& a.rows == b.rows
}

/// Whether two calls have come equally far: both are over with the same
/// outcome, or both go on and stand at the same point.
pub open spec fn equally_far(p: ProgressView, q: ProgressView) -> bool {
    match (p, q) {
        (ProgressView::Done(x), ProgressView::Done(y)) => x == y,
        (ProgressView::Ask(a), ProgressView::Ask(b)) => alike(a, b),
        _ => false,
    }
}

/// The outcome of a call goes by the answers of the store alone: two calls
/// that stand at the same point and are answered alike end alike. So the
/// same statement, run twice with the same values on a store that answers
/// the same, gives the same envelope twice.
pub proof fn lemma_same_answers_same_outcome(a: BridgeView, b: BridgeView, events: Seq<EventView>)
    requires
        alike(a, b),
    ensures
        equally_far(run(ProgressView::Ask(a), events), run(ProgressView::Ask(b), events)),
        a == b ==> run(ProgressView::Ask(a), events) == run(ProgressView::Ask(b), events),
    decreases events.len(),
{
    if events.len() > 0 {
        let rest = events.drop_first();
        let p = step(a, events[0]);
        let q = step(b, events[0]);
        assert(equally_far(p, q));
        match (p, q) {
            (ProgressView::Ask(x), ProgressView::Ask(y)) => {
                lemma_same_answers_same_outcome(x, y, rest);
            },
            _ => {
                assert(run(p, rest) == p);
                assert(run(q, rest) == q);
            },
        }
    }
}

} // verus!
