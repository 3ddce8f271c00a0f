//! What holds of the connector as a whole, proved of its model.
//!
//! The lifecycle functions of [`crate::fdw::CorrentlyFdw`] are specified by
//! the functions of [`FdwModel`] that carry their names. The laws below are
//! stated over those, so they hold of every run of the connector.

use crate::decimal::DecimalModel;
use crate::error::FdwErrorModel;
use crate::fdw::{decode, first_undeclared_at, status_is_success, FdwModel};
use crate::json::{parsed_json, Json};
use crate::parser::{
    field_valid, first_invalid, flatten_spec, forecast_items, lemma_invalid_record_fails,
    lemma_valid_array_flattens, record_of,
};
use crate::qual::{extract_i64, extract_string, QualModel};
use crate::record::{timestamp_in_range, RecordModel};
use crate::request::{hours_limit, request_url, RequestModel};
use crate::schema::{CellModel, Column, ColumnKind};
use crate::text::decimal;
use vstd::prelude::*;

verus! {

/// The rows that iteration delivers from the state `state` on, until it
/// reports the end or fails.
pub open spec fn drain(state: FdwModel, columns: Seq<Seq<char>>) -> Seq<Seq<CellModel>>
    decreases state.rows.len() - state.cursor,
{
    match state.iter_scan(columns) {
        (next, Ok(Some(cells))) => seq![cells] + drain(next, columns),
        _ => Seq::empty(),
    }
}

/// The state in which that iteration stops.
pub open spec fn drained(state: FdwModel, columns: Seq<Seq<char>>) -> FdwModel
    decreases state.rows.len() - state.cursor,
{
    match state.iter_scan(columns) {
        (next, Ok(Some(_))) => drained(next, columns),
        _ => state,
    }
}

/// Whether the schema declares every one of the requested columns.
pub open spec fn all_declared(columns: Seq<Seq<char>>) -> bool {
    forall|index: int| 0 <= index < columns.len() ==> Column::declares(#[trigger] columns[index])
}

/// The row `row` of the table in the requested columns.
pub open spec fn rendered(state: FdwModel, columns: Seq<Seq<char>>, row: int) -> Seq<CellModel> {
    columns.map_values(|name: Seq<char>| state.rows[row].cell(Column::named(name)))
}

/// From any well-formed state, iteration in declared columns delivers the
/// rows from the cursor to the end, each in the requested columns, and
/// stops with every row delivered and the cache as it was.
pub proof fn lemma_drain(state: FdwModel, columns: Seq<Seq<char>>)
    requires
        state.wf(),
        all_declared(columns),
    ensures
        drain(state, columns).len() == state.rows.len() - state.cursor,
        forall|k: int|
            0 <= k < state.rows.len() - state.cursor ==> #[trigger] drain(state, columns)[k]
                == rendered(state, columns, state.cursor + k),
        drained(state, columns) == (FdwModel { cursor: state.rows.len(), ..state }),
    decreases state.rows.len() - state.cursor,
{
    if !state.exhausted() {
        assert forall|index: int| !first_undeclared_at(columns, index) by {}
        let next = FdwModel { cursor: state.cursor + 1, ..state };
        lemma_drain(next, columns);
        let rest = drain(next, columns);
        let all = drain(state, columns);
        assert(all == seq![rendered(state, columns, state.cursor as int)] + rest);
        assert forall|k: int| 0 <= k < state.rows.len() - state.cursor implies #[trigger] all[k]
            == rendered(state, columns, state.cursor + k) by {
            if k > 0 {
                assert(all[k] == rest[k - 1]);
                assert(rendered(next, columns, next.cursor + (k - 1)) == rendered(
                    state,
                    columns,
                    state.cursor + k,
                ));
            }
        }
    }
}

/// A completed scan over a response whose `forecast` array holds `n`
/// records, each with every field present and of its type, caches `n` rows,
/// one per record and in their order, stores the parameters of the query,
/// puts the cursor at the start and delivers exactly `n` rows by iteration.
pub proof fn lemma_scan_delivers_every_record(
    state: FdwModel,
    quals: Seq<QualModel>,
    postal_code: Seq<char>,
    status: u16,
    body: Seq<char>,
    doc: Json,
    items: Seq<Json>,
    columns: Seq<Seq<char>>,
)
    requires
        extract_string(quals, "postal_code"@) == Some(postal_code),
        status_is_success(status),
        parsed_json(body) == Ok::<Json, Seq<char>>(doc),
        forecast_items(doc) == Some(items),
        forall|index: int| 0 <= index < items.len() ==> first_invalid(#[trigger] items[index]) is None,
        all_declared(columns),
    ensures
        ({
            let (begun, request) = state.begin_scan(quals);
            let (loaded, outcome) = begun.load_response(status, body);
            &&& request is Ok
            &&& outcome is Ok
            &&& loaded.wf()
            &&& loaded.rows.len() == items.len()
            &&& forall|row: int|
                0 <= row < items.len() ==> #[trigger] loaded.rows[row] == record_of(items[row])
            &&& loaded.cursor == 0
            &&& loaded.postal_code == postal_code
            &&& loaded.hours == hours_limit(extract_i64(quals, "hours"@))
            &&& drain(loaded, columns).len() == items.len()
            &&& drained(loaded, columns).exhausted()
        }),
{
    lemma_valid_array_flattens(doc, items);
    let (begun, request) = state.begin_scan(quals);
    let (loaded, outcome) = begun.load_response(status, body);
    let rows = flatten_spec(doc)->Ok_0;
    assert(decode(body) == Ok::<Seq<RecordModel>, FdwErrorModel>(rows));
    assert(begun.rows + rows =~= rows);
    assert(loaded.rows == rows);
    lemma_drain(loaded, columns);
}

/// A body whose `forecast` array holds `n` records, each with every field
/// present and of its type, parses: `n` rows are appended to the cache, one
/// per record and in their order, and the cursor stays.
pub proof fn lemma_parse_caches_every_record(
    state: FdwModel,
    body: Seq<char>,
    doc: Json,
    items: Seq<Json>,
)
    requires
        parsed_json(body) == Ok::<Json, Seq<char>>(doc),
        forecast_items(doc) == Some(items),
        forall|index: int| 0 <= index < items.len() ==> first_invalid(#[trigger] items[index]) is None,
    ensures
        ({
            let (parsed, outcome) = state.parse_forecast_response(body);
            &&& outcome is Ok
            &&& parsed.rows.len() == state.rows.len() + items.len()
            &&& parsed.rows.subrange(0, state.rows.len() as int) == state.rows
            &&& forall|row: int|
                0 <= row < items.len() ==> #[trigger] parsed.rows[state.rows.len() + row]
                    == record_of(items[row])
            &&& parsed.cursor == state.cursor
        }),
{
    lemma_valid_array_flattens(doc, items);
    let (parsed, outcome) = state.parse_forecast_response(body);
    assert(parsed.rows.subrange(0, state.rows.len() as int) =~= state.rows);
}

/// A body whose `forecast` array holds a record that is not valid does not
/// parse: the failure names the first field that is not valid in the first
/// such record, and the place of that record, and no row of the body is
/// kept.
pub proof fn lemma_parse_fails_at_first_invalid(
    state: FdwModel,
    body: Seq<char>,
    doc: Json,
    items: Seq<Json>,
    index: int,
)
    requires
        parsed_json(body) == Ok::<Json, Seq<char>>(doc),
        forecast_items(doc) == Some(items),
        0 <= index < items.len(),
        first_invalid(items[index]) is Some,
        forall|earlier: int| 0 <= earlier < index ==> first_invalid(#[trigger] items[earlier]) is None,
    ensures
        state.parse_forecast_response(body) == (
            state,
            Err::<(), FdwErrorModel>(
                FdwErrorModel::InvalidField {
                    column: first_invalid(items[index])->0,
                    index: index as nat,
                },
            ),
        ),
{
    lemma_invalid_record_fails(doc, items, index);
}

/// A scan never stores or sends a negative number of hours: once a scan has
/// begun, the hours-ahead limit is absent or at least zero, the URL of the
/// request carries the hours exactly where the limit is present, and a
/// negative number in the query leaves the scan without a limit.
pub proof fn lemma_hours_never_negative(state: FdwModel, quals: Seq<QualModel>)
    ensures
        ({
            let (begun, request) = state.begin_scan(quals);
            &&& (request is Ok && begun.hours is Some) ==> begun.hours->0 >= 0
            &&& request matches Ok(request) ==> request.url == request_url(
                state.base_url,
                begun.postal_code,
                state.api_key,
                begun.hours,
            )
            &&& (request is Ok && extract_i64(quals, "hours"@) is Some && extract_i64(
                quals,
                "hours"@,
            )->0 < 0) ==> begun.hours is None && request->Ok_0.url == request_url(
                state.base_url,
                begun.postal_code,
                state.api_key,
                None,
            )
        }),
{
}

/// Rescanning after a scan was fully iterated goes back to the state in
/// which the scan began, so a second iteration delivers every row again, the
/// same rows in the same order. The cache is not touched and no request is
/// made.
pub proof fn lemma_rescan_replays(state: FdwModel, first: Seq<Seq<char>>, again: Seq<Seq<char>>)
    requires
        state.wf(),
        all_declared(first),
        all_declared(again),
    ensures
        drained(state, first).exhausted(),
        drained(state, first).rewound() == state.rewound(),
        drain(drained(state, first).rewound(), again) == drain(state.rewound(), again),
        drain(state.rewound(), again).len() == state.rows.len(),
        forall|row: int|
            0 <= row < state.rows.len() ==> #[trigger] drain(state.rewound(), again)[row]
                == rendered(state, again, row),
{
    lemma_drain(state, first);
    lemma_drain(state.rewound(), again);
    assert forall|row: int| 0 <= row < state.rows.len() implies #[trigger] drain(
        state.rewound(),
        again,
    )[row] == rendered(state, again, row) by {
        assert(rendered(state.rewound(), again, 0 + row) == rendered(state, again, row));
    }
}

/// Every step of the lifecycle leaves a well-formed state well formed: the
/// cursor stays within the rows, and the hours-ahead limit is not negative.
pub proof fn lemma_lifecycle_keeps_wf(
    state: FdwModel,
    quals: Seq<QualModel>,
    status: u16,
    body: Seq<char>,
    columns: Seq<Seq<char>>,
)
    requires
        state.wf(),
    ensures
        state.cleared().wf(),
        state.rewound().wf(),
        state.begin_scan(quals).0.wf(),
        FdwModel::idle().wf(),
        forall|api_key: Seq<char>, api_url: Option<Seq<char>>|
            (#[trigger] FdwModel::initialized(api_key, api_url)).wf(),
        state.parse_forecast_response(body).0.wf(),
        state.load_response(status, body).0.wf(),
        state.iter_scan(columns).0.wf(),
{
}

/// Rewinding twice is rewinding once, and so is clearing.
pub proof fn lemma_rewind_and_clear_idempotent(state: FdwModel)
    ensures
        state.rewound().rewound() == state.rewound(),
        state.cleared().cleared() == state.cleared(),
{
}

/// A row is served in the requested columns only: one cell per requested
/// column, in their order, each of the semantic type of its column.
pub proof fn lemma_row_shape(state: FdwModel, columns: Seq<Seq<char>>)
    requires
        state.wf(),
        !state.exhausted(),
        all_declared(columns),
    ensures
        state.iter_scan(columns).1 matches Ok(Some(cells)) && cells.len() == columns.len()
            && forall|index: int|
            0 <= index < columns.len() ==> {
                &&& #[trigger] cells[index] == state.rows[state.cursor as int].cell(
                    Column::named(columns[index]),
                )
                &&& cells[index].kind() == Column::named(columns[index]).kind_spec()
            },
{
    assert forall|index: int| !first_undeclared_at(columns, index) by {}
    let cells = rendered(state, columns, state.cursor as int);
    assert forall|index: int| 0 <= index < columns.len() implies (#[trigger] cells[index]).kind()
        == Column::named(columns[index]).kind_spec() by {
        lemma_cell_kind(state.rows[state.cursor as int], Column::named(columns[index]));
    }
}

/// A request for a column that the schema does not declare fails with the
/// name of the first such column, and the cursor stays.
pub proof fn lemma_undeclared_column_fails(state: FdwModel, columns: Seq<Seq<char>>, index: int)
    requires
        !state.exhausted(),
        first_undeclared_at(columns, index),
    ensures
        state.iter_scan(columns) == (
            state,
            Err::<Option<Seq<CellModel>>, FdwErrorModel>(
                FdwErrorModel::UnknownColumn { name: columns[index] },
            ),
        ),
{
    let chosen = choose|at: int| first_undeclared_at(columns, at);
    assert(chosen == index);
}

/// The cell of a column has the semantic type of the column.
pub proof fn lemma_cell_kind(record: RecordModel, column: Column)
    ensures
        record.cell(column).kind() == column.kind_spec(),
{
}

/// An instant is rendered as its milliseconds times one thousand, wherever
/// an `i64` holds that many microseconds.
pub proof fn lemma_timestamp_scaled(record: RecordModel, column: Column)
    requires
        column.kind_spec() == ColumnKind::Timestamp,
        timestamp_in_range(record.millis(column)),
    ensures
        record.cell(column) matches CellModel::Timestamptz(micros) && micros == record.millis(
            column,
        ) * 1000,
{
}

/// An instant that an `i64` cannot hold in microseconds is rendered as the
/// bound of `i64` on its side.
pub proof fn lemma_timestamp_clamped(record: RecordModel, column: Column)
    requires
        column.kind_spec() == ColumnKind::Timestamp,
        !timestamp_in_range(record.millis(column)),
    ensures
        record.cell(column) == CellModel::Timestamptz(
            if record.millis(column) < 0 {
                i64::MIN
            } else {
                i64::MAX
            },
        ),
{
}

/// Without a string equality on the postal code a scan fails where it
/// begins: the cache is empty and there is no request to send.
pub proof fn lemma_scan_needs_postal_code(state: FdwModel, quals: Seq<QualModel>)
    requires
        extract_string(quals, "postal_code"@) is None,
    ensures
        state.begin_scan(quals) == (
            state.cleared(),
            Err::<RequestModel, FdwErrorModel>(FdwErrorModel::MissingPostalCode),
        ),
{
}

/// An answer with a status outside 200..=299 fails the scan and leaves the
/// cache empty and the cursor at the start, as in a connector that never
/// scanned.
pub proof fn lemma_failed_status_leaves_cache_empty(
    state: FdwModel,
    quals: Seq<QualModel>,
    status: u16,
    body: Seq<char>,
)
    requires
        !status_is_success(status),
    ensures
        ({
            let (begun, _) = state.begin_scan(quals);
            let (after, outcome) = begun.load_response(status, body);
            &&& outcome == Err::<(), FdwErrorModel>(FdwErrorModel::Transport { status, body })
            &&& after == begun
            &&& after.rows == FdwModel::idle().rows
            &&& after.cursor == FdwModel::idle().cursor
        }),
{
}

/// Whatever a price string spells, it is a valid price: a price that is no
/// number does not fail its record. It is served as the text that it is.
pub proof fn lemma_any_text_is_a_price(item: Json, text: Seq<char>)
    requires
        item.member("energyprice"@) == Some(Json::Text(text)),
    ensures
        field_valid(item, Column::EnergyPriceEurKwh),
        record_of(item).cell(Column::EnergyPriceEurKwh) == CellModel::Numeric(
            DecimalModel::Text(text),
        ),
{
}

/// A record without the `sci` member, valid in every other field, fails the
/// whole response: the failure names `sci` and the place of the record.
pub proof fn lemma_missing_sci_fails(doc: Json, items: Seq<Json>, index: int)
    requires
        forecast_items(doc) == Some(items),
        0 <= index < items.len(),
        forall|earlier: int| 0 <= earlier < index ==> first_invalid(#[trigger] items[earlier]) is None,
        items[index].member("sci"@) is None,
        forall|column: Column|
            column != Column::SmartCityIndex ==> #[trigger] field_valid(items[index], column),
    ensures
        flatten_spec(doc) matches Err(error) && error == (FdwErrorModel::InvalidField {
            column: Column::SmartCityIndex,
            index: index as nat,
        }) && error.message() == "missing or invalid '"@ + "sci"@ + "' at index "@ + decimal(index),
{
    let item = items[index];
    assert(field_valid(item, Column::ForecastStartTime));
    assert(field_valid(item, Column::ForecastPeriodStart));
    assert(field_valid(item, Column::ForecastPeriodEnd));
    assert(field_valid(item, Column::GreenEnergyIndex));
    assert(field_valid(item, Column::RenewableEnergyPct));
    assert(field_valid(item, Column::WindEnergyPct));
    assert(field_valid(item, Column::SolarEnergyPct));
    assert(field_valid(item, Column::NetWindEnergyPct));
    assert(field_valid(item, Column::NetSolarEnergyPct));
    assert(first_invalid(item) == Some(Column::SmartCityIndex));
    lemma_invalid_record_fails(doc, items, index);
}

/// A body that does not decode leaves the connector as it was: no row of
/// it is kept.
pub proof fn lemma_failed_parse_keeps_state(state: FdwModel, status: u16, body: Seq<char>)
    requires
        decode(body) is Err,
    ensures
        state.parse_forecast_response(body).0 == state,
        state.load_response(status, body).0 == state,
{
}

} // verus!
