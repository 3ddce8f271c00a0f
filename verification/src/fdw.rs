//! The scan engine: the connector's state and its lifecycle.
//!
//! A connector is initialized once and then scanned any number of times. A
//! scan begins with the query's predicates and yields the request to send;
//! the answer is loaded into the cache; rows are then served one call at a
//! time until none is left; the scan ends, or is replayed from its first
//! row. The host sends the request: between [`CorrentlyFdw::begin_scan`]
//! and [`CorrentlyFdw::load_response`] the connector does nothing.

use crate::cache::ForecastCache;
use crate::error::{FdwError, FdwErrorModel};
use crate::json::{parse_json, parsed_json};
use crate::parser::{flatten, flatten_spec};
use crate::qual::{
    extract_i64, extract_qual_i64, extract_qual_string, extract_string, quals_model, Qual,
    QualModel,
};
use crate::record::RecordModel;
use crate::request::{
    build_headers, build_url, copy_headers, default_base_url, fixed_headers, headers_model,
    hours_limit, limit_hours, request_url, Request, RequestModel,
};
use crate::schema::{Cell, CellModel, Column};
use vstd::prelude::*;
use vstd::string::StringExecFns;

verus! {

/// The connector: the server's options, the parameters of the current
/// query, the cached forecast and the row cursor.
#[derive(Debug)]
pub struct CorrentlyFdw {
    base_url: String,
    api_key: String,
    headers: Vec<(String, String)>,
    postal_code: String,
    hours: Option<i64>,
    cache: ForecastCache,
    current_row: usize,
}

/// The state of a connector.
pub ghost struct FdwModel {
    /// The address of the service.
    pub base_url: Seq<char>,
    /// The credential.
    pub api_key: Seq<char>,
    /// The headers that every request carries.
    pub headers: Seq<(Seq<char>, Seq<char>)>,
    /// The location of the current query.
    pub postal_code: Seq<char>,
    /// The hours-ahead limit of the current query; in a well-formed state it
    /// is not negative.
    pub hours: Option<i64>,
    /// The rows of the current scan.
    pub rows: Seq<RecordModel>,
    /// The index of the next row to deliver.
    pub cursor: nat,
}

/// The values of a list of column names.
pub open spec fn names_model(names: Seq<String>) -> Seq<Seq<char>> {
    names.map_values(|name: String| name@)
}

/// The values of a row of cells.
pub open spec fn cells_model(cells: Seq<Cell>) -> Seq<CellModel> {
    cells.map_values(|cell: Cell| cell@)
}

/// The value of an optional string.
pub open spec fn option_text(text: Option<String>) -> Option<Seq<char>> {
    match text {
        Some(text) => Some(text@),
        None => None,
    }
}

/// Whether `index` is the place of the first requested column that the
/// schema does not declare.
pub open spec fn first_undeclared_at(columns: Seq<Seq<char>>, index: int) -> bool {
    &&& 0 <= index < columns.len()
    &&& !Column::declares(columns[index])
    &&& forall|earlier: int| 0 <= earlier < index ==> Column::declares(#[trigger] columns[earlier])
}

/// What a response body decodes to: the forecast records in order, or the
/// failure of the decoder or of the first record that is not valid.
pub open spec fn decode(body: Seq<char>) -> Result<Seq<RecordModel>, FdwErrorModel> {
    match parsed_json(body) {
        Ok(doc) => flatten_spec(doc),
        Err(message) => Err(FdwErrorModel::Decode { message }),
    }
}

/// Whether an HTTP status reports success.
pub open spec fn status_is_success(status: u16) -> bool {
    200 <= status <= 299
}

impl FdwModel {
    /// The cursor is within the rows, and the hours-ahead limit is not
    /// negative.
    pub open spec fn wf(self) -> bool {
        &&& self.cursor <= self.rows.len()
        &&& self.hours matches Some(hours) ==> hours >= 0
    }

    /// A connector before it is initialized: everything is empty.
    pub open spec fn idle() -> FdwModel {
        FdwModel {
            base_url: Seq::empty(),
            api_key: Seq::empty(),
            headers: Seq::empty(),
            postal_code: Seq::empty(),
            hours: None,
            rows: Seq::empty(),
            cursor: 0,
        }
    }

    /// A connector after it is initialized with a credential and, where the
    /// options name one, a base URL.
    pub open spec fn initialized(api_key: Seq<char>, api_url: Option<Seq<char>>) -> FdwModel {
        FdwModel {
            base_url: match api_url {
                Some(url) => url,
                None => default_base_url(),
            },
            api_key,
            headers: fixed_headers(),
            ..Self::idle()
        }
    }

    /// The state with the cache emptied and the cursor at the start.
    pub open spec fn cleared(self) -> FdwModel {
        FdwModel { rows: Seq::empty(), cursor: 0, ..self }
    }

    /// The state with the cursor at the start.
    pub open spec fn rewound(self) -> FdwModel {
        FdwModel { cursor: 0, ..self }
    }

    /// Whether every row has been delivered.
    pub open spec fn exhausted(self) -> bool {
        self.cursor >= self.rows.len()
    }

    /// The cell at `row` in the column named `name`. The row is checked
    /// before the name.
    pub open spec fn cell(self, name: Seq<char>, row: nat) -> Result<CellModel, FdwErrorModel> {
        if row >= self.rows.len() {
            Err(FdwErrorModel::RowOutOfBounds)
        } else if !Column::declares(name) {
            Err(FdwErrorModel::UnknownColumn { name })
        } else {
            Ok(self.rows[row as int].cell(Column::named(name)))
        }
    }

    /// The cells of `row` in the requested columns, one per column and in
    /// their order; or the failure of the first column that the schema does
    /// not declare.
    pub open spec fn row_cells(self, columns: Seq<Seq<char>>, row: nat) -> Result<
        Seq<CellModel>,
        FdwErrorModel,
    >
        recommends
            row < self.rows.len(),
    {
        if exists|index: int| first_undeclared_at(columns, index) {
            Err(
                FdwErrorModel::UnknownColumn {
                    name: columns[choose|index: int| first_undeclared_at(columns, index)],
                },
            )
        } else {
            Ok(columns.map_values(|name: Seq<char>| self.rows[row as int].cell(Column::named(name))))
        }
    }

    /// The beginning of a scan. The cache is emptied first. Without a
    /// string equality on `postal_code` the scan fails and nothing else
    /// changes; with one, the query's parameters are stored and the request
    /// is the result. The hours-ahead limit is the integer that the query
    /// gives for `hours`; a negative one is dropped, so that it is neither
    /// stored nor sent.
    pub open spec fn begin_scan(self, quals: Seq<QualModel>) -> (
        FdwModel,
        Result<RequestModel, FdwErrorModel>,
    ) {
        match extract_string(quals, "postal_code"@) {
            Some(postal_code) => {
                let hours = hours_limit(extract_i64(quals, "hours"@));
                (
                    FdwModel { postal_code, hours, ..self.cleared() },
                    Ok(
                        RequestModel {
                            url: request_url(self.base_url, postal_code, self.api_key, hours),
                            headers: self.headers,
                        },
                    ),
                )
            },
            None => (self.cleared(), Err(FdwErrorModel::MissingPostalCode)),
        }
    }

    /// The parse of a response body: the decoded records are appended to
    /// the cache, or the body is refused and nothing changes.
    pub open spec fn parse_forecast_response(self, body: Seq<char>) -> (
        FdwModel,
        Result<(), FdwErrorModel>,
    ) {
        match decode(body) {
            Ok(records) => (FdwModel { rows: self.rows + records, ..self }, Ok(())),
            Err(error) => (self, Err(error)),
        }
    }

    /// The end of the beginning of a scan: the answer to the request is
    /// loaded. A status outside 200..=299 fails the scan, and so does a body
    /// that does not decode; in both cases nothing changes. Otherwise the
    /// records are appended to the cache and the cursor is at the start.
    pub open spec fn load_response(self, status: u16, body: Seq<char>) -> (
        FdwModel,
        Result<(), FdwErrorModel>,
    ) {
        if !status_is_success(status) {
            (self, Err(FdwErrorModel::Transport { status, body }))
        } else {
            match self.parse_forecast_response(body) {
                (loaded, Ok(())) => (loaded.rewound(), Ok(())),
                (_, Err(error)) => (self, Err(error)),
            }
        }
    }

    /// One step of iteration. With every row delivered, nothing is produced
    /// and nothing changes. Otherwise the row at the cursor is produced in
    /// the requested columns and the cursor moves on by one; or a requested
    /// column is not declared, and nothing changes.
    pub open spec fn iter_scan(self, columns: Seq<Seq<char>>) -> (
        FdwModel,
        Result<Option<Seq<CellModel>>, FdwErrorModel>,
    ) {
        if self.exhausted() {
            (self, Ok(None))
        } else {
            match self.row_cells(columns, self.cursor) {
                Ok(cells) => (FdwModel { cursor: self.cursor + 1, ..self }, Ok(Some(cells))),
                Err(error) => (self, Err(error)),
            }
        }
    }
}

impl View for CorrentlyFdw {
    type V = FdwModel;

    closed spec fn view(&self) -> FdwModel {
        FdwModel {
            base_url: self.base_url@,
            api_key: self.api_key@,
            headers: headers_model(self.headers@),
            postal_code: self.postal_code@,
            hours: self.hours,
            rows: self.cache@,
            cursor: self.current_row as nat,
        }
    }
}

impl Default for CorrentlyFdw {
    /// A connector before it is initialized.
    fn default() -> (r: CorrentlyFdw)
        ensures
            r@ == FdwModel::idle(),
    {
        CorrentlyFdw::init_instance()
    }
}

impl CorrentlyFdw {
    /// The invariant of the connector: the cache keeps its own, the cursor
    /// is within the rows, and the hours-ahead limit is not negative. The
    /// type keeps it, so no function asks for it; `use_type_invariant` gives
    /// it for any connector at hand.
    #[verifier::type_invariant]
    pub closed spec fn wf(&self) -> bool {
        &&& self.cache.wf()
        &&& self.current_row <= self.cache@.len()
        &&& self.hours matches Some(hours) ==> hours >= 0
    }

    /// The state of a connector is well formed.
    pub proof fn lemma_wf(&self)
        requires
            self.wf(),
        ensures
            self@.wf(),
    {
    }

    /// A connector before it is initialized.
    pub fn init_instance() -> (r: CorrentlyFdw)
        ensures
            r@ == FdwModel::idle(),
    {
        let cache = ForecastCache::new();
        proof {
            use_type_invariant(&cache);
        }
        let r = CorrentlyFdw {
            base_url: String::new(),
            api_key: String::new(),
            headers: Vec::new(),
            postal_code: String::new(),
            hours: None,
            cache,
            current_row: 0,
        };
        assert(headers_model(r.headers@) =~= Seq::empty());
        r
    }

    /// The versions of the host framework that the connector works with.
    pub fn host_version_requirement() -> (r: String)
        ensures
            r@ == "^0.1.0"@,
    {
        String::from_str("^0.1.0")
    }

    /// Initializes a connector from the server's options: the credential,
    /// which is required, and the base URL, which has a default.
    pub fn init(api_key: Option<String>, api_url: Option<String>) -> (r: Result<
        CorrentlyFdw,
        FdwError,
    >)
        ensures
            match r {
                Ok(fdw) => api_key is Some && fdw@ == FdwModel::initialized(
                    api_key.unwrap()@,
                    option_text(api_url),
                ),
                Err(error) => api_key is None && error@ == FdwErrorModel::MissingCredential,
            },
    {
        let api_key = match api_key {
            Some(api_key) => api_key,
            None => return Err(FdwError::MissingCredential),
        };
        let base_url = match api_url {
            Some(api_url) => api_url,
            None => String::from_str("https://api.corrently.io"),
        };
        let cache = ForecastCache::new();
        proof {
            use_type_invariant(&cache);
        }
        Ok(
            CorrentlyFdw {
                base_url,
                api_key,
                headers: build_headers(),
                postal_code: String::new(),
                hours: None,
                cache,
                current_row: 0,
            },
        )
    }

    /// The address of the service.
    pub fn base_url(&self) -> (r: &str)
        ensures
            r@ == self@.base_url,
    {
        self.base_url.as_str()
    }

    /// The credential.
    pub fn api_key(&self) -> (r: &str)
        ensures
            r@ == self@.api_key,
    {
        self.api_key.as_str()
    }

    /// The headers that every request carries.
    pub fn headers(&self) -> (r: &Vec<(String, String)>)
        ensures
            headers_model(r@) == self@.headers,
    {
        &self.headers
    }

    /// The location of the current query.
    pub fn postal_code(&self) -> (r: &str)
        ensures
            r@ == self@.postal_code,
    {
        self.postal_code.as_str()
    }

    /// The hours-ahead limit of the current query. It is never negative.
    pub fn hours(&self) -> (r: Option<i64>)
        ensures
            r == self@.hours,
            r matches Some(hours) ==> hours >= 0,
    {
        proof {
            use_type_invariant(self);
        }
        self.hours
    }

    /// The index of the next row to deliver.
    pub fn current_row(&self) -> (r: usize)
        ensures
            r == self@.cursor,
    {
        self.current_row
    }

    /// The number of rows in the cache.
    pub fn row_count(&self) -> (r: usize)
        ensures
            r == self@.rows.len(),
    {
        self.cache.row_count()
    }

    /// Empties the cache and puts the cursor at the start. Clearing twice
    /// is clearing once.
    pub fn clear_data(&mut self)
        ensures
            final(self)@ == old(self)@.cleared(),
    {
        let cache = ForecastCache::new();
        proof {
            use_type_invariant(&*self);
            use_type_invariant(&cache);
        }
        self.current_row = 0;
        self.cache = cache;
    }

    /// Decodes a response body and appends its forecast records to the
    /// cache, one row per record and in their order.
    ///
    /// Fails where the body is not JSON, where it has no top-level
    /// `forecast` array, and at the first record that is not valid. A
    /// failure leaves the connector as it was: no row of the body is kept.
    pub fn parse_forecast_response(&mut self, body: &str) -> (r: Result<(), FdwError>)
        ensures
            match r {
                Ok(()) => old(self)@.parse_forecast_response(body@) == (
                    final(self)@,
                    Ok::<(), FdwErrorModel>(()),
                ),
                Err(error) => old(self)@.parse_forecast_response(body@) == (
                    final(self)@,
                    Err::<(), FdwErrorModel>(error@),
                ) && *final(self) == *old(self),
            },
    {
        proof {
            use_type_invariant(&*self);
            self.lemma_wf();
        }
        let doc = match parse_json(body) {
            Ok(doc) => doc,
            Err(message) => return Err(FdwError::Decode { message }),
        };
        let records = flatten(&doc)?;
        // The cache is taken out while it grows, and the cursor waits at the
        // start meanwhile, so that it is within the rows at every step.
        let cursor = self.current_row;
        let mut cache = ForecastCache::new();
        proof {
            use_type_invariant(&cache);
        }
        self.current_row = 0;
        core::mem::swap(&mut cache, &mut self.cache);
        cache.append(records);
        proof {
            use_type_invariant(&cache);
        }
        self.cache = cache;
        self.current_row = cursor;
        proof {
            self.lemma_wf();
        }
        Ok(())
    }

    /// The cell at row `row_index` in the column named `column_name`.
    ///
    /// Fails where the row index is not below the row count, and then where
    /// the schema declares no column of that name.
    pub fn cell(&self, column_name: &str, row_index: usize) -> (r: Result<Cell, FdwError>)
        ensures
            match r {
                Ok(cell) => self@.cell(column_name@, row_index as nat) == Ok::<
                    CellModel,
                    FdwErrorModel,
                >(cell@),
                Err(error) => self@.cell(column_name@, row_index as nat) == Err::<
                    CellModel,
                    FdwErrorModel,
                >(error@),
            },
    {
        if row_index >= self.cache.row_count() {
            return Err(FdwError::RowOutOfBounds);
        }
        let column = match Column::from_name(column_name) {
            Some(column) => column,
            None => return Err(FdwError::UnknownColumn { name: String::from_str(column_name) }),
        };
        match self.cache.cell(column, row_index) {
            Some(cell) => Ok(cell),
            None => Err(FdwError::RowOutOfBounds),
        }
    }

    /// The cell at the cursor in the column named `column_name`.
    pub fn get_cell_value(&self, column_name: &str) -> (r: Result<Option<Cell>, FdwError>)
        ensures
            match r {
                Ok(Some(cell)) => self@.cell(column_name@, self@.cursor) == Ok::<
                    CellModel,
                    FdwErrorModel,
                >(cell@),
                Ok(None) => false,
                Err(error) => self@.cell(column_name@, self@.cursor) == Err::<
                    CellModel,
                    FdwErrorModel,
                >(error@),
            },
    {
        match self.cell(column_name, self.current_row) {
            Ok(cell) => Ok(Some(cell)),
            Err(error) => Err(error),
        }
    }

    /// Begins a scan: empties the cache, reads the query's parameters from
    /// its predicates and builds the request for the host to send.
    ///
    /// Fails, before there is any request, where the predicates hold no
    /// string equality on `postal_code`. A negative number of hours is
    /// dropped: it is neither stored nor sent.
    pub fn begin_scan(&mut self, quals: &[Qual]) -> (r: Result<Request, FdwError>)
        ensures
            match r {
                Ok(request) => old(self)@.begin_scan(quals_model(quals@)) == (
                    final(self)@,
                    Ok::<RequestModel, FdwErrorModel>(request@),
                ),
                Err(error) => old(self)@.begin_scan(quals_model(quals@)) == (
                    final(self)@,
                    Err::<RequestModel, FdwErrorModel>(error@),
                ),
            },
    {
        self.clear_data();
        proof {
            use_type_invariant(&*self);
            self.lemma_wf();
        }
        let postal_code = match extract_qual_string(quals, "postal_code") {
            Some(postal_code) => postal_code,
            None => return Err(FdwError::MissingPostalCode),
        };
        let hours = limit_hours(extract_qual_i64(quals, "hours"));
        let url = build_url(
            self.base_url.as_str(),
            postal_code.as_str(),
            self.api_key.as_str(),
            hours,
        );
        let headers = copy_headers(&self.headers);
        self.postal_code = postal_code;
        self.hours = hours;
        Ok(Request { url, headers })
    }

    /// Loads the answer to the request of [`CorrentlyFdw::begin_scan`].
    ///
    /// Fails where the status is outside 200..=299, with the status and the
    /// body, and where the body does not parse. A failure leaves the
    /// connector as it was. On success the rows are in the cache and the
    /// cursor is at the start.
    pub fn load_response(&mut self, status_code: u16, body: &str) -> (r: Result<(), FdwError>)
        ensures
            match r {
                Ok(()) => old(self)@.load_response(status_code, body@) == (
                    final(self)@,
                    Ok::<(), FdwErrorModel>(()),
                ),
                Err(error) => old(self)@.load_response(status_code, body@) == (
                    final(self)@,
                    Err::<(), FdwErrorModel>(error@),
                ) && *final(self) == *old(self),
            },
    {
        proof {
            use_type_invariant(&*self);
            self.lemma_wf();
        }
        if status_code < 200 || status_code > 299 {
            return Err(FdwError::Transport { status: status_code, body: String::from_str(body) });
        }
        self.parse_forecast_response(body)?;
        proof {
            use_type_invariant(&*self);
        }
        self.current_row = 0;
        Ok(())
    }

    /// Serves the next row in the requested columns.
    ///
    /// Returns `None` once every row has been delivered. Fails, without
    /// moving the cursor, at the first requested column that the schema
    /// does not declare.
    pub fn iter_scan(&mut self, columns: &[String]) -> (r: Result<Option<Vec<Cell>>, FdwError>)
        ensures
            match r {
                Ok(Some(cells)) => old(self)@.iter_scan(names_model(columns@)) == (
                    final(self)@,
                    Ok::<Option<Seq<CellModel>>, FdwErrorModel>(Some(cells_model(cells@))),
                ),
                Ok(None) => old(self)@.iter_scan(names_model(columns@)) == (
                    final(self)@,
                    Ok::<Option<Seq<CellModel>>, FdwErrorModel>(None),
                ) && *final(self) == *old(self),
                Err(error) => old(self)@.iter_scan(names_model(columns@)) == (
                    final(self)@,
                    Err::<Option<Seq<CellModel>>, FdwErrorModel>(error@),
                ) && *final(self) == *old(self),
            },
    {
        proof {
            use_type_invariant(&*self);
            self.lemma_wf();
        }
        if self.current_row >= self.cache.row_count() {
            return Ok(None);
        }
        let ghost names = names_model(columns@);
        let mut cells: Vec<Cell> = Vec::new();
        let mut index: usize = 0;
        while index < columns.len()
            invariant
                index <= columns.len(),
                names == names_model(columns@),
                *self == *old(self),
                self@.wf(),
                self.current_row < self@.rows.len(),
                cells.len() == index,
                forall|at: int| 0 <= at < index ==> Column::declares(#[trigger] names[at]),
                forall|at: int|
                    0 <= at < index ==> (#[trigger] cells[at])@ == self@.rows[self.current_row as int].cell(
                        Column::named(names[at]),
                    ),
            decreases columns.len() - index,
        {
            match self.cell(columns[index].as_str(), self.current_row) {
                Ok(cell) => {
                    cells.push(cell);
                },
                Err(error) => {
                    proof {
                        assert(first_undeclared_at(names, index as int));
                        let chosen = choose|at: int| first_undeclared_at(names, at);
                        assert(chosen == index);
                    }
                    return Err(error);
                },
            }
            index += 1;
        }
        proof {
            assert forall|at: int| !first_undeclared_at(names, at) by {}
            assert(cells_model(cells@) =~= names.map_values(
                |name: Seq<char>| self@.rows[self.current_row as int].cell(Column::named(name)),
            ));
        }
        self.current_row += 1;
        Ok(Some(cells))
    }

    /// Ends the scan: the cache is emptied, whatever happened before.
    pub fn end_scan(&mut self) -> (r: Result<(), FdwError>)
        ensures
            r is Ok,
            final(self)@ == old(self)@.cleared(),
    {
        self.clear_data();
        Ok(())
    }

    /// Replays the scan: the cursor goes back to the start and the cache
    /// stays as it is. No request is made.
    pub fn re_scan(&mut self) -> (r: Result<(), FdwError>)
        ensures
            r is Ok,
            final(self)@ == old(self)@.rewound(),
    {
        proof {
            use_type_invariant(&*self);
        }
        self.current_row = 0;
        Ok(())
    }

    /// Refuses to begin a modification: the table is read-only.
    pub fn begin_modify(&self) -> (r: Result<(), FdwError>)
        ensures
            r matches Err(error) && error@ == FdwErrorModel::Unsupported,
    {
        Err(FdwError::Unsupported)
    }

    /// Refuses to insert a row.
    pub fn insert(&self) -> (r: Result<(), FdwError>)
        ensures
            r matches Err(error) && error@ == FdwErrorModel::Unsupported,
    {
        Err(FdwError::Unsupported)
    }

    /// Refuses to update a row.
    pub fn update(&self) -> (r: Result<(), FdwError>)
        ensures
            r matches Err(error) && error@ == FdwErrorModel::Unsupported,
    {
        Err(FdwError::Unsupported)
    }

    /// Refuses to delete a row.
    pub fn delete(&self) -> (r: Result<(), FdwError>)
        ensures
            r matches Err(error) && error@ == FdwErrorModel::Unsupported,
    {
        Err(FdwError::Unsupported)
    }

    /// Ends a modification. There is nothing to end.
    pub fn end_modify(&self) -> (r: Result<(), FdwError>)
        ensures
            r is Ok,
    {
        Ok(())
    }

    /// The table definitions that the connector generates for a schema
    /// import: none.
    pub fn import_foreign_schema(&self) -> (r: Vec<String>)
        ensures
            r@.len() == 0,
    {
        Vec::new()
    }
}

} // verus!
