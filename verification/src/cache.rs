//! The columnar cache: the forecast of the current scan, one sequence per
//! output column.

use crate::decimal::Decimal;
use crate::record::{scale_millis, ForecastRecord, RecordModel};
use crate::schema::{Cell, Column};
use vstd::prelude::*;

verus! {

/// The parallel sequences, one per field. Row `i` of the table is made of
/// element `i` of every sequence.
#[derive(Debug)]
struct Columns {
    forecast_start_time: Vec<i64>,
    forecast_period_start: Vec<i64>,
    forecast_period_end: Vec<i64>,
    green_energy_index: Vec<u64>,
    renewable_energy_pct: Vec<i64>,
    wind_energy_pct: Vec<i64>,
    solar_energy_pct: Vec<i64>,
    net_wind_energy_pct: Vec<i64>,
    net_solar_energy_pct: Vec<i64>,
    smart_city_index: Vec<i64>,
    energy_price_eur_kwh: Vec<String>,
    co2_baseline_g_kwh: Vec<u64>,
    standard_mix_co2_g_kwh: Vec<i64>,
    green_mix_co2_g_kwh: Vec<i64>,
    postal_code: Vec<String>,
    forecast_created_at: Vec<i64>,
}

impl Columns {
    /// The rows of the table, in order.
    spec fn rows(&self) -> Seq<RecordModel> {
        Seq::new(
            self.forecast_start_time@.len(),
            |row: int|
                RecordModel {
                    forecast_start_time: self.forecast_start_time@[row],
                    forecast_period_start: self.forecast_period_start@[row],
                    forecast_period_end: self.forecast_period_end@[row],
                    green_energy_index: self.green_energy_index@[row],
                    renewable_energy_pct: self.renewable_energy_pct@[row],
                    wind_energy_pct: self.wind_energy_pct@[row],
                    solar_energy_pct: self.solar_energy_pct@[row],
                    net_wind_energy_pct: self.net_wind_energy_pct@[row],
                    net_solar_energy_pct: self.net_solar_energy_pct@[row],
                    smart_city_index: self.smart_city_index@[row],
                    energy_price_eur_kwh: self.energy_price_eur_kwh@[row]@,
                    co2_baseline_g_kwh: self.co2_baseline_g_kwh@[row],
                    standard_mix_co2_g_kwh: self.standard_mix_co2_g_kwh@[row],
                    green_mix_co2_g_kwh: self.green_mix_co2_g_kwh@[row],
                    postal_code: self.postal_code@[row]@,
                    forecast_created_at: self.forecast_created_at@[row],
                },
        )
    }

    /// All sequences have the same length.
    spec fn aligned(&self) -> bool {
        let n = self.forecast_start_time@.len();
        &&& self.forecast_period_start@.len() == n
        &&& self.forecast_period_end@.len() == n
        &&& self.green_energy_index@.len() == n
        &&& self.renewable_energy_pct@.len() == n
        &&& self.wind_energy_pct@.len() == n
        &&& self.solar_energy_pct@.len() == n
        &&& self.net_wind_energy_pct@.len() == n
        &&& self.net_solar_energy_pct@.len() == n
        &&& self.smart_city_index@.len() == n
        &&& self.energy_price_eur_kwh@.len() == n
        &&& self.co2_baseline_g_kwh@.len() == n
        &&& self.standard_mix_co2_g_kwh@.len() == n
        &&& self.green_mix_co2_g_kwh@.len() == n
        &&& self.postal_code@.len() == n
        &&& self.forecast_created_at@.len() == n
    }

    /// Sequences without elements.
    fn new() -> (r: Columns)
        ensures
            r.aligned(),
            r.rows() == Seq::<RecordModel>::empty(),
    {
        let r = Columns {
            forecast_start_time: Vec::new(),
            forecast_period_start: Vec::new(),
            forecast_period_end: Vec::new(),
            green_energy_index: Vec::new(),
            renewable_energy_pct: Vec::new(),
            wind_energy_pct: Vec::new(),
            solar_energy_pct: Vec::new(),
            net_wind_energy_pct: Vec::new(),
            net_solar_energy_pct: Vec::new(),
            smart_city_index: Vec::new(),
            energy_price_eur_kwh: Vec::new(),
            co2_baseline_g_kwh: Vec::new(),
            standard_mix_co2_g_kwh: Vec::new(),
            green_mix_co2_g_kwh: Vec::new(),
            postal_code: Vec::new(),
            forecast_created_at: Vec::new(),
        };
        assert(r.rows() =~= Seq::<RecordModel>::empty());
        r
    }

    /// Appends each field of `record` to its sequence.
    fn push(&mut self, record: ForecastRecord)
        requires
            old(self).aligned(),
        ensures
            final(self).aligned(),
            final(self).rows() == old(self).rows().push(record@),
    {
        self.forecast_start_time.push(record.forecast_start_time);
        self.forecast_period_start.push(record.forecast_period_start);
        self.forecast_period_end.push(record.forecast_period_end);
        self.green_energy_index.push(record.green_energy_index);
        self.renewable_energy_pct.push(record.renewable_energy_pct);
        self.wind_energy_pct.push(record.wind_energy_pct);
        self.solar_energy_pct.push(record.solar_energy_pct);
        self.net_wind_energy_pct.push(record.net_wind_energy_pct);
        self.net_solar_energy_pct.push(record.net_solar_energy_pct);
        self.smart_city_index.push(record.smart_city_index);
        self.energy_price_eur_kwh.push(record.energy_price_eur_kwh);
        self.co2_baseline_g_kwh.push(record.co2_baseline_g_kwh);
        self.standard_mix_co2_g_kwh.push(record.standard_mix_co2_g_kwh);
        self.green_mix_co2_g_kwh.push(record.green_mix_co2_g_kwh);
        self.postal_code.push(record.postal_code);
        self.forecast_created_at.push(record.forecast_created_at);
        assert(self.rows() =~= old(self).rows().push(record@));
    }

    /// Appends each sequence of `other` to the sequence of the same field.
    fn append(&mut self, other: Columns)
        requires
            old(self).aligned(),
            other.aligned(),
        ensures
            final(self).aligned(),
            final(self).rows() == old(self).rows() + other.rows(),
    {
        let ghost source = other;
        let mut other = other;
        self.forecast_start_time.append(&mut other.forecast_start_time);
        self.forecast_period_start.append(&mut other.forecast_period_start);
        self.forecast_period_end.append(&mut other.forecast_period_end);
        self.green_energy_index.append(&mut other.green_energy_index);
        self.renewable_energy_pct.append(&mut other.renewable_energy_pct);
        self.wind_energy_pct.append(&mut other.wind_energy_pct);
        self.solar_energy_pct.append(&mut other.solar_energy_pct);
        self.net_wind_energy_pct.append(&mut other.net_wind_energy_pct);
        self.net_solar_energy_pct.append(&mut other.net_solar_energy_pct);
        self.smart_city_index.append(&mut other.smart_city_index);
        self.energy_price_eur_kwh.append(&mut other.energy_price_eur_kwh);
        self.co2_baseline_g_kwh.append(&mut other.co2_baseline_g_kwh);
        self.standard_mix_co2_g_kwh.append(&mut other.standard_mix_co2_g_kwh);
        self.green_mix_co2_g_kwh.append(&mut other.green_mix_co2_g_kwh);
        self.postal_code.append(&mut other.postal_code);
        self.forecast_created_at.append(&mut other.forecast_created_at);
        assert(self.rows() =~= old(self).rows() + source.rows());
    }

    /// Renders element `row` of the sequence of `column`.
    fn cell(&self, column: Column, row: usize) -> (r: Cell)
        requires
            self.aligned(),
            row < self.rows().len(),
        ensures
            r@ == self.rows()[row as int].cell(column),
    {
        match column {
            Column::ForecastStartTime => Cell::Timestamptz(
                scale_millis(self.forecast_start_time[row]),
            ),
            Column::ForecastPeriodStart => Cell::Timestamptz(
                scale_millis(self.forecast_period_start[row]),
            ),
            Column::ForecastPeriodEnd => Cell::Timestamptz(
                scale_millis(self.forecast_period_end[row]),
            ),
            Column::GreenEnergyIndex => Cell::Numeric(Decimal::Bits(self.green_energy_index[row])),
            Column::RenewableEnergyPct => Cell::I64(self.renewable_energy_pct[row]),
            Column::WindEnergyPct => Cell::I64(self.wind_energy_pct[row]),
            Column::SolarEnergyPct => Cell::I64(self.solar_energy_pct[row]),
            Column::NetWindEnergyPct => Cell::I64(self.net_wind_energy_pct[row]),
            Column::NetSolarEnergyPct => Cell::I64(self.net_solar_energy_pct[row]),
            Column::SmartCityIndex => Cell::I64(self.smart_city_index[row]),
            Column::EnergyPriceEurKwh => Cell::Numeric(
                Decimal::Text(self.energy_price_eur_kwh[row].clone()),
            ),
            Column::Co2BaselineGKwh => Cell::Numeric(Decimal::Bits(self.co2_baseline_g_kwh[row])),
            Column::StandardMixCo2GKwh => Cell::I64(self.standard_mix_co2_g_kwh[row]),
            Column::GreenMixCo2GKwh => Cell::I64(self.green_mix_co2_g_kwh[row]),
            Column::PostalCode => Cell::String(self.postal_code[row].clone()),
            Column::ForecastCreatedAt => Cell::Timestamptz(
                scale_millis(self.forecast_created_at[row]),
            ),
        }
    }
}

/// The flattened forecast of one scan, stored column by column and read row
/// by row.
///
/// The columns always agree in length: the type keeps that invariant, and
/// [`ForecastCache::wf`] names it.
#[derive(Debug)]
pub struct ForecastCache {
    columns: Columns,
}

impl View for ForecastCache {
    type V = Seq<RecordModel>;

    /// The rows of the table, in order.
    closed spec fn view(&self) -> Seq<RecordModel> {
        self.columns.rows()
    }
}

impl ForecastCache {
    /// The invariant of the cache.
    #[verifier::type_invariant]
    pub closed spec fn wf(&self) -> bool {
        self.columns.aligned()
    }

    /// An empty cache.
    pub fn new() -> (r: ForecastCache)
        ensures
            r@ == Seq::<RecordModel>::empty(),
    {
        ForecastCache { columns: Columns::new() }
    }

    /// The number of rows.
    pub fn row_count(&self) -> (r: usize)
        ensures
            r == self@.len(),
    {
        self.columns.forecast_start_time.len()
    }

    /// Appends one record as the last row: each field to its sequence.
    pub fn push(&mut self, record: ForecastRecord)
        ensures
            final(self)@ == old(self)@.push(record@),
    {
        proof {
            use_type_invariant(&*self);
        }
        // The sequences are taken out while they grow one after the other:
        // in between they do not agree in length.
        let mut columns = Columns::new();
        core::mem::swap(&mut columns, &mut self.columns);
        columns.push(record);
        self.columns = columns;
    }

    /// Appends the rows of `other` after the rows of this cache.
    pub fn append(&mut self, other: ForecastCache)
        ensures
            final(self)@ == old(self)@ + other@,
    {
        proof {
            use_type_invariant(&*self);
            use_type_invariant(&other);
        }
        let mut columns = Columns::new();
        core::mem::swap(&mut columns, &mut self.columns);
        columns.append(other.columns);
        self.columns = columns;
    }

    /// The cell at `row` in `column`, where there is such a row.
    pub fn cell(&self, column: Column, row: usize) -> (r: Option<Cell>)
        ensures
            match r {
                Some(cell) => row < self@.len() && cell@ == self@[row as int].cell(column),
                None => row >= self@.len(),
            },
    {
        proof {
            use_type_invariant(self);
        }
        if row < self.columns.forecast_start_time.len() {
            Some(self.columns.cell(column, row))
        } else {
            None
        }
    }
}

} // verus!
