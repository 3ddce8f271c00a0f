//! The forecast record: one period of the forecast, as stored and as
//! rendered.

use crate::decimal::DecimalModel;
use crate::schema::{CellModel, Column, ColumnKind};
use vstd::prelude::*;

verus! {

/// Whether an instant in milliseconds, scaled to microseconds, is within
/// the range of an `i64`.
pub open spec fn timestamp_in_range(millis: i64) -> bool {
    i64::MIN <= millis * 1000 <= i64::MAX
}

/// An instant in milliseconds as microseconds: one thousand times the
/// milliseconds, and the nearest bound of `i64` where that is out of its
/// range.
pub open spec fn scaled(millis: i64) -> i64 {
    if millis * 1000 > i64::MAX {
        i64::MAX
    } else if millis * 1000 < i64::MIN {
        i64::MIN
    } else {
        (millis * 1000) as i64
    }
}

/// Scales an instant from milliseconds to microseconds. An instant beyond
/// what an `i64` holds in microseconds becomes the bound on its side.
pub fn scale_millis(millis: i64) -> (r: i64)
    ensures
        r == scaled(millis),
{
    match millis.checked_mul(1000) {
        Some(micros) => micros,
        None => if millis < 0 {
            i64::MIN
        } else {
            i64::MAX
        },
    }
}

/// One forecast period as the upstream reports it. Instants are in
/// milliseconds since the epoch, decimal numbers are carried by the bits of
/// their double, and the price keeps the text in which it was sent.
#[derive(Debug, Clone, PartialEq, Eq)]
pub struct ForecastRecord {
    pub forecast_start_time: i64,
    pub forecast_period_start: i64,
    pub forecast_period_end: i64,
    pub green_energy_index: u64,
    pub renewable_energy_pct: i64,
    pub wind_energy_pct: i64,
    pub solar_energy_pct: i64,
    pub net_wind_energy_pct: i64,
    pub net_solar_energy_pct: i64,
    pub smart_city_index: i64,
    pub energy_price_eur_kwh: String,
    pub co2_baseline_g_kwh: u64,
    pub standard_mix_co2_g_kwh: i64,
    pub green_mix_co2_g_kwh: i64,
    pub postal_code: String,
    pub forecast_created_at: i64,
}

/// The mathematical value of a [`ForecastRecord`].
pub ghost struct RecordModel {
    pub forecast_start_time: i64,
    pub forecast_period_start: i64,
    pub forecast_period_end: i64,
    pub green_energy_index: u64,
    pub renewable_energy_pct: i64,
    pub wind_energy_pct: i64,
    pub solar_energy_pct: i64,
    pub net_wind_energy_pct: i64,
    pub net_solar_energy_pct: i64,
    pub smart_city_index: i64,
    pub energy_price_eur_kwh: Seq<char>,
    pub co2_baseline_g_kwh: u64,
    pub standard_mix_co2_g_kwh: i64,
    pub green_mix_co2_g_kwh: i64,
    pub postal_code: Seq<char>,
    pub forecast_created_at: i64,
}

impl RecordModel {
    /// The instant that the record stores for a timestamp column, in
    /// milliseconds.
    pub open spec fn millis(self, column: Column) -> i64
        recommends
            column.kind_spec() == ColumnKind::Timestamp,
    {
        match column {
            Column::ForecastStartTime => self.forecast_start_time,
            Column::ForecastPeriodStart => self.forecast_period_start,
            Column::ForecastPeriodEnd => self.forecast_period_end,
            _ => self.forecast_created_at,
        }
    }

    /// The cell that the record renders in `column`: instants scaled from
    /// milliseconds to microseconds, everything else as it was stored.
    pub open spec fn cell(self, column: Column) -> CellModel {
        match column {
            Column::ForecastStartTime => CellModel::Timestamptz(
                scaled(self.forecast_start_time),
            ),
            Column::ForecastPeriodStart => CellModel::Timestamptz(
                scaled(self.forecast_period_start),
            ),
            Column::ForecastPeriodEnd => CellModel::Timestamptz(
                scaled(self.forecast_period_end),
            ),
            Column::GreenEnergyIndex => CellModel::Numeric(
                DecimalModel::Bits(self.green_energy_index),
            ),
            Column::RenewableEnergyPct => CellModel::I64(self.renewable_energy_pct),
            Column::WindEnergyPct => CellModel::I64(self.wind_energy_pct),
            Column::SolarEnergyPct => CellModel::I64(self.solar_energy_pct),
            Column::NetWindEnergyPct => CellModel::I64(self.net_wind_energy_pct),
            Column::NetSolarEnergyPct => CellModel::I64(self.net_solar_energy_pct),
            Column::SmartCityIndex => CellModel::I64(self.smart_city_index),
            Column::EnergyPriceEurKwh => CellModel::Numeric(
                DecimalModel::Text(self.energy_price_eur_kwh),
            ),
            Column::Co2BaselineGKwh => CellModel::Numeric(
                DecimalModel::Bits(self.co2_baseline_g_kwh),
            ),
            Column::StandardMixCo2GKwh => CellModel::I64(self.standard_mix_co2_g_kwh),
            Column::GreenMixCo2GKwh => CellModel::I64(self.green_mix_co2_g_kwh),
            Column::PostalCode => CellModel::String(self.postal_code),
            Column::ForecastCreatedAt => CellModel::Timestamptz(
                scaled(self.forecast_created_at),
            ),
        }
    }
}

impl View for ForecastRecord {
    type V = RecordModel;

    open spec fn view(&self) -> RecordModel {
        RecordModel {
            forecast_start_time: self.forecast_start_time,
            forecast_period_start: self.forecast_period_start,
            forecast_period_end: self.forecast_period_end,
            green_energy_index: self.green_energy_index,
            renewable_energy_pct: self.renewable_energy_pct,
            wind_energy_pct: self.wind_energy_pct,
            solar_energy_pct: self.solar_energy_pct,
            net_wind_energy_pct: self.net_wind_energy_pct,
            net_solar_energy_pct: self.net_solar_energy_pct,
            smart_city_index: self.smart_city_index,
            energy_price_eur_kwh: self.energy_price_eur_kwh@,
            co2_baseline_g_kwh: self.co2_baseline_g_kwh,
            standard_mix_co2_g_kwh: self.standard_mix_co2_g_kwh,
            green_mix_co2_g_kwh: self.green_mix_co2_g_kwh,
            postal_code: self.postal_code@,
            forecast_created_at: self.forecast_created_at,
        }
    }
}

} // verus!
