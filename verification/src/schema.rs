//! The declared schema: the output columns, the upstream field each one is
//! read from, and the cells they render as.

use crate::decimal::{Decimal, DecimalModel};
use crate::text::str_eq;
use vstd::prelude::*;

verus! {

/// The semantic type of a column.
#[derive(Debug, Clone, Copy, PartialEq, Eq, Structural)]
pub enum ColumnKind {
    /// An instant, in microseconds since the epoch.
    Timestamp,
    /// A percentage, a count or a mass in grams.
    Integer,
    /// A decimal number.
    Decimal,
    /// A string.
    Text,
}

/// An output column of the forecast table, in the order in which the fields
/// of a forecast record are validated.
#[derive(Debug, Clone, Copy, PartialEq, Eq, Structural)]
pub enum Column {
    ForecastStartTime,
    ForecastPeriodStart,
    ForecastPeriodEnd,
    GreenEnergyIndex,
    RenewableEnergyPct,
    WindEnergyPct,
    SolarEnergyPct,
    NetWindEnergyPct,
    NetSolarEnergyPct,
    SmartCityIndex,
    EnergyPriceEurKwh,
    Co2BaselineGKwh,
    StandardMixCo2GKwh,
    GreenMixCo2GKwh,
    PostalCode,
    ForecastCreatedAt,
}

impl Column {
    /// The column's name in the declared schema.
    pub open spec fn name_spec(self) -> Seq<char> {
        match self {
            Column::ForecastStartTime => "forecast_start_time"@,
            Column::ForecastPeriodStart => "forecast_period_start"@,
            Column::ForecastPeriodEnd => "forecast_period_end"@,
            Column::GreenEnergyIndex => "green_energy_index"@,
            Column::RenewableEnergyPct => "renewable_energy_pct"@,
            Column::WindEnergyPct => "wind_energy_pct"@,
            Column::SolarEnergyPct => "solar_energy_pct"@,
            Column::NetWindEnergyPct => "net_wind_energy_pct"@,
            Column::NetSolarEnergyPct => "net_solar_energy_pct"@,
            Column::SmartCityIndex => "smart_city_index"@,
            Column::EnergyPriceEurKwh => "energy_price_eur_kwh"@,
            Column::Co2BaselineGKwh => "co2_baseline_g_kwh"@,
            Column::StandardMixCo2GKwh => "standard_mix_co2_g_kwh"@,
            Column::GreenMixCo2GKwh => "green_mix_co2_g_kwh"@,
            Column::PostalCode => "postal_code"@,
            Column::ForecastCreatedAt => "forecast_created_at"@,
        }
    }

    /// The field of an upstream forecast record that the column is read
    /// from. A dot separates a nested object from its member.
    pub open spec fn wire_name_spec(self) -> Seq<char> {
        match self {
            Column::ForecastStartTime => "timeStamp"@,
            Column::ForecastPeriodStart => "timeframe.start"@,
            Column::ForecastPeriodEnd => "timeframe.end"@,
            Column::GreenEnergyIndex => "gsi"@,
            Column::RenewableEnergyPct => "eevalue"@,
            Column::WindEnergyPct => "ewind"@,
            Column::SolarEnergyPct => "esolar"@,
            Column::NetWindEnergyPct => "enwind"@,
            Column::NetSolarEnergyPct => "ensolar"@,
            Column::SmartCityIndex => "sci"@,
            Column::EnergyPriceEurKwh => "energyprice"@,
            Column::Co2BaselineGKwh => "co2_avg"@,
            Column::StandardMixCo2GKwh => "co2_g_standard"@,
            Column::GreenMixCo2GKwh => "co2_g_oekostrom"@,
            Column::PostalCode => "zip"@,
            Column::ForecastCreatedAt => "iat"@,
        }
    }

    /// The semantic type that the column's cells have.
    pub open spec fn kind_spec(self) -> ColumnKind {
        match self {
            Column::ForecastStartTime
            | Column::ForecastPeriodStart
            | Column::ForecastPeriodEnd
            | Column::ForecastCreatedAt => ColumnKind::Timestamp,
            Column::GreenEnergyIndex
            | Column::EnergyPriceEurKwh
            | Column::Co2BaselineGKwh => ColumnKind::Decimal,
            Column::PostalCode => ColumnKind::Text,
            _ => ColumnKind::Integer,
        }
    }

    /// The column's name in the declared schema.
    pub fn name(self) -> (r: &'static str)
        ensures
            r@ == self.name_spec(),
    {
        match self {
            Column::ForecastStartTime => "forecast_start_time",
            Column::ForecastPeriodStart => "forecast_period_start",
            Column::ForecastPeriodEnd => "forecast_period_end",
            Column::GreenEnergyIndex => "green_energy_index",
            Column::RenewableEnergyPct => "renewable_energy_pct",
            Column::WindEnergyPct => "wind_energy_pct",
            Column::SolarEnergyPct => "solar_energy_pct",
            Column::NetWindEnergyPct => "net_wind_energy_pct",
            Column::NetSolarEnergyPct => "net_solar_energy_pct",
            Column::SmartCityIndex => "smart_city_index",
            Column::EnergyPriceEurKwh => "energy_price_eur_kwh",
            Column::Co2BaselineGKwh => "co2_baseline_g_kwh",
            Column::StandardMixCo2GKwh => "standard_mix_co2_g_kwh",
            Column::GreenMixCo2GKwh => "green_mix_co2_g_kwh",
            Column::PostalCode => "postal_code",
            Column::ForecastCreatedAt => "forecast_created_at",
        }
    }

    /// The upstream field that the column is read from.
    pub fn wire_name(self) -> (r: &'static str)
        ensures
            r@ == self.wire_name_spec(),
    {
        match self {
            Column::ForecastStartTime => "timeStamp",
            Column::ForecastPeriodStart => "timeframe.start",
            Column::ForecastPeriodEnd => "timeframe.end",
            Column::GreenEnergyIndex => "gsi",
            Column::RenewableEnergyPct => "eevalue",
            Column::WindEnergyPct => "ewind",
            Column::SolarEnergyPct => "esolar",
            Column::NetWindEnergyPct => "enwind",
            Column::NetSolarEnergyPct => "ensolar",
            Column::SmartCityIndex => "sci",
            Column::EnergyPriceEurKwh => "energyprice",
            Column::Co2BaselineGKwh => "co2_avg",
            Column::StandardMixCo2GKwh => "co2_g_standard",
            Column::GreenMixCo2GKwh => "co2_g_oekostrom",
            Column::PostalCode => "zip",
            Column::ForecastCreatedAt => "iat",
        }
    }

    /// The semantic type that the column's cells have.
    #[verifier::when_used_as_spec(kind_spec)]
    pub fn kind(self) -> (r: ColumnKind)
        ensures
            r == self.kind_spec(),
    {
        match self {
            Column::ForecastStartTime
            | Column::ForecastPeriodStart
            | Column::ForecastPeriodEnd
            | Column::ForecastCreatedAt => ColumnKind::Timestamp,
            Column::GreenEnergyIndex
            | Column::EnergyPriceEurKwh
            | Column::Co2BaselineGKwh => ColumnKind::Decimal,
            Column::PostalCode => ColumnKind::Text,
            _ => ColumnKind::Integer,
        }
    }

    /// The place of the column in the order in which the fields of a record
    /// are validated.
    pub open spec fn position(self) -> nat {
        match self {
            Column::ForecastStartTime => 0,
            Column::ForecastPeriodStart => 1,
            Column::ForecastPeriodEnd => 2,
            Column::GreenEnergyIndex => 3,
            Column::RenewableEnergyPct => 4,
            Column::WindEnergyPct => 5,
            Column::SolarEnergyPct => 6,
            Column::NetWindEnergyPct => 7,
            Column::NetSolarEnergyPct => 8,
            Column::SmartCityIndex => 9,
            Column::EnergyPriceEurKwh => 10,
            Column::Co2BaselineGKwh => 11,
            Column::StandardMixCo2GKwh => 12,
            Column::GreenMixCo2GKwh => 13,
            Column::PostalCode => 14,
            Column::ForecastCreatedAt => 15,
        }
    }

    /// Whether `name` is the name of a declared column.
    pub open spec fn declares(name: Seq<char>) -> bool {
        exists|column: Column| name == column.name_spec()
    }

    /// The column that `name` names.
    pub open spec fn named(name: Seq<char>) -> Column
        recommends
            Self::declares(name),
    {
        choose|column: Column| name == column.name_spec()
    }

    /// A column is the one that its name names.
    pub proof fn lemma_named(column: Column)
        ensures
            Self::declares(column.name_spec()),
            Self::named(column.name_spec()) == column,
    {
        let other = Self::named(column.name_spec());
        if other != column {
            Self::lemma_names_distinct(other, column);
        }
    }

    /// No two columns share a name.
    pub proof fn lemma_names_distinct(a: Column, b: Column)
        requires
            a != b,
        ensures
            a.name_spec() != b.name_spec(),
    {
        reveal_strlit("forecast_start_time");
        reveal_strlit("forecast_period_start");
        reveal_strlit("forecast_period_end");
        reveal_strlit("green_energy_index");
        reveal_strlit("renewable_energy_pct");
        reveal_strlit("wind_energy_pct");
        reveal_strlit("solar_energy_pct");
        reveal_strlit("net_wind_energy_pct");
        reveal_strlit("net_solar_energy_pct");
        reveal_strlit("smart_city_index");
        reveal_strlit("energy_price_eur_kwh");
        reveal_strlit("co2_baseline_g_kwh");
        reveal_strlit("standard_mix_co2_g_kwh");
        reveal_strlit("green_mix_co2_g_kwh");
        reveal_strlit("postal_code");
        reveal_strlit("forecast_created_at");
        let x = a.name_spec();
        let y = b.name_spec();
        if x.len() == y.len() {
            assert(x[0] != y[0] || x[4] != y[4] || x[9] != y[9]);
        }
    }

    /// Looks a column up by its name in the declared schema.
    pub fn from_name(name: &str) -> (r: Option<Column>)
        ensures
            r == (if Self::declares(name@) {
                Some(Self::named(name@))
            } else {
                None
            }),
            r matches Some(column) ==> name@ == column.name_spec(),
    {
        let r = if str_eq(name, "forecast_start_time") {
            Some(Column::ForecastStartTime)
        } else if str_eq(name, "forecast_period_start") {
            Some(Column::ForecastPeriodStart)
        } else if str_eq(name, "forecast_period_end") {
            Some(Column::ForecastPeriodEnd)
        } else if str_eq(name, "forecast_created_at") {
            Some(Column::ForecastCreatedAt)
        } else if str_eq(name, "green_energy_index") {
            Some(Column::GreenEnergyIndex)
        } else if str_eq(name, "renewable_energy_pct") {
            Some(Column::RenewableEnergyPct)
        } else if str_eq(name, "wind_energy_pct") {
            Some(Column::WindEnergyPct)
        } else if str_eq(name, "solar_energy_pct") {
            Some(Column::SolarEnergyPct)
        } else if str_eq(name, "net_wind_energy_pct") {
            Some(Column::NetWindEnergyPct)
        } else if str_eq(name, "net_solar_energy_pct") {
            Some(Column::NetSolarEnergyPct)
        } else if str_eq(name, "smart_city_index") {
            Some(Column::SmartCityIndex)
        } else if str_eq(name, "energy_price_eur_kwh") {
            Some(Column::EnergyPriceEurKwh)
        } else if str_eq(name, "co2_baseline_g_kwh") {
            Some(Column::Co2BaselineGKwh)
        } else if str_eq(name, "standard_mix_co2_g_kwh") {
            Some(Column::StandardMixCo2GKwh)
        } else if str_eq(name, "green_mix_co2_g_kwh") {
            Some(Column::GreenMixCo2GKwh)
        } else if str_eq(name, "postal_code") {
            Some(Column::PostalCode)
        } else {
            None
        };
        proof {
            match r {
                Some(column) => {
                    Self::lemma_named(column);
                },
                None => {
                    assert forall|column: Column| name@ != column.name_spec() by {}
                },
            }
        }
        r
    }
}

/// A typed value at one row and column, as the host receives it.
#[derive(Debug, Clone, PartialEq, Eq)]
pub enum Cell {
    /// A 64-bit integer.
    I64(i64),
    /// A decimal number.
    Numeric(Decimal),
    /// A string.
    String(String),
    /// An instant with time zone, in microseconds since the epoch.
    Timestamptz(i64),
}

/// The mathematical value of a [`Cell`].
pub ghost enum CellModel {
    I64(i64),
    Numeric(DecimalModel),
    String(Seq<char>),
    Timestamptz(i64),
}

impl CellModel {
    /// The semantic type of the cell.
    pub open spec fn kind(self) -> ColumnKind {
        match self {
            CellModel::I64(_) => ColumnKind::Integer,
            CellModel::Numeric(_) => ColumnKind::Decimal,
            CellModel::String(_) => ColumnKind::Text,
            CellModel::Timestamptz(_) => ColumnKind::Timestamp,
        }
    }
}

impl View for Cell {
    type V = CellModel;

    open spec fn view(&self) -> CellModel {
        match self {
            Cell::I64(value) => CellModel::I64(*value),
            Cell::Numeric(value) => CellModel::Numeric(value@),
            Cell::String(value) => CellModel::String(value@),
            Cell::Timestamptz(value) => CellModel::Timestamptz(*value),
        }
    }
}

} // verus!
