//! The response parser: from a decoded response to validated forecast
//! records.
//!
//! Every field of a record is looked up by key and then held to the type its
//! column needs. The first field that is missing or invalid, in the order of
//! [`Column`], fails the record, and the first record that fails, in array
//! order, fails the whole response.

use crate::cache::ForecastCache;
use crate::error::{FdwError, FdwErrorModel};
use crate::json::{
    json_of, value_as_array, value_as_double_bits, value_as_i64, value_as_str, value_get, Json,
};
use crate::record::{ForecastRecord, RecordModel};
use crate::schema::Column;
use vstd::prelude::*;
use vstd::string::StringExecFns;

verus! {

/// The JSON value that `column` is read from in the record `item`: a member
/// of the record, or for the two ends of the period a member of its
/// `timeframe` object.
pub open spec fn wire_value(item: Json, column: Column) -> Option<Json> {
    match column {
        Column::ForecastPeriodStart => match item.member("timeframe"@) {
            Some(timeframe) => timeframe.member("start"@),
            None => None,
        },
        Column::ForecastPeriodEnd => match item.member("timeframe"@) {
            Some(timeframe) => timeframe.member("end"@),
            None => None,
        },
        _ => item.member(column.wire_name_spec()),
    }
}

/// The field of `column` as an integer.
pub open spec fn field_integer(item: Json, column: Column) -> Option<i64> {
    match wire_value(item, column) {
        Some(value) => value.integer(),
        None => None,
    }
}

/// The field of `column` as the bits of a double.
pub open spec fn field_double(item: Json, column: Column) -> Option<u64> {
    match wire_value(item, column) {
        Some(value) => value.double_bits(),
        None => None,
    }
}

/// The field of `column` as a string.
pub open spec fn field_text(item: Json, column: Column) -> Option<Seq<char>> {
    match wire_value(item, column) {
        Some(value) => value.text(),
        None => None,
    }
}

/// Whether the record `item` holds a valid field for `column`: the field is
/// present and has the type that the column reads. The price is valid as
/// any string: what the string spells is not looked at.
pub open spec fn field_valid(item: Json, column: Column) -> bool {
    match column {
        Column::GreenEnergyIndex | Column::Co2BaselineGKwh => field_double(item, column) is Some,
        Column::EnergyPriceEurKwh | Column::PostalCode => field_text(item, column) is Some,
        _ => field_integer(item, column) is Some,
    }
}

/// The first column, in validation order, for which the record `item` holds
/// no valid field.
pub open spec fn first_invalid(item: Json) -> Option<Column> {
    if !field_valid(item, Column::ForecastStartTime) {
        Some(Column::ForecastStartTime)
    } else if !field_valid(item, Column::ForecastPeriodStart) {
        Some(Column::ForecastPeriodStart)
    } else if !field_valid(item, Column::ForecastPeriodEnd) {
        Some(Column::ForecastPeriodEnd)
    } else if !field_valid(item, Column::GreenEnergyIndex) {
        Some(Column::GreenEnergyIndex)
    } else if !field_valid(item, Column::RenewableEnergyPct) {
        Some(Column::RenewableEnergyPct)
    } else if !field_valid(item, Column::WindEnergyPct) {
        Some(Column::WindEnergyPct)
    } else if !field_valid(item, Column::SolarEnergyPct) {
        Some(Column::SolarEnergyPct)
    } else if !field_valid(item, Column::NetWindEnergyPct) {
        Some(Column::NetWindEnergyPct)
    } else if !field_valid(item, Column::NetSolarEnergyPct) {
        Some(Column::NetSolarEnergyPct)
    } else if !field_valid(item, Column::SmartCityIndex) {
        Some(Column::SmartCityIndex)
    } else if !field_valid(item, Column::EnergyPriceEurKwh) {
        Some(Column::EnergyPriceEurKwh)
    } else if !field_valid(item, Column::Co2BaselineGKwh) {
        Some(Column::Co2BaselineGKwh)
    } else if !field_valid(item, Column::StandardMixCo2GKwh) {
        Some(Column::StandardMixCo2GKwh)
    } else if !field_valid(item, Column::GreenMixCo2GKwh) {
        Some(Column::GreenMixCo2GKwh)
    } else if !field_valid(item, Column::PostalCode) {
        Some(Column::PostalCode)
    } else if !field_valid(item, Column::ForecastCreatedAt) {
        Some(Column::ForecastCreatedAt)
    } else {
        None
    }
}

/// A record fails on a column exactly where the field of that column is not
/// valid and the field of every column before it is; it fails on no column
/// exactly where every field is valid.
pub proof fn lemma_first_invalid(item: Json)
    ensures
        match first_invalid(item) {
            Some(column) => !field_valid(item, column) && forall|earlier: Column|
                earlier.position() < column.position() ==> #[trigger] field_valid(item, earlier),
            None => forall|column: Column| #[trigger] field_valid(item, column),
        },
{
}

/// Whether the member `key` of `item` is an integer.
pub open spec fn integer_member(item: Json, key: Seq<char>) -> bool {
    item.member(key) matches Some(value) && value.integer() is Some
}

/// Whether the member `key` of `item` is a number.
pub open spec fn number_member(item: Json, key: Seq<char>) -> bool {
    item.member(key) matches Some(value) && value.double_bits() is Some
}

/// Whether the member `key` of `item` is a string.
pub open spec fn string_member(item: Json, key: Seq<char>) -> bool {
    item.member(key) matches Some(value) && value.text() is Some
}

/// Whether `item` holds every field of a forecast record, each of the type
/// that the upstream gives it: the wire contract, field by field.
pub open spec fn holds_every_field(item: Json) -> bool {
    &&& integer_member(item, "timeStamp"@)
    &&& item.member("timeframe"@) matches Some(timeframe) && integer_member(
        timeframe,
        "start"@,
    ) && integer_member(timeframe, "end"@)
    &&& number_member(item, "gsi"@)
    &&& integer_member(item, "eevalue"@)
    &&& integer_member(item, "ewind"@)
    &&& integer_member(item, "esolar"@)
    &&& integer_member(item, "enwind"@)
    &&& integer_member(item, "ensolar"@)
    &&& integer_member(item, "sci"@)
    &&& string_member(item, "energyprice"@)
    &&& number_member(item, "co2_avg"@)
    &&& integer_member(item, "co2_g_standard"@)
    &&& integer_member(item, "co2_g_oekostrom"@)
    &&& string_member(item, "zip"@)
    &&& integer_member(item, "iat"@)
}

/// A record is valid exactly where it holds every field of the wire
/// contract with its type. Nothing else is asked of it.
pub proof fn lemma_valid_iff_holds_every_field(item: Json)
    ensures
        first_invalid(item) is None <==> holds_every_field(item),
{
}

/// The record that a valid `item` holds.
pub open spec fn record_of(item: Json) -> RecordModel
    recommends
        first_invalid(item) is None,
{
    RecordModel {
        forecast_start_time: field_integer(item, Column::ForecastStartTime).unwrap(),
        forecast_period_start: field_integer(item, Column::ForecastPeriodStart).unwrap(),
        forecast_period_end: field_integer(item, Column::ForecastPeriodEnd).unwrap(),
        green_energy_index: field_double(item, Column::GreenEnergyIndex).unwrap(),
        renewable_energy_pct: field_integer(item, Column::RenewableEnergyPct).unwrap(),
        wind_energy_pct: field_integer(item, Column::WindEnergyPct).unwrap(),
        solar_energy_pct: field_integer(item, Column::SolarEnergyPct).unwrap(),
        net_wind_energy_pct: field_integer(item, Column::NetWindEnergyPct).unwrap(),
        net_solar_energy_pct: field_integer(item, Column::NetSolarEnergyPct).unwrap(),
        smart_city_index: field_integer(item, Column::SmartCityIndex).unwrap(),
        energy_price_eur_kwh: field_text(item, Column::EnergyPriceEurKwh).unwrap(),
        co2_baseline_g_kwh: field_double(item, Column::Co2BaselineGKwh).unwrap(),
        standard_mix_co2_g_kwh: field_integer(item, Column::StandardMixCo2GKwh).unwrap(),
        green_mix_co2_g_kwh: field_integer(item, Column::GreenMixCo2GKwh).unwrap(),
        postal_code: field_text(item, Column::PostalCode).unwrap(),
        forecast_created_at: field_integer(item, Column::ForecastCreatedAt).unwrap(),
    }
}

/// The elements of the top-level `forecast` array of a response.
pub open spec fn forecast_items(doc: Json) -> Option<Seq<Json>> {
    match doc.member("forecast"@) {
        Some(forecast) => forecast.items(),
        None => None,
    }
}

/// Whether `index` is the place of the first record of `items` that is not
/// valid.
pub open spec fn first_invalid_at(items: Seq<Json>, index: int) -> bool {
    &&& 0 <= index < items.len()
    &&& first_invalid(items[index]) is Some
    &&& forall|earlier: int| 0 <= earlier < index ==> first_invalid(#[trigger] items[earlier]) is None
}

/// What a list of forecast records flattens to: the records in array order
/// where all are valid, and otherwise the failure of the first one that is
/// not.
pub open spec fn flatten_items(items: Seq<Json>) -> Result<Seq<RecordModel>, FdwErrorModel> {
    if exists|index: int| first_invalid_at(items, index) {
        let index = choose|index: int| first_invalid_at(items, index);
        Err(
            FdwErrorModel::InvalidField {
                column: first_invalid(items[index]).unwrap(),
                index: index as nat,
            },
        )
    } else {
        Ok(items.map_values(|item: Json| record_of(item)))
    }
}

/// What a decoded response flattens to.
pub open spec fn flatten_spec(doc: Json) -> Result<Seq<RecordModel>, FdwErrorModel> {
    match forecast_items(doc) {
        Some(items) => flatten_items(items),
        None => Err(FdwErrorModel::MissingForecast),
    }
}

/// A forecast array in which every element is a valid record flattens to
/// one row per element, in array order.
pub proof fn lemma_valid_array_flattens(doc: Json, items: Seq<Json>)
    requires
        forecast_items(doc) == Some(items),
        forall|index: int| 0 <= index < items.len() ==> first_invalid(#[trigger] items[index]) is None,
    ensures
        flatten_spec(doc) matches Ok(rows) && rows.len() == items.len() && forall|index: int|
            0 <= index < items.len() ==> #[trigger] rows[index] == record_of(items[index]),
{
    assert forall|index: int| !first_invalid_at(items, index) by {}
}

/// A forecast array with an element that is not a valid record flattens to
/// no row at all: the response fails with the field and the index of the
/// first such element.
pub proof fn lemma_invalid_record_fails(doc: Json, items: Seq<Json>, index: int)
    requires
        forecast_items(doc) == Some(items),
        first_invalid_at(items, index),
    ensures
        flatten_spec(doc) == Err::<Seq<RecordModel>, FdwErrorModel>(
            FdwErrorModel::InvalidField {
                column: first_invalid(items[index]).unwrap(),
                index: index as nat,
            },
        ),
{
    let chosen = choose|at: int| first_invalid_at(items, at);
    assert(chosen == index);
}

/// Below an element that is not a valid record there is a first one.
pub proof fn lemma_first_invalid_exists(items: Seq<Json>, index: int)
    requires
        0 <= index < items.len(),
        first_invalid(items[index]) is Some,
    ensures
        exists|first: int| first_invalid_at(items, first),
    decreases index,
{
    if exists|earlier: int| 0 <= earlier < index && first_invalid(items[earlier]) is Some {
        let earlier = choose|earlier: int|
            0 <= earlier < index && first_invalid(items[earlier]) is Some;
        lemma_first_invalid_exists(items, earlier);
    } else {
        assert(first_invalid_at(items, index));
    }
}

/// A forecast array flattens to rows if and only if every element is a
/// valid record.
pub proof fn lemma_flattens_iff_valid(items: Seq<Json>)
    ensures
        flatten_items(items) is Ok <==> forall|index: int|
            0 <= index < items.len() ==> first_invalid(#[trigger] items[index]) is None,
{
    if flatten_items(items) is Ok {
        assert forall|index: int| 0 <= index < items.len() implies first_invalid(
            #[trigger] items[index],
        ) is None by {
            if first_invalid(items[index]) is Some {
                lemma_first_invalid_exists(items, index);
            }
        }
    } else {
        let first = choose|first: int| first_invalid_at(items, first);
        assert(first_invalid(items[first]) is Some);
    }
}

/// Looks the field of `column` up by its key.
fn lookup<'a>(item: &'a serde_json::Value, column: Column) -> (r: Option<&'a serde_json::Value>)
    ensures
        match r {
            Some(value) => wire_value(json_of(*item), column) == Some(json_of(*value)),
            None => wire_value(json_of(*item), column) is None,
        },
{
    match column {
        Column::ForecastPeriodStart => match value_get(item, "timeframe") {
            Some(timeframe) => value_get(timeframe, "start"),
            None => None,
        },
        Column::ForecastPeriodEnd => match value_get(item, "timeframe") {
            Some(timeframe) => value_get(timeframe, "end"),
            None => None,
        },
        _ => value_get(item, column.wire_name()),
    }
}

/// Reads the field of `column` as an integer.
fn read_integer(item: &serde_json::Value, column: Column) -> (r: Option<i64>)
    ensures
        r == field_integer(json_of(*item), column),
{
    match lookup(item, column) {
        Some(value) => value_as_i64(value),
        None => None,
    }
}

/// Reads the field of `column` as a double.
fn read_double(item: &serde_json::Value, column: Column) -> (r: Option<u64>)
    ensures
        r == field_double(json_of(*item), column),
{
    match lookup(item, column) {
        Some(value) => value_as_double_bits(value),
        None => None,
    }
}

/// Reads the field of `column` as a string.
fn read_text(item: &serde_json::Value, column: Column) -> (r: Option<String>)
    ensures
        match r {
            Some(text) => field_text(json_of(*item), column) == Some(text@),
            None => field_text(json_of(*item), column) is None,
        },
{
    match lookup(item, column) {
        Some(value) => match value_as_str(value) {
            Some(text) => Some(String::from_str(text)),
            None => None,
        },
        None => None,
    }
}

/// Reads one element of the forecast array.
///
/// Returns the record where every field is present and valid, and otherwise
/// the first column, in validation order, whose field is not.
pub fn read_record(item: &serde_json::Value) -> (r: Result<ForecastRecord, Column>)
    ensures
        match r {
            Ok(record) => first_invalid(json_of(*item)) is None && record@ == record_of(
                json_of(*item),
            ),
            Err(column) => first_invalid(json_of(*item)) == Some(column),
        },
{
    let forecast_start_time = match read_integer(item, Column::ForecastStartTime) {
        Some(value) => value,
        None => return Err(Column::ForecastStartTime),
    };
    let forecast_period_start = match read_integer(item, Column::ForecastPeriodStart) {
        Some(value) => value,
        None => return Err(Column::ForecastPeriodStart),
    };
    let forecast_period_end = match read_integer(item, Column::ForecastPeriodEnd) {
        Some(value) => value,
        None => return Err(Column::ForecastPeriodEnd),
    };
    let green_energy_index = match read_double(item, Column::GreenEnergyIndex) {
        Some(value) => value,
        None => return Err(Column::GreenEnergyIndex),
    };
    let renewable_energy_pct = match read_integer(item, Column::RenewableEnergyPct) {
        Some(value) => value,
        None => return Err(Column::RenewableEnergyPct),
    };
    let wind_energy_pct = match read_integer(item, Column::WindEnergyPct) {
        Some(value) => value,
        None => return Err(Column::WindEnergyPct),
    };
    let solar_energy_pct = match read_integer(item, Column::SolarEnergyPct) {
        Some(value) => value,
        None => return Err(Column::SolarEnergyPct),
    };
    let net_wind_energy_pct = match read_integer(item, Column::NetWindEnergyPct) {
        Some(value) => value,
        None => return Err(Column::NetWindEnergyPct),
    };
    let net_solar_energy_pct = match read_integer(item, Column::NetSolarEnergyPct) {
        Some(value) => value,
        None => return Err(Column::NetSolarEnergyPct),
    };
    let smart_city_index = match read_integer(item, Column::SmartCityIndex) {
        Some(value) => value,
        None => return Err(Column::SmartCityIndex),
    };
    let energy_price_eur_kwh = match read_text(item, Column::EnergyPriceEurKwh) {
        Some(value) => value,
        None => return Err(Column::EnergyPriceEurKwh),
    };
    let co2_baseline_g_kwh = match read_double(item, Column::Co2BaselineGKwh) {
        Some(value) => value,
        None => return Err(Column::Co2BaselineGKwh),
    };
    let standard_mix_co2_g_kwh = match read_integer(item, Column::StandardMixCo2GKwh) {
        Some(value) => value,
        None => return Err(Column::StandardMixCo2GKwh),
    };
    let green_mix_co2_g_kwh = match read_integer(item, Column::GreenMixCo2GKwh) {
        Some(value) => value,
        None => return Err(Column::GreenMixCo2GKwh),
    };
    let postal_code = match read_text(item, Column::PostalCode) {
        Some(value) => value,
        None => return Err(Column::PostalCode),
    };
    let forecast_created_at = match read_integer(item, Column::ForecastCreatedAt) {
        Some(value) => value,
        None => return Err(Column::ForecastCreatedAt),
    };
    Ok(
        ForecastRecord {
            forecast_start_time,
            forecast_period_start,
            forecast_period_end,
            green_energy_index,
            renewable_energy_pct,
            wind_energy_pct,
            solar_energy_pct,
            net_wind_energy_pct,
            net_solar_energy_pct,
            smart_city_index,
            energy_price_eur_kwh,
            co2_baseline_g_kwh,
            standard_mix_co2_g_kwh,
            green_mix_co2_g_kwh,
            postal_code,
            forecast_created_at,
        },
    )
}

/// Flattens a decoded response into a columnar cache, one row per element of
/// the `forecast` array and in its order.
///
/// Fails where the response has no top-level `forecast` array, and at the
/// first element of that array that is not a valid record; nothing is
/// returned of the records before it.
pub fn flatten(doc: &serde_json::Value) -> (r: Result<ForecastCache, FdwError>)
    ensures
        match r {
            Ok(cache) => flatten_spec(json_of(*doc)) == Ok::<Seq<RecordModel>, FdwErrorModel>(
                cache@,
            ),
            Err(error) => flatten_spec(json_of(*doc)) == Err::<Seq<RecordModel>, FdwErrorModel>(
                error@,
            ),
        },
{
    let items = match value_get(doc, "forecast") {
        Some(forecast) => match value_as_array(forecast) {
            Some(items) => items,
            None => return Err(FdwError::MissingForecast),
        },
        None => return Err(FdwError::MissingForecast),
    };
    let ghost models = forecast_items(json_of(*doc)).unwrap();
    let mut cache = ForecastCache::new();
    let mut index: usize = 0;
    while index < items.len()
        invariant
            index <= items.len(),
            forecast_items(json_of(*doc)) == Some(models),
            models == items@.map_values(|element: serde_json::Value| json_of(element)),
            cache@.len() == index,
            forall|row: int|
                0 <= row < index ==> first_invalid(#[trigger] models[row]) is None,
            forall|row: int| 0 <= row < index ==> #[trigger] cache@[row] == record_of(models[row]),
        decreases items.len() - index,
    {
        match read_record(&items[index]) {
            Ok(record) => {
                cache.push(record);
            },
            Err(column) => {
                proof {
                    lemma_invalid_record_fails(json_of(*doc), models, index as int);
                }
                return Err(FdwError::InvalidField { column, index });
            },
        }
        index += 1;
    }
    proof {
        lemma_valid_array_flattens(json_of(*doc), models);
        assert(cache@ =~= flatten_spec(json_of(*doc))->Ok_0);
    }
    Ok(cache)
}

} // verus!
