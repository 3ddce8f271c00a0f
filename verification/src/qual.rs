//! The predicate extractor: typed values out of the equality predicates that
//! the host hands over with a query.

use crate::decimal::{truncate_double, truncated};
use crate::text::str_eq;
use vstd::prelude::*;

verus! {

/// The value that a predicate compares a field with.
#[derive(Debug, Clone, PartialEq, Eq)]
pub enum QualValue {
    /// A string cell.
    String(String),
    /// A native 64-bit integer cell.
    I64(i64),
    /// A generic numeric cell, by the bits of its double.
    Numeric(u64),
    /// Any other cell, or a list of cells.
    Other,
}

/// The mathematical value of a [`QualValue`].
pub ghost enum QualValueModel {
    String(Seq<char>),
    I64(i64),
    Numeric(u64),
    Other,
}

impl View for QualValue {
    type V = QualValueModel;

    open spec fn view(&self) -> QualValueModel {
        match self {
            QualValue::String(text) => QualValueModel::String(text@),
            QualValue::I64(value) => QualValueModel::I64(*value),
            QualValue::Numeric(bits) => QualValueModel::Numeric(*bits),
            QualValue::Other => QualValueModel::Other,
        }
    }
}

/// One filter condition of the query: a field, an operator and a value.
#[derive(Debug, Clone, PartialEq, Eq)]
pub struct Qual {
    pub field: String,
    pub operator: String,
    pub value: QualValue,
}

/// The mathematical value of a [`Qual`].
pub ghost struct QualModel {
    pub field: Seq<char>,
    pub operator: Seq<char>,
    pub value: QualValueModel,
}

impl View for Qual {
    type V = QualModel;

    open spec fn view(&self) -> QualModel {
        QualModel { field: self.field@, operator: self.operator@, value: self.value@ }
    }
}

/// The values of a list of predicates.
pub open spec fn quals_model(quals: Seq<Qual>) -> Seq<QualModel> {
    quals.map_values(|qual: Qual| qual@)
}

impl QualModel {
    /// Whether the predicate is an equality on `field`.
    pub open spec fn targets(self, field: Seq<char>) -> bool {
        self.field == field && self.operator == "="@
    }

    /// The string that the predicate gives for `field`: its value where it
    /// is an equality on `field` with a string value.
    pub open spec fn string_for(self, field: Seq<char>) -> Option<Seq<char>> {
        match self.value {
            QualValueModel::String(text) if self.targets(field) => Some(text),
            _ => None,
        }
    }

    /// The integer that the predicate gives for `field`: its value where it
    /// is an equality on `field` with a native integer, which is taken as it
    /// is, or with a generic number, which is truncated toward zero.
    pub open spec fn integer_for(self, field: Seq<char>) -> Option<i64> {
        match self.value {
            QualValueModel::I64(value) if self.targets(field) => Some(value),
            QualValueModel::Numeric(bits) if self.targets(field) => Some(truncated(bits) as i64),
            _ => None,
        }
    }
}

/// Whether `index` is the place of the first predicate that gives a string
/// for `field`.
pub open spec fn first_string_at(quals: Seq<QualModel>, field: Seq<char>, index: int) -> bool {
    &&& 0 <= index < quals.len()
    &&& quals[index].string_for(field) is Some
    &&& forall|earlier: int|
        0 <= earlier < index ==> (#[trigger] quals[earlier]).string_for(field) is None
}

/// Whether `index` is the place of the first predicate that gives an
/// integer for `field`.
pub open spec fn first_integer_at(quals: Seq<QualModel>, field: Seq<char>, index: int) -> bool {
    &&& 0 <= index < quals.len()
    &&& quals[index].integer_for(field) is Some
    &&& forall|earlier: int|
        0 <= earlier < index ==> (#[trigger] quals[earlier]).integer_for(field) is None
}

/// The string value of `field` in the query: that of the first equality on
/// `field` whose value is a string. Predicates with another operator or
/// with a value of another type are passed over; `None` means that no
/// predicate gives a string.
pub open spec fn extract_string(quals: Seq<QualModel>, field: Seq<char>) -> Option<Seq<char>> {
    if exists|index: int| first_string_at(quals, field, index) {
        quals[choose|index: int| first_string_at(quals, field, index)].string_for(field)
    } else {
        None
    }
}

/// The integer value of `field` in the query: that of the first equality on
/// `field` whose value is a native integer or a generic number. Predicates
/// with another operator or with a value of another type are passed over;
/// `None` means that no predicate gives an integer.
pub open spec fn extract_i64(quals: Seq<QualModel>, field: Seq<char>) -> Option<i64> {
    if exists|index: int| first_integer_at(quals, field, index) {
        quals[choose|index: int| first_integer_at(quals, field, index)].integer_for(field)
    } else {
        None
    }
}

/// The first predicate that gives a string for a field decides, whatever
/// follows it and whatever of another type stands before it.
pub proof fn lemma_first_string_wins(quals: Seq<QualModel>, field: Seq<char>, index: int)
    requires
        first_string_at(quals, field, index),
    ensures
        extract_string(quals, field) == quals[index].string_for(field),
        extract_string(quals, field) is Some,
{
    let chosen = choose|at: int| first_string_at(quals, field, at);
    assert(chosen == index);
}

/// The first predicate that gives an integer for a field decides, whatever
/// follows it and whatever of another type stands before it.
pub proof fn lemma_first_integer_wins(quals: Seq<QualModel>, field: Seq<char>, index: int)
    requires
        first_integer_at(quals, field, index),
    ensures
        extract_i64(quals, field) == quals[index].integer_for(field),
        extract_i64(quals, field) is Some,
{
    let chosen = choose|at: int| first_integer_at(quals, field, at);
    assert(chosen == index);
}

/// A query has a string for a field exactly where one of its predicates
/// gives one.
pub proof fn lemma_string_iff_some_gives(quals: Seq<QualModel>, field: Seq<char>)
    ensures
        extract_string(quals, field) is Some <==> exists|index: int|
            0 <= index < quals.len() && (#[trigger] quals[index]).string_for(field) is Some,
{
    if exists|index: int|
        0 <= index < quals.len() && (#[trigger] quals[index]).string_for(field) is Some {
        let index = choose|index: int|
            0 <= index < quals.len() && (#[trigger] quals[index]).string_for(field) is Some;
        lemma_least_string(quals, field, index);
        let first = choose|first: int| first_string_at(quals, field, first);
        lemma_first_string_wins(quals, field, first);
    }
}

/// A query has an integer for a field exactly where one of its predicates
/// gives one.
pub proof fn lemma_integer_iff_some_gives(quals: Seq<QualModel>, field: Seq<char>)
    ensures
        extract_i64(quals, field) is Some <==> exists|index: int|
            0 <= index < quals.len() && (#[trigger] quals[index]).integer_for(field) is Some,
{
    if exists|index: int|
        0 <= index < quals.len() && (#[trigger] quals[index]).integer_for(field) is Some {
        let index = choose|index: int|
            0 <= index < quals.len() && (#[trigger] quals[index]).integer_for(field) is Some;
        lemma_least_integer(quals, field, index);
        let first = choose|first: int| first_integer_at(quals, field, first);
        lemma_first_integer_wins(quals, field, first);
    }
}

/// At or before a predicate that gives a string there is a first one.
pub proof fn lemma_least_string(quals: Seq<QualModel>, field: Seq<char>, index: int)
    requires
        0 <= index < quals.len(),
        quals[index].string_for(field) is Some,
    ensures
        exists|first: int| first_string_at(quals, field, first),
    decreases index,
{
    if exists|earlier: int| 0 <= earlier < index && quals[earlier].string_for(field) is Some {
        let earlier = choose|earlier: int|
            0 <= earlier < index && quals[earlier].string_for(field) is Some;
        lemma_least_string(quals, field, earlier);
    } else {
        assert(first_string_at(quals, field, index));
    }
}

/// At or before a predicate that gives an integer there is a first one.
pub proof fn lemma_least_integer(quals: Seq<QualModel>, field: Seq<char>, index: int)
    requires
        0 <= index < quals.len(),
        quals[index].integer_for(field) is Some,
    ensures
        exists|first: int| first_integer_at(quals, field, first),
    decreases index,
{
    if exists|earlier: int| 0 <= earlier < index && quals[earlier].integer_for(field) is Some {
        let earlier = choose|earlier: int|
            0 <= earlier < index && quals[earlier].integer_for(field) is Some;
        lemma_least_integer(quals, field, earlier);
    } else {
        assert(first_integer_at(quals, field, index));
    }
}

/// Looks for a string value among the predicates.
///
/// Returns the value of the first predicate that is an equality on `field`
/// with a string value. Predicates with another operator or with a value of
/// another type are passed over. Returns `None` exactly where no predicate
/// is such an equality.
pub fn extract_qual_string(quals: &[Qual], field: &str) -> (r: Option<String>)
    ensures
        match r {
            Some(text) => extract_string(quals_model(quals@), field@) == Some(text@),
            None => extract_string(quals_model(quals@), field@) is None,
        },
{
    let ghost models = quals_model(quals@);
    let mut index: usize = 0;
    while index < quals.len()
        invariant
            index <= quals.len(),
            models == quals_model(quals@),
            forall|earlier: int|
                0 <= earlier < index ==> (#[trigger] models[earlier]).string_for(field@) is None,
        decreases quals.len() - index,
    {
        let qual = &quals[index];
        assert(models[index as int] == qual@);
        if str_eq(qual.field.as_str(), field) && str_eq(qual.operator.as_str(), "=") {
            if let QualValue::String(text) = &qual.value {
                proof {
                    lemma_first_string_wins(models, field@, index as int);
                }
                return Some(text.clone());
            }
        }
        index += 1;
    }
    proof {
        assert forall|at: int| !first_string_at(models, field@, at) by {}
    }
    None
}

/// Looks for an integer value among the predicates.
///
/// Returns the value of the first predicate that is an equality on `field`
/// with a native integer, which is taken as it is, or with a generic
/// number, which is truncated toward zero. Predicates with another operator
/// or with a value of another type are passed over. Returns `None` exactly
/// where no predicate is such an equality.
pub fn extract_qual_i64(quals: &[Qual], field: &str) -> (r: Option<i64>)
    ensures
        r == extract_i64(quals_model(quals@), field@),
{
    let ghost models = quals_model(quals@);
    let mut index: usize = 0;
    while index < quals.len()
        invariant
            index <= quals.len(),
            models == quals_model(quals@),
            forall|earlier: int|
                0 <= earlier < index ==> (#[trigger] models[earlier]).integer_for(field@) is None,
        decreases quals.len() - index,
    {
        let qual = &quals[index];
        assert(models[index as int] == qual@);
        if str_eq(qual.field.as_str(), field) && str_eq(qual.operator.as_str(), "=") {
            match &qual.value {
                QualValue::I64(value) => {
                    proof {
                        lemma_first_integer_wins(models, field@, index as int);
                    }
                    return Some(*value);
                },
                QualValue::Numeric(bits) => {
                    proof {
                        lemma_first_integer_wins(models, field@, index as int);
                    }
                    return Some(truncate_double(*bits));
                },
                _ => {},
            }
        }
        index += 1;
    }
    proof {
        assert forall|at: int| !first_integer_at(models, field@, at) by {}
    }
    None
}

} // verus!
