//! Property types as the GraphQL interface of the property service names
//! them, and their counterparts among the models.

use vstd::prelude::*;
use vstd::std_specs::convert::FromSpecImpl;
use vstd::string::*;
use crate::error::AppError;
use crate::models::property::PropertyType as ModelPropertyType;
use crate::models::property::ValuationMethod as ModelValuationMethod;

verus! {

/// GraphQL mutation root of the property service.
#[derive(Debug, Clone, Copy, PartialEq, Eq)]
pub struct MutationRoot;

/// GraphQL query root of the property service.
#[derive(Debug, Clone, Copy, PartialEq, Eq)]
pub struct QueryRoot;

/// GraphQL enum for property types.
#[derive(Debug, Clone, Copy, PartialEq, Eq, Structural)]
pub enum PropertyType {
    SingleFamily,
    Condo,
    Townhouse,
    MultiFamily,
    Land,
    Commercial,
    Industrial,
    Agricultural,
    Other,
}

/// GraphQL enum for valuation methods.
#[derive(Debug, Clone, Copy, PartialEq, Eq, Structural)]
pub enum ValuationMethod {
    SalesComparison,
    IncomeApproach,
    CostApproach,
    Automated,
    Combined,
}

/// The GraphQL name of a property type of the models.
pub open spec fn property_type_shown(pt: ModelPropertyType) -> PropertyType {
    match pt {
        ModelPropertyType::SingleFamily => PropertyType::SingleFamily,
        ModelPropertyType::Condo => PropertyType::Condo,
        ModelPropertyType::Townhouse => PropertyType::Townhouse,
        ModelPropertyType::MultiFamily => PropertyType::MultiFamily,
        ModelPropertyType::Land => PropertyType::Land,
        ModelPropertyType::Commercial => PropertyType::Commercial,
        ModelPropertyType::Industrial => PropertyType::Industrial,
        ModelPropertyType::Agricultural => PropertyType::Agricultural,
        ModelPropertyType::Other => PropertyType::Other,
    }
}

/// The property type of the models that a GraphQL name stands for.
pub open spec fn property_type_meant(pt: PropertyType) -> ModelPropertyType {
    match pt {
        PropertyType::SingleFamily => ModelPropertyType::SingleFamily,
        PropertyType::Condo => ModelPropertyType::Condo,
        PropertyType::Townhouse => ModelPropertyType::Townhouse,
        PropertyType::MultiFamily => ModelPropertyType::MultiFamily,
        PropertyType::Land => ModelPropertyType::Land,
        PropertyType::Commercial => ModelPropertyType::Commercial,
        PropertyType::Industrial => ModelPropertyType::Industrial,
        PropertyType::Agricultural => ModelPropertyType::Agricultural,
        PropertyType::Other => ModelPropertyType::Other,
    }
}

/// The GraphQL name of a valuation method of the models.
pub open spec fn valuation_method_shown(vm: ModelValuationMethod) -> ValuationMethod {
    match vm {
        ModelValuationMethod::SalesComparison => ValuationMethod::SalesComparison,
        ModelValuationMethod::IncomeApproach => ValuationMethod::IncomeApproach,
        ModelValuationMethod::CostApproach => ValuationMethod::CostApproach,
        ModelValuationMethod::Automated => ValuationMethod::Automated,
        ModelValuationMethod::Combined => ValuationMethod::Combined,
    }
}

/// The valuation method of the models that a GraphQL name stands for.
pub open spec fn valuation_method_meant(vm: ValuationMethod) -> ModelValuationMethod {
    match vm {
        ValuationMethod::SalesComparison => ModelValuationMethod::SalesComparison,
        ValuationMethod::IncomeApproach => ModelValuationMethod::IncomeApproach,
        ValuationMethod::CostApproach => ModelValuationMethod::CostApproach,
        ValuationMethod::Automated => ModelValuationMethod::Automated,
        ValuationMethod::Combined => ModelValuationMethod::Combined,
    }
}

impl From<ModelPropertyType> for PropertyType {
    fn from(pt: ModelPropertyType) -> (shown: PropertyType) {
        match pt {
            ModelPropertyType::SingleFamily => PropertyType::SingleFamily,
            ModelPropertyType::Condo => PropertyType::Condo,
            ModelPropertyType::Townhouse => PropertyType::Townhouse,
            ModelPropertyType::MultiFamily => PropertyType::MultiFamily,
            ModelPropertyType::Land => PropertyType::Land,
            ModelPropertyType::Commercial => PropertyType::Commercial,
            ModelPropertyType::Industrial => PropertyType::Industrial,
            ModelPropertyType::Agricultural => PropertyType::Agricultural,
            ModelPropertyType::Other => PropertyType::Other,
        }
    }
}

impl FromSpecImpl<ModelPropertyType> for PropertyType {
    open spec fn obeys_from_spec() -> bool {
        true
    }

    open spec fn from_spec(pt: ModelPropertyType) -> PropertyType {
        property_type_shown(pt)
    }
}

impl From<PropertyType> for ModelPropertyType {
    fn from(pt: PropertyType) -> (meant: ModelPropertyType) {
        match pt {
            PropertyType::SingleFamily => ModelPropertyType::SingleFamily,
            PropertyType::Condo => ModelPropertyType::Condo,
            PropertyType::Townhouse => ModelPropertyType::Townhouse,
            PropertyType::MultiFamily => ModelPropertyType::MultiFamily,
            PropertyType::Land => ModelPropertyType::Land,
            PropertyType::Commercial => ModelPropertyType::Commercial,
            PropertyType::Industrial => ModelPropertyType::Industrial,
            PropertyType::Agricultural => ModelPropertyType::Agricultural,
            PropertyType::Other => ModelPropertyType::Other,
        }
    }
}

impl FromSpecImpl<PropertyType> for ModelPropertyType {
    open spec fn obeys_from_spec() -> bool {
        true
    }

    open spec fn from_spec(pt: PropertyType) -> ModelPropertyType {
        property_type_meant(pt)
    }
}

impl From<ModelValuationMethod> for ValuationMethod {
    fn from(vm: ModelValuationMethod) -> (shown: ValuationMethod) {
        match vm {
            ModelValuationMethod::SalesComparison => ValuationMethod::SalesComparison,
            ModelValuationMethod::IncomeApproach => ValuationMethod::IncomeApproach,
            ModelValuationMethod::CostApproach => ValuationMethod::CostApproach,
            ModelValuationMethod::Automated => ValuationMethod::Automated,
            ModelValuationMethod::Combined => ValuationMethod::Combined,
        }
    }
}

impl FromSpecImpl<ModelValuationMethod> for ValuationMethod {
    open spec fn obeys_from_spec() -> bool {
        true
    }

    open spec fn from_spec(vm: ModelValuationMethod) -> ValuationMethod {
        valuation_method_shown(vm)
    }
}

impl From<ValuationMethod> for ModelValuationMethod {
    fn from(vm: ValuationMethod) -> (meant: ModelValuationMethod) {
        match vm {
            ValuationMethod::SalesComparison => ModelValuationMethod::SalesComparison,
            ValuationMethod::IncomeApproach => ModelValuationMethod::IncomeApproach,
            ValuationMethod::CostApproach => ModelValuationMethod::CostApproach,
            ValuationMethod::Automated => ModelValuationMethod::Automated,
            ValuationMethod::Combined => ModelValuationMethod::Combined,
        }
    }
}

impl FromSpecImpl<ValuationMethod> for ModelValuationMethod {
    open spec fn obeys_from_spec() -> bool {
        true
    }

    open spec fn from_spec(vm: ValuationMethod) -> ModelValuationMethod {
        valuation_method_meant(vm)
    }
}

/// An application error as the GraphQL interface reports it: the
/// message, and the error's tag and HTTP status as extensions.
#[derive(Debug, Clone, PartialEq, Eq)]
pub struct GraphqlError {
    pub message: String,
    pub error_type: String,
    pub status: u16,
}

/// Convert application errors to GraphQL errors.
pub fn graphql_error(e: &AppError) -> (shown: GraphqlError)
    ensures
        shown.message@ == e.message_text(),
        shown.error_type@ == e.kind().tag(),
        shown.status == e.kind().status(),
{
    GraphqlError {
        message: String::from_str(e.message()),
        error_type: String::from_str(e.error_type()),
        status: e.status_code(),
    }
}

/// Showing a property type and reading it back gives the same type, and
/// the other way round; likewise for valuation methods.
pub proof fn law_names_round_trip(
    pt: ModelPropertyType,
    shown: PropertyType,
    vm: ModelValuationMethod,
    method: ValuationMethod,
)
    ensures
        property_type_meant(property_type_shown(pt)) == pt,
        property_type_shown(property_type_meant(shown)) == shown,
        valuation_method_meant(valuation_method_shown(vm)) == vm,
        valuation_method_shown(valuation_method_meant(method)) == method,
{
}

} // verus!
