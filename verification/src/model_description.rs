//! The typed, queryable form of a bundle's `modelDescription.xml` manifest.
//!
//! The manifest declares the model's identity, the capability block for
//! each simulation mode it supports, and the registry of scalar variables
//! with their native value references, causality, variability and value
//! kind. Decoding maps attribute vocabularies case-exactly onto the fixed
//! enumerations below; optional elements may be absent, unknown vocabulary
//! words are rejected. Attribute values whose standard type is a
//! floating-point number are carried verbatim as text: this crate's logic
//! never computes with them, it only hands them on.

use vstd::prelude::*;

use crate::text::{chars_eq_str, chars_to_string, parse_bool_chars, parse_i64_chars,
    parse_u32_chars, parse_usize_chars, spec_all_digits, spec_bool_of, spec_dec_val,
    spec_signed_val, spec_signed_wf, str_to_chars};
use crate::xml::{attrs_view, children_views, elem_view, parse_document, spec_document,
    SpecXmlAttribute, SpecXmlElement, XmlElement, XmlError};

verus! {

/// SI base-unit exponents and scaling of a declared unit. The scaling
/// factor and offset are carried as manifest text.
#[derive(Debug, Clone)]
pub struct BaseUnit {
    pub kg: Option<i32>,
    pub m: Option<i32>,
    pub s: Option<i32>,
    pub ampere: Option<i32>,
    pub kelvin: Option<i32>,
    pub mol: Option<i32>,
    pub cd: Option<i32>,
    pub rad: Option<i32>,
    pub factor: Option<String>,
    pub offset: Option<String>,
}

/// A display conversion of a declared unit; factor and offset are carried
/// as manifest text.
#[derive(Debug, Clone)]
pub struct DisplayUnit {
    pub name: String,
    pub factor: Option<String>,
    pub offset: Option<String>,
}

/// One declared unit.
#[derive(Debug, Clone)]
pub struct Unit {
    pub name: String,
    pub base_unit: Option<BaseUnit>,
    pub display_unit: Vec<DisplayUnit>,
}

/// The manifest's optional unit table.
#[derive(Debug, Clone)]
pub struct UnitDefinitions {
    pub unit: Vec<Unit>,
}

/// Kind-specific data of a real-valued variable. The start value is
/// carried as manifest text.
#[derive(Debug, Clone)]
pub struct Real {
    pub declared_type: Option<String>,
    pub start: Option<String>,
    pub derivative: Option<usize>,
    pub reinit: Option<bool>,
}

/// Kind-specific data of a boolean-valued variable.
#[derive(Debug, Clone)]
pub struct Boolean {
    pub declared_type: Option<String>,
    pub start: Option<bool>,
}

/// Kind-specific data of an integer-valued variable.
#[derive(Debug, Clone)]
pub struct Integer {
    pub declared_type: Option<String>,
    pub start: Option<i64>,
}

/// The value kind of a variable, fixed at decode time.
#[derive(Debug, Clone)]
pub enum SignalType {
    Real(Real),
    Integer(Integer),
    Boolean(Boolean),
    StringType,
    Enumeration,
}

/// The standard's causality vocabulary: a variable's role.
#[derive(Debug, Clone, Copy, PartialEq, Eq, Structural)]
pub enum Causality {
    Parameter,
    CalculatedParameter,
    Input,
    Output,
    Local,
    Independent,
}

impl Default for Causality {
    /// The manifest's default causality for a variable that declares none.
    fn default() -> (r: Self)
        ensures
            r == Causality::Local,
    {
        Causality::Local
    }
}

/// The standard's variability vocabulary: how often a variable may change.
#[derive(Debug, Clone, Copy, PartialEq, Eq, Structural)]
pub enum Variability {
    Constant,
    Fixed,
    Tunable,
    Discrete,
    Continuous,
}

impl Default for Variability {
    /// The manifest's default variability for a variable that declares none.
    fn default() -> (r: Self)
        ensures
            r == Variability::Continuous,
    {
        Variability::Continuous
    }
}

/// The standard's initial-value policy vocabulary.
#[derive(Debug, Clone, Copy, PartialEq, Eq, Structural)]
pub enum Initial {
    Exact,
    Approx,
    Calculated,
}

/// One variable of the registry.
#[derive(Debug, Clone)]
pub struct ScalarVariable {
    pub name: String,
    pub value_reference: u32,
    pub description: String,
    pub causality: Causality,
    pub variability: Variability,
    pub initial: Option<Initial>,
    pub can_handle_multiple_set_per_time_instant: Option<bool>,
    pub signal_type: SignalType,
}

/// The registry of declared variables, in manifest order.
#[derive(Debug, Clone)]
pub struct ModelVariables {
    pub scalar_variable: Vec<ScalarVariable>,
}

/// One source file named by a capability block.
#[derive(Debug, Clone)]
pub struct FMIFile {
    pub name: String,
}

/// The source-file list of a capability block.
#[derive(Debug, Clone)]
pub struct FMISourceFiles {
    pub file: Vec<FMIFile>,
}

/// One declared logging category.
#[derive(Debug, Clone)]
pub struct Category {
    pub name: String,
    pub description: String,
}

/// The manifest's optional table of logging categories.
#[derive(Debug, Clone)]
pub struct LogCategories {
    pub category: Vec<Category>,
}

/// The model-exchange capability block.
#[derive(Debug, Clone)]
pub struct ModelExchange {
    pub source_files: FMISourceFiles,
    pub model_identifier: String,
    pub needs_execution_tool: bool,
    pub completed_integrator_step_not_needed: bool,
    pub can_be_instantiated_only_once_per_process: bool,
    pub can_not_use_memory_management_functions: bool,
    pub can_get_and_set_fmustate: bool,
    pub can_serialize_fmustate: bool,
    pub provides_directional_derivative: bool,
}

/// The co-simulation capability block.
#[derive(Debug, Clone)]
pub struct CoSimulation {
    pub source_files: FMISourceFiles,
    pub model_identifier: String,
    pub needs_execution_tool: bool,
    pub can_handle_variable_communication_step_size: bool,
    pub can_interpolate_inputs: bool,
    pub max_output_derivative_order: bool,
    pub can_run_asynchronuously: bool,
    pub can_be_instantiated_only_once_per_process: bool,
    pub can_not_use_memory_management_functions: bool,
    pub can_get_and_set_fmustate: bool,
    pub can_serialize_fmustate: bool,
    pub provides_directional_derivative: bool,
}

/// The manifest's optional default experiment; every field is carried as
/// manifest text.
#[derive(Debug, Clone)]
pub struct DefaultExperiment {
    pub start_time: Option<String>,
    pub stop_time: Option<String>,
    pub tolerance: Option<String>,
    pub step_size: Option<String>,
}

/// The decoded manifest: identity attributes, optional capability blocks,
/// and the variable registry.
#[derive(Debug, Clone)]
pub struct FmiModelDescription {
    pub co_simulation: Option<CoSimulation>,
    pub model_exchange: Option<ModelExchange>,
    pub model_variables: ModelVariables,
    pub unit_definitions: Option<UnitDefinitions>,
    pub log_categories: Option<LogCategories>,
    pub default_experiment: Option<DefaultExperiment>,
    pub fmi_version: String,
    pub model_name: String,
    pub guid: String,
    pub description: String,
    pub author: String,
    pub version: String,
    pub copyright: String,
    pub license: String,
    pub generation_tool: String,
    pub generation_date_and_time: String,
    pub variable_naming_convention: String,
    pub number_of_event_indicators: String,
}

/// Why a manifest was rejected.
#[derive(Debug, Clone, Copy, PartialEq, Eq, Structural)]
pub enum ModelDescriptionError {
    /// The document is not well-formed XML of the supported subset.
    Xml(XmlError),
    /// The document is well-formed but an attribute is missing or holds a
    /// value outside its vocabulary or range.
    BadValue,
}

/// The value of the first attribute with the given name, if any.
pub open spec fn spec_attr(attrs: Seq<SpecXmlAttribute>, name: Seq<char>) -> Option<Seq<char>>
    decreases attrs.len(),
{
    if attrs.len() == 0 {
        None
    } else if attrs[0].name == name {
        Some(attrs[0].value)
    } else {
        spec_attr(attrs.drop_first(), name)
    }
}

/// The value of the first attribute with the given name, or the given
/// fallback where the attribute is absent.
pub open spec fn spec_attr_or(
    attrs: Seq<SpecXmlAttribute>,
    name: Seq<char>,
    dflt: Seq<char>,
) -> Seq<char> {
    match spec_attr(attrs, name) {
        Some(v) => v,
        None => dflt,
    }
}

/// The first attribute with the given name holds this value and no
/// earlier attribute carries the name.
proof fn lemma_spec_attr_found(attrs: Seq<SpecXmlAttribute>, name: Seq<char>, i: int)
    requires
        0 <= i < attrs.len(),
        attrs[i].name == name,
        forall|j: int| 0 <= j < i ==> attrs[j].name != name,
    ensures
        spec_attr(attrs, name) == Some(attrs[i].value),
    decreases attrs.len(),
{
    if i > 0 {
        lemma_spec_attr_found(attrs.drop_first(), name, i - 1);
    }
}

/// No attribute carries the name, so the lookup is empty.
proof fn lemma_spec_attr_missing(attrs: Seq<SpecXmlAttribute>, name: Seq<char>)
    requires
        forall|j: int| 0 <= j < attrs.len() ==> attrs[j].name != name,
    ensures
        spec_attr(attrs, name) is None,
    decreases attrs.len(),
{
    if attrs.len() > 0 {
        lemma_spec_attr_missing(attrs.drop_first(), name);
    }
}

/// Look up the first attribute with the given name on an element.
pub fn attr_of<'a>(e: &'a XmlElement, name: &str) -> (r: Option<&'a Vec<char>>)
    ensures
        match r {
            Some(v) => spec_attr(attrs_view(e.attributes@), name@) == Some(v@),
            None => spec_attr(attrs_view(e.attributes@), name@) is None,
        },
{
    let mut i: usize = 0;
    while i < e.attributes.len()
        invariant
            0 <= i <= e.attributes@.len(),
            forall|j: int| 0 <= j < i ==> attrs_view(e.attributes@)[j].name != name@,
        decreases e.attributes@.len() - i,
    {
        proof {
            assert(attrs_view(e.attributes@)[i as int].name == e.attributes@[i as int].name@);
            assert(attrs_view(e.attributes@)[i as int].value == e.attributes@[i as int].value@);
        }
        if chars_eq_str(e.attributes[i].name.as_slice(), name) {
            proof {
                lemma_spec_attr_found(attrs_view(e.attributes@), name@, i as int);
            }
            return Some(&e.attributes[i].value);
        }
        i += 1;
    }
    proof {
        lemma_spec_attr_missing(attrs_view(e.attributes@), name@);
    }
    None
}

/// Look up the first attribute with the given name and return it as a
/// `String`, with a fallback for an absent attribute.
pub fn attr_string(e: &XmlElement, name: &str, dflt: &str) -> (r: String)
    ensures
        r@ == spec_attr_or(attrs_view(e.attributes@), name@, dflt@),
{
    match attr_of(e, name) {
        Some(v) => chars_to_string(v.as_slice()),
        None => {
            let mut s = String::new();
            s.append(dflt);
            s
        },
    }
}

/// The first child element with the given name, if any.
pub open spec fn spec_child(children: Seq<SpecXmlElement>, name: Seq<char>) -> Option<
    SpecXmlElement,
>
    decreases children.len(),
{
    if children.len() == 0 {
        None
    } else if children[0].name == name {
        Some(children[0])
    } else {
        spec_child(children.drop_first(), name)
    }
}

/// The first child element with the given name is at this index.
proof fn lemma_spec_child_found(children: Seq<SpecXmlElement>, name: Seq<char>, i: int)
    requires
        0 <= i < children.len(),
        children[i].name == name,
        forall|j: int| 0 <= j < i ==> children[j].name != name,
    ensures
        spec_child(children, name) == Some(children[i]),
    decreases children.len(),
{
    if i > 0 {
        lemma_spec_child_found(children.drop_first(), name, i - 1);
    }
}

/// No child element carries the name, so the lookup is empty.
proof fn lemma_spec_child_missing(children: Seq<SpecXmlElement>, name: Seq<char>)
    requires
        forall|j: int| 0 <= j < children.len() ==> children[j].name != name,
    ensures
        spec_child(children, name) is None,
    decreases children.len(),
{
    if children.len() > 0 {
        lemma_spec_child_missing(children.drop_first(), name);
    }
}

/// Look up the first child element with the given name.
pub fn child_of<'a>(e: &'a XmlElement, name: &str) -> (r: Option<&'a XmlElement>)
    ensures
        match r {
            Some(c) => spec_child(children_views(e.children@), name@) == Some(elem_view(*c)),
            None => spec_child(children_views(e.children@), name@) is None,
        },
{
    let mut i: usize = 0;
    while i < e.children.len()
        invariant
            0 <= i <= e.children@.len(),
            forall|j: int| 0 <= j < i ==> children_views(e.children@)[j].name != name@,
        decreases e.children@.len() - i,
    {
        proof {
            assert(children_views(e.children@)[i as int] == elem_view(e.children@[i as int]));
            assert(children_views(e.children@)[i as int].name == e.children@[i as int].name@);
        }
        if chars_eq_str(e.children[i].name.as_slice(), name) {
            proof {
                lemma_spec_child_found(children_views(e.children@), name@, i as int);
            }
            return Some(&e.children[i]);
        }
        i += 1;
    }
    proof {
        lemma_spec_child_missing(children_views(e.children@), name@);
    }
    None
}

/// The causality denoted by a manifest word, if it is in the vocabulary.
pub open spec fn spec_causality_of(t: Seq<char>) -> Option<Causality> {
    if t == "parameter"@ {
        Some(Causality::Parameter)
    } else if t == "calculatedParameter"@ {
        Some(Causality::CalculatedParameter)
    } else if t == "input"@ {
        Some(Causality::Input)
    } else if t == "output"@ {
        Some(Causality::Output)
    } else if t == "local"@ {
        Some(Causality::Local)
    } else if t == "independent"@ {
        Some(Causality::Independent)
    } else {
        None
    }
}

/// Decode a causality word, case-exactly.
pub fn parse_causality(v: &[char]) -> (r: Option<Causality>)
    ensures
        r == spec_causality_of(v@),
{
    if chars_eq_str(v, "parameter") {
        Some(Causality::Parameter)
    } else if chars_eq_str(v, "calculatedParameter") {
        Some(Causality::CalculatedParameter)
    } else if chars_eq_str(v, "input") {
        Some(Causality::Input)
    } else if chars_eq_str(v, "output") {
        Some(Causality::Output)
    } else if chars_eq_str(v, "local") {
        Some(Causality::Local)
    } else if chars_eq_str(v, "independent") {
        Some(Causality::Independent)
    } else {
        None
    }
}

/// The variability denoted by a manifest word, if it is in the vocabulary.
pub open spec fn spec_variability_of(t: Seq<char>) -> Option<Variability> {
    if t == "constant"@ {
        Some(Variability::Constant)
    } else if t == "fixed"@ {
        Some(Variability::Fixed)
    } else if t == "tunable"@ {
        Some(Variability::Tunable)
    } else if t == "discrete"@ {
        Some(Variability::Discrete)
    } else if t == "continuous"@ {
        Some(Variability::Continuous)
    } else {
        None
    }
}

/// Decode a variability word, case-exactly.
pub fn parse_variability(v: &[char]) -> (r: Option<Variability>)
    ensures
        r == spec_variability_of(v@),
{
    if chars_eq_str(v, "constant") {
        Some(Variability::Constant)
    } else if chars_eq_str(v, "fixed") {
        Some(Variability::Fixed)
    } else if chars_eq_str(v, "tunable") {
        Some(Variability::Tunable)
    } else if chars_eq_str(v, "discrete") {
        Some(Variability::Discrete)
    } else if chars_eq_str(v, "continuous") {
        Some(Variability::Continuous)
    } else {
        None
    }
}

/// The initial-value policy denoted by a manifest word, if any.
pub open spec fn spec_initial_of(t: Seq<char>) -> Option<Initial> {
    if t == "exact"@ {
        Some(Initial::Exact)
    } else if t == "approx"@ {
        Some(Initial::Approx)
    } else if t == "calculated"@ {
        Some(Initial::Calculated)
    } else {
        None
    }
}

/// Decode an initial-value policy word, case-exactly.
pub fn parse_initial(v: &[char]) -> (r: Option<Initial>)
    ensures
        r == spec_initial_of(v@),
{
    if chars_eq_str(v, "exact") {
        Some(Initial::Exact)
    } else if chars_eq_str(v, "approx") {
        Some(Initial::Approx)
    } else if chars_eq_str(v, "calculated") {
        Some(Initial::Calculated)
    } else {
        None
    }
}

/// Decode an optional string attribute.
fn opt_string_attr(e: &XmlElement, name: &str) -> (r: Option<String>)
    ensures
        match r {
            Some(s) => spec_attr(attrs_view(e.attributes@), name@) == Some(s@),
            None => spec_attr(attrs_view(e.attributes@), name@) is None,
        },
{
    match attr_of(e, name) {
        Some(v) => Some(chars_to_string(v.as_slice())),
        None => None,
    }
}

/// Decode an optional boolean attribute; a word outside the boolean
/// vocabulary is an error.
fn opt_bool_attr(e: &XmlElement, name: &str) -> (r: Result<Option<bool>, ModelDescriptionError>)
    ensures
        match r {
            Ok(b) => match spec_attr(attrs_view(e.attributes@), name@) {
                None => b is None,
                Some(t) => b matches Some(x) && spec_bool_of(t) == Some(x),
            },
            Err(err) => true,
        },
        r is Ok <==> (spec_attr(attrs_view(e.attributes@), name@) matches Some(t)
            ==> spec_bool_of(t) is Some),
        r matches Err(err) ==> err == ModelDescriptionError::BadValue,
{
    match attr_of(e, name) {
        Some(v) => match parse_bool_chars(v.as_slice()) {
            Some(b) => Ok(Some(b)),
            None => Err(ModelDescriptionError::BadValue),
        },
        None => Ok(None),
    }
}

/// The kind data of a real variable corresponds to the element's
/// attributes.
pub open spec fn spec_real_of(e: SpecXmlElement, r: Real) -> bool {
    &&& (match spec_attr(e.attributes, "declaredType"@) {
        Some(t) => r.declared_type matches Some(s) && s@ == t,
        None => r.declared_type is None,
    })
    &&& (match spec_attr(e.attributes, "start"@) {
        Some(t) => r.start matches Some(s) && s@ == t,
        None => r.start is None,
    })
    &&& (match spec_attr(e.attributes, "derivative"@) {
        Some(t) => r.derivative matches Some(d) && d == spec_dec_val(t),
        None => r.derivative is None,
    })
    &&& (match spec_attr(e.attributes, "reinit"@) {
        Some(t) => r.reinit matches Some(b) && spec_bool_of(t) == Some(b),
        None => r.reinit is None,
    })
}

/// The attributes of a `Real` element are decodable.
pub open spec fn spec_real_wf(e: SpecXmlElement) -> bool {
    &&& (spec_attr(e.attributes, "derivative"@) matches Some(t) ==> t.len() > 0
        && spec_all_digits(t) && spec_dec_val(t) <= usize::MAX)
    &&& (spec_attr(e.attributes, "reinit"@) matches Some(t) ==> spec_bool_of(t) is Some)
}

fn map_real(e: &XmlElement) -> (r: Result<Real, ModelDescriptionError>)
    ensures
        r matches Ok(v) ==> spec_real_of(elem_view(*e), v),
        r is Ok <==> spec_real_wf(elem_view(*e)),
        r matches Err(err) ==> err == ModelDescriptionError::BadValue,
{
    proof {
        assert(elem_view(*e).attributes == attrs_view(e.attributes@));
        assert(elem_view(*e).children == children_views(e.children@));
    }
    let declared_type = opt_string_attr(e, "declaredType");
    let start = opt_string_attr(e, "start");
    let derivative = match attr_of(e, "derivative") {
        Some(t) => match parse_usize_chars(t.as_slice()) {
            Some(d) => Some(d),
            None => {
                return Err(ModelDescriptionError::BadValue);
            },
        },
        None => None,
    };
    let reinit = match opt_bool_attr(e, "reinit") {
        Ok(b) => b,
        Err(err) => {
            return Err(err);
        },
    };
    Ok(Real { declared_type, start, derivative, reinit })
}

/// The kind data of an integer variable corresponds to the element's
/// attributes.
pub open spec fn spec_integer_of(e: SpecXmlElement, r: Integer) -> bool {
    &&& (match spec_attr(e.attributes, "declaredType"@) {
        Some(t) => r.declared_type matches Some(s) && s@ == t,
        None => r.declared_type is None,
    })
    &&& (match spec_attr(e.attributes, "start"@) {
        Some(t) => r.start matches Some(x) && x == spec_signed_val(t),
        None => r.start is None,
    })
}

/// The attributes of an `Integer` element are decodable.
pub open spec fn spec_integer_wf(e: SpecXmlElement) -> bool {
    spec_attr(e.attributes, "start"@) matches Some(t) ==> spec_signed_wf(t) && i64::MIN
        <= spec_signed_val(t) <= i64::MAX
}

fn map_integer(e: &XmlElement) -> (r: Result<Integer, ModelDescriptionError>)
    ensures
        r matches Ok(v) ==> spec_integer_of(elem_view(*e), v),
        r is Ok <==> spec_integer_wf(elem_view(*e)),
        r matches Err(err) ==> err == ModelDescriptionError::BadValue,
{
    proof {
        assert(elem_view(*e).attributes == attrs_view(e.attributes@));
        assert(elem_view(*e).children == children_views(e.children@));
    }
    let declared_type = opt_string_attr(e, "declaredType");
    let start = match attr_of(e, "start") {
        Some(t) => match parse_i64_chars(t.as_slice()) {
            Some(x) => Some(x),
            None => {
                return Err(ModelDescriptionError::BadValue);
            },
        },
        None => None,
    };
    Ok(Integer { declared_type, start })
}

/// The kind data of a boolean variable corresponds to the element's
/// attributes.
pub open spec fn spec_boolean_of(e: SpecXmlElement, r: Boolean) -> bool {
    &&& (match spec_attr(e.attributes, "declaredType"@) {
        Some(t) => r.declared_type matches Some(s) && s@ == t,
        None => r.declared_type is None,
    })
    &&& (match spec_attr(e.attributes, "start"@) {
        Some(t) => r.start matches Some(b) && spec_bool_of(t) == Some(b),
        None => r.start is None,
    })
}

/// The attributes of a `Boolean` element are decodable.
pub open spec fn spec_boolean_wf(e: SpecXmlElement) -> bool {
    spec_attr(e.attributes, "start"@) matches Some(t) ==> spec_bool_of(t) is Some
}

fn map_boolean(e: &XmlElement) -> (r: Result<Boolean, ModelDescriptionError>)
    ensures
        r matches Ok(v) ==> spec_boolean_of(elem_view(*e), v),
        r is Ok <==> spec_boolean_wf(elem_view(*e)),
        r matches Err(err) ==> err == ModelDescriptionError::BadValue,
{
    proof {
        assert(elem_view(*e).attributes == attrs_view(e.attributes@));
        assert(elem_view(*e).children == children_views(e.children@));
    }
    let declared_type = opt_string_attr(e, "declaredType");
    let start = match opt_bool_attr(e, "start") {
        Ok(b) => b,
        Err(err) => {
            return Err(err);
        },
    };
    Ok(Boolean { declared_type, start })
}

/// Whether an element name declares a value kind.
pub open spec fn spec_is_signal_name(n: Seq<char>) -> bool {
    n == "Real"@ || n == "Integer"@ || n == "Boolean"@ || n == "String"@ || n == "Enumeration"@
}

/// The decoded value kind corresponds to the kind element.
pub open spec fn spec_signal_matches(c: SpecXmlElement, st: SignalType) -> bool {
    if c.name == "Real"@ {
        st matches SignalType::Real(r) && spec_real_of(c, r)
    } else if c.name == "Integer"@ {
        st matches SignalType::Integer(v) && spec_integer_of(c, v)
    } else if c.name == "Boolean"@ {
        st matches SignalType::Boolean(v) && spec_boolean_of(c, v)
    } else if c.name == "String"@ {
        st is StringType
    } else if c.name == "Enumeration"@ {
        st is Enumeration
    } else {
        false
    }
}

/// The kind element's own attributes are decodable.
pub open spec fn spec_signal_child_wf(c: SpecXmlElement) -> bool {
    if c.name == "Real"@ {
        spec_real_wf(c)
    } else if c.name == "Integer"@ {
        spec_integer_wf(c)
    } else if c.name == "Boolean"@ {
        spec_boolean_wf(c)
    } else {
        spec_is_signal_name(c.name)
    }
}

/// A variable element has a first value-kind child, it is decodable, and
/// the decoded kind corresponds to it.
pub open spec fn spec_signal_of(children: Seq<SpecXmlElement>, st: SignalType) -> bool {
    exists|i: int|
        {
            &&& 0 <= i < children.len()
            &&& spec_is_signal_name(#[trigger] children[i].name)
            &&& (forall|j: int| 0 <= j < i ==> !spec_is_signal_name(#[trigger] children[j].name))
            &&& spec_signal_matches(children[i], st)
        }
}

/// A variable element has a first value-kind child and it is decodable.
pub open spec fn spec_signal_wf(children: Seq<SpecXmlElement>) -> bool {
    exists|i: int|
        {
            &&& 0 <= i < children.len()
            &&& spec_is_signal_name(#[trigger] children[i].name)
            &&& (forall|j: int| 0 <= j < i ==> !spec_is_signal_name(#[trigger] children[j].name))
            &&& spec_signal_child_wf(children[i])
        }
}

fn map_signal_type(e: &XmlElement) -> (r: Result<SignalType, ModelDescriptionError>)
    ensures
        r matches Ok(st) ==> spec_signal_of(children_views(e.children@), st),
        r is Ok <==> spec_signal_wf(children_views(e.children@)),
        r matches Err(err) ==> err == ModelDescriptionError::BadValue,
{
    let mut i: usize = 0;
    while i < e.children.len()
        invariant
            0 <= i <= e.children@.len(),
            forall|j: int|
                0 <= j < i ==> !spec_is_signal_name(
                    #[trigger] children_views(e.children@)[j].name,
                ),
        decreases e.children@.len() - i,
    {
        let c = &e.children[i];
        proof {
            assert(children_views(e.children@)[i as int] == elem_view(e.children@[i as int]));
            assert(children_views(e.children@)[i as int].name == e.children@[i as int].name@);
            assert(elem_view(e.children@[i as int]).attributes == attrs_view(
                e.children@[i as int].attributes@,
            ));
            assert(elem_view(e.children@[i as int]).children == children_views(
                e.children@[i as int].children@,
            ));
        }
        if chars_eq_str(c.name.as_slice(), "Real") {
            return match map_real(c) {
                Ok(v) => Ok(SignalType::Real(v)),
                Err(err) => Err(err),
            };
        } else if chars_eq_str(c.name.as_slice(), "Integer") {
            return match map_integer(c) {
                Ok(v) => Ok(SignalType::Integer(v)),
                Err(err) => Err(err),
            };
        } else if chars_eq_str(c.name.as_slice(), "Boolean") {
            return match map_boolean(c) {
                Ok(v) => Ok(SignalType::Boolean(v)),
                Err(err) => Err(err),
            };
        } else if chars_eq_str(c.name.as_slice(), "String") {
            return Ok(SignalType::StringType);
        } else if chars_eq_str(c.name.as_slice(), "Enumeration") {
            return Ok(SignalType::Enumeration);
        }
        i += 1;
    }
    Err(ModelDescriptionError::BadValue)
}

/// The decoded variable corresponds to the `ScalarVariable` element.
pub open spec fn spec_variable_of(e: SpecXmlElement, sv: ScalarVariable) -> bool {
    &&& spec_attr(e.attributes, "name"@) == Some(sv.name@)
    &&& (spec_attr(e.attributes, "valueReference"@) matches Some(t) && sv.value_reference
        == spec_dec_val(t))
    &&& sv.description@ == spec_attr_or(e.attributes, "description"@, ""@)
    &&& (match spec_attr(e.attributes, "causality"@) {
        None => sv.causality == Causality::Local,
        Some(t) => spec_causality_of(t) == Some(sv.causality),
    })
    &&& (match spec_attr(e.attributes, "variability"@) {
        None => sv.variability == Variability::Continuous,
        Some(t) => spec_variability_of(t) == Some(sv.variability),
    })
    &&& (match spec_attr(e.attributes, "initial"@) {
        None => sv.initial is None,
        Some(t) => sv.initial matches Some(x) && spec_initial_of(t) == Some(x),
    })
    &&& (match spec_attr(e.attributes, "canHandleMultipleSetPerTimeInstant"@) {
        None => sv.can_handle_multiple_set_per_time_instant is None,
        Some(t) => sv.can_handle_multiple_set_per_time_instant matches Some(b) && spec_bool_of(t)
            == Some(b),
    })
    &&& spec_signal_of(e.children, sv.signal_type)
}

/// The `ScalarVariable` element is decodable: the required name and value
/// reference are present and in range, every vocabulary word is known,
/// and a decodable value-kind child stands first among the kind children.
pub open spec fn spec_variable_wf(e: SpecXmlElement) -> bool {
    &&& spec_attr(e.attributes, "name"@) is Some
    &&& (spec_attr(e.attributes, "valueReference"@) matches Some(t) && t.len() > 0
        && spec_all_digits(t) && spec_dec_val(t) <= u32::MAX)
    &&& (spec_attr(e.attributes, "causality"@) matches Some(t) ==> spec_causality_of(t) is Some)
    &&& (spec_attr(e.attributes, "variability"@) matches Some(t) ==> spec_variability_of(t)
        is Some)
    &&& (spec_attr(e.attributes, "initial"@) matches Some(t) ==> spec_initial_of(t) is Some)
    &&& (spec_attr(e.attributes, "canHandleMultipleSetPerTimeInstant"@) matches Some(t)
        ==> spec_bool_of(t) is Some)
    &&& spec_signal_wf(e.children)
}

/// Decode one `ScalarVariable` element.
pub fn map_scalar_variable(e: &XmlElement) -> (r: Result<ScalarVariable, ModelDescriptionError>)
    ensures
        r matches Ok(sv) ==> spec_variable_of(elem_view(*e), sv),
        r is Ok <==> spec_variable_wf(elem_view(*e)),
        r matches Err(err) ==> err == ModelDescriptionError::BadValue,
{
    proof {
        assert(elem_view(*e).attributes == attrs_view(e.attributes@));
        assert(elem_view(*e).children == children_views(e.children@));
    }
    let name = match attr_of(e, "name") {
        Some(v) => chars_to_string(v.as_slice()),
        None => {
            return Err(ModelDescriptionError::BadValue);
        },
    };
    let value_reference = match attr_of(e, "valueReference") {
        Some(t) => match parse_u32_chars(t.as_slice()) {
            Some(x) => x,
            None => {
                return Err(ModelDescriptionError::BadValue);
            },
        },
        None => {
            return Err(ModelDescriptionError::BadValue);
        },
    };
    let description = attr_string(e, "description", "");
    let causality = match attr_of(e, "causality") {
        Some(t) => match parse_causality(t.as_slice()) {
            Some(c) => c,
            None => {
                return Err(ModelDescriptionError::BadValue);
            },
        },
        None => Causality::Local,
    };
    let variability = match attr_of(e, "variability") {
        Some(t) => match parse_variability(t.as_slice()) {
            Some(c) => c,
            None => {
                return Err(ModelDescriptionError::BadValue);
            },
        },
        None => Variability::Continuous,
    };
    let initial = match attr_of(e, "initial") {
        Some(t) => match parse_initial(t.as_slice()) {
            Some(c) => Some(c),
            None => {
                return Err(ModelDescriptionError::BadValue);
            },
        },
        None => None,
    };
    let can_handle_multiple_set_per_time_instant = match opt_bool_attr(
        e,
        "canHandleMultipleSetPerTimeInstant",
    ) {
        Ok(b) => b,
        Err(err) => {
            return Err(err);
        },
    };
    let signal_type = match map_signal_type(e) {
        Ok(st) => st,
        Err(err) => {
            return Err(err);
        },
    };
    Ok(
        ScalarVariable {
            name,
            value_reference,
            description,
            causality,
            variability,
            initial,
            can_handle_multiple_set_per_time_instant,
            signal_type,
        },
    )
}

/// The decoded registry corresponds, in order, to the `ScalarVariable`
/// children; other children contribute nothing.
pub open spec fn spec_variables_of(children: Seq<SpecXmlElement>, svs: Seq<ScalarVariable>) -> bool
    decreases children.len(),
{
    if children.len() == 0 {
        svs.len() == 0
    } else if children.last().name == "ScalarVariable"@ {
        &&& svs.len() > 0
        &&& spec_variable_of(children.last(), svs.last())
        &&& spec_variables_of(children.drop_last(), svs.drop_last())
    } else {
        spec_variables_of(children.drop_last(), svs)
    }
}

/// Every `ScalarVariable` child is decodable.
pub open spec fn spec_variables_wf(children: Seq<SpecXmlElement>) -> bool {
    forall|i: int|
        0 <= i < children.len() && (#[trigger] children[i].name) == "ScalarVariable"@
            ==> spec_variable_wf(children[i])
}

/// Decode the `ModelVariables` element into the registry, in manifest
/// order.
#[verifier::loop_isolation(false)]
pub fn map_model_variables(e: &XmlElement) -> (r: Result<ModelVariables, ModelDescriptionError>)
    ensures
        r matches Ok(mv) ==> spec_variables_of(children_views(e.children@), mv.scalar_variable@),
        r is Ok <==> spec_variables_wf(children_views(e.children@)),
        r matches Err(err) ==> err == ModelDescriptionError::BadValue,
{
    let mut out: Vec<ScalarVariable> = Vec::new();
    let mut i: usize = 0;
    while i < e.children.len()
        invariant
            0 <= i <= e.children@.len(),
            spec_variables_of(children_views(e.children@).subrange(0, i as int), out@),
            forall|j: int|
                0 <= j < i && (#[trigger] children_views(e.children@)[j].name)
                    == "ScalarVariable"@ ==> spec_variable_wf(children_views(e.children@)[j]),
        decreases e.children@.len() - i,
    {
        let c = &e.children[i];
        proof {
            assert(children_views(e.children@).subrange(0, i + 1).drop_last() =~= children_views(
                e.children@,
            ).subrange(0, i as int));
            assert(children_views(e.children@).subrange(0, i + 1).last() == children_views(
                e.children@,
            )[i as int]);
            assert(children_views(e.children@)[i as int] == elem_view(e.children@[i as int]));
            assert(children_views(e.children@)[i as int].name == e.children@[i as int].name@);
            assert(elem_view(e.children@[i as int]).attributes == attrs_view(
                e.children@[i as int].attributes@,
            ));
            assert(elem_view(e.children@[i as int]).children == children_views(
                e.children@[i as int].children@,
            ));
        }
        if chars_eq_str(c.name.as_slice(), "ScalarVariable") {
            let sv = match map_scalar_variable(c) {
                Ok(sv) => sv,
                Err(err) => {
                    return Err(err);
                },
            };
            let ghost prev = out@;
            out.push(sv);
            proof {
                assert(out@.drop_last() =~= prev);
            }
        }
        i += 1;
    }
    proof {
        assert(children_views(e.children@).subrange(
            0,
            children_views(e.children@).len() as int,
        ) =~= children_views(e.children@));
    }
    Ok(ModelVariables { scalar_variable: out })
}

/// A capability flag: absent means `false`, a present word must be in the
/// boolean vocabulary.
pub open spec fn spec_flag_of(attrs: Seq<SpecXmlAttribute>, name: Seq<char>) -> Option<bool> {
    match spec_attr(attrs, name) {
        None => Some(false),
        Some(t) => spec_bool_of(t),
    }
}

/// Decode a capability flag attribute, defaulting to `false`.
fn flag_attr(e: &XmlElement, name: &str) -> (r: Result<bool, ModelDescriptionError>)
    ensures
        r matches Ok(b) ==> spec_flag_of(attrs_view(e.attributes@), name@) == Some(b),
        r is Ok <==> spec_flag_of(attrs_view(e.attributes@), name@) is Some,
        r matches Err(err) ==> err == ModelDescriptionError::BadValue,
{
    match opt_bool_attr(e, name) {
        Ok(Some(b)) => Ok(b),
        Ok(None) => Ok(false),
        Err(err) => Err(err),
    }
}

/// The decoded file list corresponds, in order, to the `File` children.
pub open spec fn spec_files_of(children: Seq<SpecXmlElement>, files: Seq<FMIFile>) -> bool
    decreases children.len(),
{
    if children.len() == 0 {
        files.len() == 0
    } else if children.last().name == "File"@ {
        &&& files.len() > 0
        &&& files.last().name@ == spec_attr_or(children.last().attributes, "name"@, ""@)
        &&& spec_files_of(children.drop_last(), files.drop_last())
    } else {
        spec_files_of(children.drop_last(), files)
    }
}

/// Decode the `File` children of a `SourceFiles` element.
#[verifier::loop_isolation(false)]
fn map_files(e: &XmlElement) -> (r: FMISourceFiles)
    ensures
        spec_files_of(children_views(e.children@), r.file@),
{
    let mut out: Vec<FMIFile> = Vec::new();
    let mut i: usize = 0;
    while i < e.children.len()
        invariant
            0 <= i <= e.children@.len(),
            spec_files_of(children_views(e.children@).subrange(0, i as int), out@),
        decreases e.children@.len() - i,
    {
        let c = &e.children[i];
        proof {
            assert(children_views(e.children@).subrange(0, i + 1).drop_last() =~= children_views(
                e.children@,
            ).subrange(0, i as int));
            assert(children_views(e.children@).subrange(0, i + 1).last() == children_views(
                e.children@,
            )[i as int]);
            assert(children_views(e.children@)[i as int] == elem_view(e.children@[i as int]));
            assert(children_views(e.children@)[i as int].name == e.children@[i as int].name@);
            assert(elem_view(e.children@[i as int]).attributes == attrs_view(
                e.children@[i as int].attributes@,
            ));
            assert(elem_view(e.children@[i as int]).children == children_views(
                e.children@[i as int].children@,
            ));
        }
        if chars_eq_str(c.name.as_slice(), "File") {
            let name = attr_string(c, "name", "");
            let ghost prev = out@;
            out.push(FMIFile { name });
            proof {
                assert(out@.drop_last() =~= prev);
            }
        }
        i += 1;
    }
    proof {
        assert(children_views(e.children@).subrange(
            0,
            children_views(e.children@).len() as int,
        ) =~= children_views(e.children@));
    }
    FMISourceFiles { file: out }
}

/// The decoded source-file list of a capability block: empty where the
/// block has no `SourceFiles` child.
pub open spec fn spec_source_files_of(block: SpecXmlElement, sf: FMISourceFiles) -> bool {
    match spec_child(block.children, "SourceFiles"@) {
        None => sf.file@.len() == 0,
        Some(e) => spec_files_of(e.children, sf.file@),
    }
}

fn map_source_files(e: &XmlElement) -> (r: FMISourceFiles)
    ensures
        spec_source_files_of(elem_view(*e), r),
{
    proof {
        assert(elem_view(*e).attributes == attrs_view(e.attributes@));
        assert(elem_view(*e).children == children_views(e.children@));
    }
    match child_of(e, "SourceFiles") {
        Some(sf) => {
            proof {
                assert(elem_view(*sf).children == children_views(sf.children@));
            }
            map_files(sf)
        },
        None => FMISourceFiles { file: Vec::new() },
    }
}

/// The decoded category list corresponds, in order, to the `Category`
/// children.
pub open spec fn spec_categories_of(children: Seq<SpecXmlElement>, cats: Seq<Category>) -> bool
    decreases children.len(),
{
    if children.len() == 0 {
        cats.len() == 0
    } else if children.last().name == "Category"@ {
        &&& cats.len() > 0
        &&& cats.last().name@ == spec_attr_or(children.last().attributes, "name"@, ""@)
        &&& cats.last().description@ == spec_attr_or(
            children.last().attributes,
            "description"@,
            ""@,
        )
        &&& spec_categories_of(children.drop_last(), cats.drop_last())
    } else {
        spec_categories_of(children.drop_last(), cats)
    }
}

/// Decode the `Category` children of a `LogCategories` element.
#[verifier::loop_isolation(false)]
fn map_log_categories(e: &XmlElement) -> (r: LogCategories)
    ensures
        spec_categories_of(children_views(e.children@), r.category@),
{
    let mut out: Vec<Category> = Vec::new();
    let mut i: usize = 0;
    while i < e.children.len()
        invariant
            0 <= i <= e.children@.len(),
            spec_categories_of(children_views(e.children@).subrange(0, i as int), out@),
        decreases e.children@.len() - i,
    {
        let c = &e.children[i];
        proof {
            assert(children_views(e.children@).subrange(0, i + 1).drop_last() =~= children_views(
                e.children@,
            ).subrange(0, i as int));
            assert(children_views(e.children@).subrange(0, i + 1).last() == children_views(
                e.children@,
            )[i as int]);
            assert(children_views(e.children@)[i as int] == elem_view(e.children@[i as int]));
            assert(children_views(e.children@)[i as int].name == e.children@[i as int].name@);
            assert(elem_view(e.children@[i as int]).attributes == attrs_view(
                e.children@[i as int].attributes@,
            ));
            assert(elem_view(e.children@[i as int]).children == children_views(
                e.children@[i as int].children@,
            ));
        }
        if chars_eq_str(c.name.as_slice(), "Category") {
            let name = attr_string(c, "name", "");
            let description = attr_string(c, "description", "");
            let ghost prev = out@;
            out.push(Category { name, description });
            proof {
                assert(out@.drop_last() =~= prev);
            }
        }
        i += 1;
    }
    proof {
        assert(children_views(e.children@).subrange(
            0,
            children_views(e.children@).len() as int,
        ) =~= children_views(e.children@));
    }
    LogCategories { category: out }
}

/// Decode an optional signed integer attribute that must fit in `i32`.
fn opt_i32_attr(e: &XmlElement, name: &str) -> (r: Result<Option<i32>, ModelDescriptionError>)
    ensures
        match r {
            Ok(b) => match spec_attr(attrs_view(e.attributes@), name@) {
                None => b is None,
                Some(t) => b matches Some(x) && x == spec_signed_val(t),
            },
            Err(err) => true,
        },
        r is Ok <==> (spec_attr(attrs_view(e.attributes@), name@) matches Some(t)
            ==> spec_signed_wf(t) && i32::MIN <= spec_signed_val(t) <= i32::MAX),
        r matches Err(err) ==> err == ModelDescriptionError::BadValue,
{
    match attr_of(e, name) {
        Some(t) => match parse_i64_chars(t.as_slice()) {
            Some(x) => {
                if i32::MIN as i64 <= x && x <= i32::MAX as i64 {
                    Ok(Some(x as i32))
                } else {
                    Err(ModelDescriptionError::BadValue)
                }
            },
            None => Err(ModelDescriptionError::BadValue),
        },
        None => Ok(None),
    }
}

/// The decoded base unit corresponds to the `BaseUnit` element.
pub open spec fn spec_base_unit_of(e: SpecXmlElement, b: BaseUnit) -> bool {
    &&& (match spec_attr(e.attributes, "kg"@) {
        None => b.kg is None,
        Some(t) => b.kg matches Some(x) && x == spec_signed_val(t),
    })
    &&& (match spec_attr(e.attributes, "m"@) {
        None => b.m is None,
        Some(t) => b.m matches Some(x) && x == spec_signed_val(t),
    })
    &&& (match spec_attr(e.attributes, "s"@) {
        None => b.s is None,
        Some(t) => b.s matches Some(x) && x == spec_signed_val(t),
    })
    &&& (match spec_attr(e.attributes, "A"@) {
        None => b.ampere is None,
        Some(t) => b.ampere matches Some(x) && x == spec_signed_val(t),
    })
    &&& (match spec_attr(e.attributes, "K"@) {
        None => b.kelvin is None,
        Some(t) => b.kelvin matches Some(x) && x == spec_signed_val(t),
    })
    &&& (match spec_attr(e.attributes, "mol"@) {
        None => b.mol is None,
        Some(t) => b.mol matches Some(x) && x == spec_signed_val(t),
    })
    &&& (match spec_attr(e.attributes, "cd"@) {
        None => b.cd is None,
        Some(t) => b.cd matches Some(x) && x == spec_signed_val(t),
    })
    &&& (match spec_attr(e.attributes, "rad"@) {
        None => b.rad is None,
        Some(t) => b.rad matches Some(x) && x == spec_signed_val(t),
    })
    &&& (match spec_attr(e.attributes, "factor"@) {
        None => b.factor is None,
        Some(t) => b.factor matches Some(s) && s@ == t,
    })
    &&& (match spec_attr(e.attributes, "offset"@) {
        None => b.offset is None,
        Some(t) => b.offset matches Some(s) && s@ == t,
    })
}

/// Every exponent attribute of a `BaseUnit` element is a signed decimal
/// number in `i32` range.
pub open spec fn spec_base_unit_wf(e: SpecXmlElement) -> bool {
    forall|n: Seq<char>|
        (n == "kg"@ || n == "m"@ || n == "s"@ || n == "A"@ || n == "K"@ || n == "mol"@ || n
            == "cd"@ || n == "rad"@) ==> (#[trigger] spec_attr(e.attributes, n) matches Some(t)
            ==> spec_signed_wf(t) && i32::MIN <= spec_signed_val(t) <= i32::MAX)
}

fn map_base_unit(e: &XmlElement) -> (r: Result<BaseUnit, ModelDescriptionError>)
    ensures
        r matches Ok(b) ==> spec_base_unit_of(elem_view(*e), b),
        r is Ok <==> spec_base_unit_wf(elem_view(*e)),
        r matches Err(err) ==> err == ModelDescriptionError::BadValue,
{
    proof {
        assert(elem_view(*e).attributes == attrs_view(e.attributes@));
        assert(elem_view(*e).children == children_views(e.children@));
    }
    let kg = match opt_i32_attr(e, "kg") {
        Ok(v) => v,
        Err(err) => {
            return Err(err);
        },
    };
    let m = match opt_i32_attr(e, "m") {
        Ok(v) => v,
        Err(err) => {
            return Err(err);
        },
    };
    let s = match opt_i32_attr(e, "s") {
        Ok(v) => v,
        Err(err) => {
            return Err(err);
        },
    };
    let ampere = match opt_i32_attr(e, "A") {
        Ok(v) => v,
        Err(err) => {
            return Err(err);
        },
    };
    let kelvin = match opt_i32_attr(e, "K") {
        Ok(v) => v,
        Err(err) => {
            return Err(err);
        },
    };
    let mol = match opt_i32_attr(e, "mol") {
        Ok(v) => v,
        Err(err) => {
            return Err(err);
        },
    };
    let cd = match opt_i32_attr(e, "cd") {
        Ok(v) => v,
        Err(err) => {
            return Err(err);
        },
    };
    let rad = match opt_i32_attr(e, "rad") {
        Ok(v) => v,
        Err(err) => {
            return Err(err);
        },
    };
    let factor = opt_string_attr(e, "factor");
    let offset = opt_string_attr(e, "offset");
    Ok(BaseUnit { kg, m, s, ampere, kelvin, mol, cd, rad, factor, offset })
}

/// The decoded display-unit list corresponds, in order, to the
/// `DisplayUnit` children.
pub open spec fn spec_display_units_of(children: Seq<SpecXmlElement>, dus: Seq<DisplayUnit>) -> bool
    decreases children.len(),
{
    if children.len() == 0 {
        dus.len() == 0
    } else if children.last().name == "DisplayUnit"@ {
        &&& dus.len() > 0
        &&& dus.last().name@ == spec_attr_or(children.last().attributes, "name"@, ""@)
        &&& (match spec_attr(children.last().attributes, "factor"@) {
            None => dus.last().factor is None,
            Some(t) => dus.last().factor matches Some(s) && s@ == t,
        })
        &&& (match spec_attr(children.last().attributes, "offset"@) {
            None => dus.last().offset is None,
            Some(t) => dus.last().offset matches Some(s) && s@ == t,
        })
        &&& spec_display_units_of(children.drop_last(), dus.drop_last())
    } else {
        spec_display_units_of(children.drop_last(), dus)
    }
}

#[verifier::loop_isolation(false)]
fn map_display_units(e: &XmlElement) -> (r: Vec<DisplayUnit>)
    ensures
        spec_display_units_of(children_views(e.children@), r@),
{
    let mut out: Vec<DisplayUnit> = Vec::new();
    let mut i: usize = 0;
    while i < e.children.len()
        invariant
            0 <= i <= e.children@.len(),
            spec_display_units_of(children_views(e.children@).subrange(0, i as int), out@),
        decreases e.children@.len() - i,
    {
        let c = &e.children[i];
        proof {
            assert(children_views(e.children@).subrange(0, i + 1).drop_last() =~= children_views(
                e.children@,
            ).subrange(0, i as int));
            assert(children_views(e.children@).subrange(0, i + 1).last() == children_views(
                e.children@,
            )[i as int]);
            assert(children_views(e.children@)[i as int] == elem_view(e.children@[i as int]));
            assert(children_views(e.children@)[i as int].name == e.children@[i as int].name@);
            assert(elem_view(e.children@[i as int]).attributes == attrs_view(
                e.children@[i as int].attributes@,
            ));
            assert(elem_view(e.children@[i as int]).children == children_views(
                e.children@[i as int].children@,
            ));
        }
        if chars_eq_str(c.name.as_slice(), "DisplayUnit") {
            let name = attr_string(c, "name", "");
            let factor = opt_string_attr(c, "factor");
            let offset = opt_string_attr(c, "offset");
            let ghost prev = out@;
            out.push(DisplayUnit { name, factor, offset });
            proof {
                assert(out@.drop_last() =~= prev);
            }
        }
        i += 1;
    }
    proof {
        assert(children_views(e.children@).subrange(
            0,
            children_views(e.children@).len() as int,
        ) =~= children_views(e.children@));
    }
    out
}

/// The decoded unit corresponds to the `Unit` element.
pub open spec fn spec_unit_of(e: SpecXmlElement, u: Unit) -> bool {
    &&& u.name@ == spec_attr_or(e.attributes, "name"@, ""@)
    &&& (match spec_child(e.children, "BaseUnit"@) {
        None => u.base_unit is None,
        Some(b) => u.base_unit matches Some(bu) && spec_base_unit_of(b, bu),
    })
    &&& spec_display_units_of(e.children, u.display_unit@)
}

/// The `Unit` element is decodable.
pub open spec fn spec_unit_wf(e: SpecXmlElement) -> bool {
    spec_child(e.children, "BaseUnit"@) matches Some(b) ==> spec_base_unit_wf(b)
}

fn map_unit(e: &XmlElement) -> (r: Result<Unit, ModelDescriptionError>)
    ensures
        r matches Ok(u) ==> spec_unit_of(elem_view(*e), u),
        r is Ok <==> spec_unit_wf(elem_view(*e)),
        r matches Err(err) ==> err == ModelDescriptionError::BadValue,
{
    proof {
        assert(elem_view(*e).attributes == attrs_view(e.attributes@));
        assert(elem_view(*e).children == children_views(e.children@));
    }
    let name = attr_string(e, "name", "");
    let base_unit = match child_of(e, "BaseUnit") {
        Some(b) => match map_base_unit(b) {
            Ok(bu) => Some(bu),
            Err(err) => {
                return Err(err);
            },
        },
        None => None,
    };
    let display_unit = map_display_units(e);
    Ok(Unit { name, base_unit, display_unit })
}

/// The decoded unit list corresponds, in order, to the `Unit` children.
pub open spec fn spec_units_of(children: Seq<SpecXmlElement>, units: Seq<Unit>) -> bool
    decreases children.len(),
{
    if children.len() == 0 {
        units.len() == 0
    } else if children.last().name == "Unit"@ {
        &&& units.len() > 0
        &&& spec_unit_of(children.last(), units.last())
        &&& spec_units_of(children.drop_last(), units.drop_last())
    } else {
        spec_units_of(children.drop_last(), units)
    }
}

/// Every `Unit` child is decodable.
pub open spec fn spec_units_wf(children: Seq<SpecXmlElement>) -> bool {
    forall|i: int|
        0 <= i < children.len() && (#[trigger] children[i].name) == "Unit"@ ==> spec_unit_wf(
            children[i],
        )
}

#[verifier::loop_isolation(false)]
fn map_unit_definitions(e: &XmlElement) -> (r: Result<UnitDefinitions, ModelDescriptionError>)
    ensures
        r matches Ok(u) ==> spec_units_of(children_views(e.children@), u.unit@),
        r is Ok <==> spec_units_wf(children_views(e.children@)),
        r matches Err(err) ==> err == ModelDescriptionError::BadValue,
{
    let mut out: Vec<Unit> = Vec::new();
    let mut i: usize = 0;
    while i < e.children.len()
        invariant
            0 <= i <= e.children@.len(),
            spec_units_of(children_views(e.children@).subrange(0, i as int), out@),
            forall|j: int|
                0 <= j < i && (#[trigger] children_views(e.children@)[j].name) == "Unit"@
                    ==> spec_unit_wf(children_views(e.children@)[j]),
        decreases e.children@.len() - i,
    {
        let c = &e.children[i];
        proof {
            assert(children_views(e.children@).subrange(0, i + 1).drop_last() =~= children_views(
                e.children@,
            ).subrange(0, i as int));
            assert(children_views(e.children@).subrange(0, i + 1).last() == children_views(
                e.children@,
            )[i as int]);
            assert(children_views(e.children@)[i as int] == elem_view(e.children@[i as int]));
            assert(children_views(e.children@)[i as int].name == e.children@[i as int].name@);
            assert(elem_view(e.children@[i as int]).attributes == attrs_view(
                e.children@[i as int].attributes@,
            ));
            assert(elem_view(e.children@[i as int]).children == children_views(
                e.children@[i as int].children@,
            ));
        }
        if chars_eq_str(c.name.as_slice(), "Unit") {
            let u = match map_unit(c) {
                Ok(u) => u,
                Err(err) => {
                    return Err(err);
                },
            };
            let ghost prev = out@;
            out.push(u);
            proof {
                assert(out@.drop_last() =~= prev);
            }
        }
        i += 1;
    }
    proof {
        assert(children_views(e.children@).subrange(
            0,
            children_views(e.children@).len() as int,
        ) =~= children_views(e.children@));
    }
    Ok(UnitDefinitions { unit: out })
}

/// The decoded default experiment corresponds to the `DefaultExperiment`
/// element; every field is manifest text.
pub open spec fn spec_default_experiment_of(e: SpecXmlElement, d: DefaultExperiment) -> bool {
    &&& (match spec_attr(e.attributes, "startTime"@) {
        None => d.start_time is None,
        Some(t) => d.start_time matches Some(s) && s@ == t,
    })
    &&& (match spec_attr(e.attributes, "stopTime"@) {
        None => d.stop_time is None,
        Some(t) => d.stop_time matches Some(s) && s@ == t,
    })
    &&& (match spec_attr(e.attributes, "tolerance"@) {
        None => d.tolerance is None,
        Some(t) => d.tolerance matches Some(s) && s@ == t,
    })
    &&& (match spec_attr(e.attributes, "stepSize"@) {
        None => d.step_size is None,
        Some(t) => d.step_size matches Some(s) && s@ == t,
    })
}

fn map_default_experiment(e: &XmlElement) -> (r: DefaultExperiment)
    ensures
        spec_default_experiment_of(elem_view(*e), r),
{
    proof {
        assert(elem_view(*e).attributes == attrs_view(e.attributes@));
        assert(elem_view(*e).children == children_views(e.children@));
    }
    let start_time = opt_string_attr(e, "startTime");
    let stop_time = opt_string_attr(e, "stopTime");
    let tolerance = opt_string_attr(e, "tolerance");
    let step_size = opt_string_attr(e, "stepSize");
    DefaultExperiment { start_time, stop_time, tolerance, step_size }
}

/// The decoded co-simulation block corresponds to the `CoSimulation`
/// element.
pub open spec fn spec_cosim_of(e: SpecXmlElement, c: CoSimulation) -> bool {
    &&& spec_source_files_of(e, c.source_files)
    &&& c.model_identifier@ == spec_attr_or(e.attributes, "modelIdentifier"@, ""@)
    &&& spec_flag_of(e.attributes, "needsExecutionTool"@) == Some(c.needs_execution_tool)
    &&& spec_flag_of(e.attributes, "canHandleVariableCommunicationStepSize"@) == Some(
        c.can_handle_variable_communication_step_size,
    )
    &&& spec_flag_of(e.attributes, "canInterpolateInputs"@) == Some(c.can_interpolate_inputs)
    &&& spec_flag_of(e.attributes, "maxOutputDerivativeOrder"@) == Some(
        c.max_output_derivative_order,
    )
    &&& spec_flag_of(e.attributes, "canRunAsynchronuously"@) == Some(c.can_run_asynchronuously)
    &&& spec_flag_of(e.attributes, "canBeInstantiatedOnlyOncePerProcess"@) == Some(
        c.can_be_instantiated_only_once_per_process,
    )
    &&& spec_flag_of(e.attributes, "canNotUseMemoryManagementFunctions"@) == Some(
        c.can_not_use_memory_management_functions,
    )
    &&& spec_flag_of(e.attributes, "canGetAndSetFMUstate"@) == Some(c.can_get_and_set_fmustate)
    &&& spec_flag_of(e.attributes, "canSerializeFMUstate"@) == Some(c.can_serialize_fmustate)
    &&& spec_flag_of(e.attributes, "providesDirectionalDerivative"@) == Some(
        c.provides_directional_derivative,
    )
}

/// Every capability flag of the `CoSimulation` element is decodable.
pub open spec fn spec_cosim_wf(e: SpecXmlElement) -> bool {
    &&& spec_flag_of(e.attributes, "needsExecutionTool"@) is Some
    &&& spec_flag_of(e.attributes, "canHandleVariableCommunicationStepSize"@) is Some
    &&& spec_flag_of(e.attributes, "canInterpolateInputs"@) is Some
    &&& spec_flag_of(e.attributes, "maxOutputDerivativeOrder"@) is Some
    &&& spec_flag_of(e.attributes, "canRunAsynchronuously"@) is Some
    &&& spec_flag_of(e.attributes, "canBeInstantiatedOnlyOncePerProcess"@) is Some
    &&& spec_flag_of(e.attributes, "canNotUseMemoryManagementFunctions"@) is Some
    &&& spec_flag_of(e.attributes, "canGetAndSetFMUstate"@) is Some
    &&& spec_flag_of(e.attributes, "canSerializeFMUstate"@) is Some
    &&& spec_flag_of(e.attributes, "providesDirectionalDerivative"@) is Some
}

fn map_co_simulation(e: &XmlElement) -> (r: Result<CoSimulation, ModelDescriptionError>)
    ensures
        r matches Ok(c) ==> spec_cosim_of(elem_view(*e), c),
        r is Ok <==> spec_cosim_wf(elem_view(*e)),
        r matches Err(err) ==> err == ModelDescriptionError::BadValue,
{
    proof {
        assert(elem_view(*e).attributes == attrs_view(e.attributes@));
        assert(elem_view(*e).children == children_views(e.children@));
    }
    let source_files = map_source_files(e);
    let model_identifier = attr_string(e, "modelIdentifier", "");
    let needs_execution_tool = match flag_attr(e, "needsExecutionTool") {
        Ok(b) => b,
        Err(err) => {
            return Err(err);
        },
    };
    let can_handle_variable_communication_step_size = match flag_attr(
        e,
        "canHandleVariableCommunicationStepSize",
    ) {
        Ok(b) => b,
        Err(err) => {
            return Err(err);
        },
    };
    let can_interpolate_inputs = match flag_attr(e, "canInterpolateInputs") {
        Ok(b) => b,
        Err(err) => {
            return Err(err);
        },
    };
    let max_output_derivative_order = match flag_attr(e, "maxOutputDerivativeOrder") {
        Ok(b) => b,
        Err(err) => {
            return Err(err);
        },
    };
    let can_run_asynchronuously = match flag_attr(e, "canRunAsynchronuously") {
        Ok(b) => b,
        Err(err) => {
            return Err(err);
        },
    };
    let can_be_instantiated_only_once_per_process = match flag_attr(
        e,
        "canBeInstantiatedOnlyOncePerProcess",
    ) {
        Ok(b) => b,
        Err(err) => {
            return Err(err);
        },
    };
    let can_not_use_memory_management_functions = match flag_attr(
        e,
        "canNotUseMemoryManagementFunctions",
    ) {
        Ok(b) => b,
        Err(err) => {
            return Err(err);
        },
    };
    let can_get_and_set_fmustate = match flag_attr(e, "canGetAndSetFMUstate") {
        Ok(b) => b,
        Err(err) => {
            return Err(err);
        },
    };
    let can_serialize_fmustate = match flag_attr(e, "canSerializeFMUstate") {
        Ok(b) => b,
        Err(err) => {
            return Err(err);
        },
    };
    let provides_directional_derivative = match flag_attr(e, "providesDirectionalDerivative") {
        Ok(b) => b,
        Err(err) => {
            return Err(err);
        },
    };
    Ok(
        CoSimulation {
            source_files,
            model_identifier,
            needs_execution_tool,
            can_handle_variable_communication_step_size,
            can_interpolate_inputs,
            max_output_derivative_order,
            can_run_asynchronuously,
            can_be_instantiated_only_once_per_process,
            can_not_use_memory_management_functions,
            can_get_and_set_fmustate,
            can_serialize_fmustate,
            provides_directional_derivative,
        },
    )
}

/// The decoded model-exchange block corresponds to the `ModelExchange`
/// element.
pub open spec fn spec_model_exchange_of(e: SpecXmlElement, c: ModelExchange) -> bool {
    &&& spec_source_files_of(e, c.source_files)
    &&& c.model_identifier@ == spec_attr_or(e.attributes, "modelIdentifier"@, ""@)
    &&& spec_flag_of(e.attributes, "needsExecutionTool"@) == Some(c.needs_execution_tool)
    &&& spec_flag_of(e.attributes, "completedIntegratorStepNotNeeded"@) == Some(
        c.completed_integrator_step_not_needed,
    )
    &&& spec_flag_of(e.attributes, "canBeInstantiatedOnlyOncePerProcess"@) == Some(
        c.can_be_instantiated_only_once_per_process,
    )
    &&& spec_flag_of(e.attributes, "canNotUseMemoryManagementFunctions"@) == Some(
        c.can_not_use_memory_management_functions,
    )
    &&& spec_flag_of(e.attributes, "canGetAndSetFMUstate"@) == Some(c.can_get_and_set_fmustate)
    &&& spec_flag_of(e.attributes, "canSerializeFMUstate"@) == Some(c.can_serialize_fmustate)
    &&& spec_flag_of(e.attributes, "providesDirectionalDerivative"@) == Some(
        c.provides_directional_derivative,
    )
}

/// Every capability flag of the `ModelExchange` element is decodable.
pub open spec fn spec_model_exchange_wf(e: SpecXmlElement) -> bool {
    &&& spec_flag_of(e.attributes, "needsExecutionTool"@) is Some
    &&& spec_flag_of(e.attributes, "completedIntegratorStepNotNeeded"@) is Some
    &&& spec_flag_of(e.attributes, "canBeInstantiatedOnlyOncePerProcess"@) is Some
    &&& spec_flag_of(e.attributes, "canNotUseMemoryManagementFunctions"@) is Some
    &&& spec_flag_of(e.attributes, "canGetAndSetFMUstate"@) is Some
    &&& spec_flag_of(e.attributes, "canSerializeFMUstate"@) is Some
    &&& spec_flag_of(e.attributes, "providesDirectionalDerivative"@) is Some
}

fn map_model_exchange(e: &XmlElement) -> (r: Result<ModelExchange, ModelDescriptionError>)
    ensures
        r matches Ok(c) ==> spec_model_exchange_of(elem_view(*e), c),
        r is Ok <==> spec_model_exchange_wf(elem_view(*e)),
        r matches Err(err) ==> err == ModelDescriptionError::BadValue,
{
    proof {
        assert(elem_view(*e).attributes == attrs_view(e.attributes@));
        assert(elem_view(*e).children == children_views(e.children@));
    }
    let source_files = map_source_files(e);
    let model_identifier = attr_string(e, "modelIdentifier", "");
    let needs_execution_tool = match flag_attr(e, "needsExecutionTool") {
        Ok(b) => b,
        Err(err) => {
            return Err(err);
        },
    };
    let completed_integrator_step_not_needed = match flag_attr(
        e,
        "completedIntegratorStepNotNeeded",
    ) {
        Ok(b) => b,
        Err(err) => {
            return Err(err);
        },
    };
    let can_be_instantiated_only_once_per_process = match flag_attr(
        e,
        "canBeInstantiatedOnlyOncePerProcess",
    ) {
        Ok(b) => b,
        Err(err) => {
            return Err(err);
        },
    };
    let can_not_use_memory_management_functions = match flag_attr(
        e,
        "canNotUseMemoryManagementFunctions",
    ) {
        Ok(b) => b,
        Err(err) => {
            return Err(err);
        },
    };
    let can_get_and_set_fmustate = match flag_attr(e, "canGetAndSetFMUstate") {
        Ok(b) => b,
        Err(err) => {
            return Err(err);
        },
    };
    let can_serialize_fmustate = match flag_attr(e, "canSerializeFMUstate") {
        Ok(b) => b,
        Err(err) => {
            return Err(err);
        },
    };
    let provides_directional_derivative = match flag_attr(e, "providesDirectionalDerivative") {
        Ok(b) => b,
        Err(err) => {
            return Err(err);
        },
    };
    Ok(
        ModelExchange {
            source_files,
            model_identifier,
            needs_execution_tool,
            completed_integrator_step_not_needed,
            can_be_instantiated_only_once_per_process,
            can_not_use_memory_management_functions,
            can_get_and_set_fmustate,
            can_serialize_fmustate,
            provides_directional_derivative,
        },
    )
}

/// The decoded manifest corresponds to the root element: each block to
/// its child element, each identity attribute to the root's attribute,
/// with an empty string where an identity attribute is absent.
pub open spec fn spec_description_of(root: SpecXmlElement, md: FmiModelDescription) -> bool {
    &&& (match spec_child(root.children, "CoSimulation"@) {
        None => md.co_simulation is None,
        Some(e) => md.co_simulation matches Some(c) && spec_cosim_of(e, c),
    })
    &&& (match spec_child(root.children, "ModelExchange"@) {
        None => md.model_exchange is None,
        Some(e) => md.model_exchange matches Some(c) && spec_model_exchange_of(e, c),
    })
    &&& (match spec_child(root.children, "ModelVariables"@) {
        None => md.model_variables.scalar_variable@.len() == 0,
        Some(e) => spec_variables_of(e.children, md.model_variables.scalar_variable@),
    })
    &&& (match spec_child(root.children, "UnitDefinitions"@) {
        None => md.unit_definitions is None,
        Some(e) => md.unit_definitions matches Some(u) && spec_units_of(e.children, u.unit@),
    })
    &&& (match spec_child(root.children, "LogCategories"@) {
        None => md.log_categories is None,
        Some(e) => md.log_categories matches Some(lc) && spec_categories_of(
            e.children,
            lc.category@,
        ),
    })
    &&& (match spec_child(root.children, "DefaultExperiment"@) {
        None => md.default_experiment is None,
        Some(e) => md.default_experiment matches Some(d) && spec_default_experiment_of(e, d),
    })
    &&& md.fmi_version@ == spec_attr_or(root.attributes, "fmiVersion"@, ""@)
    &&& md.model_name@ == spec_attr_or(root.attributes, "modelName"@, ""@)
    &&& md.guid@ == spec_attr_or(root.attributes, "guid"@, ""@)
    &&& md.description@ == spec_attr_or(root.attributes, "description"@, ""@)
    &&& md.author@ == spec_attr_or(root.attributes, "author"@, ""@)
    &&& md.version@ == spec_attr_or(root.attributes, "version"@, ""@)
    &&& md.copyright@ == spec_attr_or(root.attributes, "copyright"@, ""@)
    &&& md.license@ == spec_attr_or(root.attributes, "license"@, ""@)
    &&& md.generation_tool@ == spec_attr_or(root.attributes, "generationTool"@, ""@)
    &&& md.generation_date_and_time@ == spec_attr_or(
        root.attributes,
        "generationDateAndTime"@,
        ""@,
    )
    &&& md.variable_naming_convention@ == spec_attr_or(
        root.attributes,
        "variableNamingConvention"@,
        ""@,
    )
    &&& md.number_of_event_indicators@ == spec_attr_or(
        root.attributes,
        "numberOfEventIndicators"@,
        ""@,
    )
}

/// The root element is decodable.
pub open spec fn spec_description_wf(root: SpecXmlElement) -> bool {
    &&& (spec_child(root.children, "CoSimulation"@) matches Some(e) ==> spec_cosim_wf(e))
    &&& (spec_child(root.children, "ModelExchange"@) matches Some(e) ==> spec_model_exchange_wf(
        e,
    ))
    &&& (spec_child(root.children, "ModelVariables"@) matches Some(e) ==> spec_variables_wf(
        e.children,
    ))
    &&& (spec_child(root.children, "UnitDefinitions"@) matches Some(e) ==> spec_units_wf(
        e.children,
    ))
}

/// Decode the root element of a manifest.
pub fn map_model_description(root: &XmlElement) -> (r: Result<
    FmiModelDescription,
    ModelDescriptionError,
>)
    ensures
        r matches Ok(md) ==> spec_description_of(elem_view(*root), md),
        r is Ok <==> spec_description_wf(elem_view(*root)),
        r matches Err(err) ==> err == ModelDescriptionError::BadValue,
{
    proof {
        assert(elem_view(*root).attributes == attrs_view(root.attributes@));
        assert(elem_view(*root).children == children_views(root.children@));
    }
    let co_simulation = match child_of(root, "CoSimulation") {
        Some(e) => match {
            proof {
                assert(elem_view(*e).attributes == attrs_view(e.attributes@));
                assert(elem_view(*e).children == children_views(e.children@));
            }
            map_co_simulation(e)
        } {
            Ok(c) => Some(c),
            Err(err) => {
                return Err(err);
            },
        },
        None => None,
    };
    let model_exchange = match child_of(root, "ModelExchange") {
        Some(e) => match {
            proof {
                assert(elem_view(*e).attributes == attrs_view(e.attributes@));
                assert(elem_view(*e).children == children_views(e.children@));
            }
            map_model_exchange(e)
        } {
            Ok(c) => Some(c),
            Err(err) => {
                return Err(err);
            },
        },
        None => None,
    };
    let model_variables = match child_of(root, "ModelVariables") {
        Some(e) => match {
            proof {
                assert(elem_view(*e).children == children_views(e.children@));
            }
            map_model_variables(e)
        } {
            Ok(mv) => mv,
            Err(err) => {
                return Err(err);
            },
        },
        None => ModelVariables { scalar_variable: Vec::new() },
    };
    let unit_definitions = match child_of(root, "UnitDefinitions") {
        Some(e) => match {
            proof {
                assert(elem_view(*e).children == children_views(e.children@));
            }
            map_unit_definitions(e)
        } {
            Ok(u) => Some(u),
            Err(err) => {
                return Err(err);
            },
        },
        None => None,
    };
    let log_categories = match child_of(root, "LogCategories") {
        Some(e) => {
            proof {
                assert(elem_view(*e).children == children_views(e.children@));
            }
            Some(map_log_categories(e))
        },
        None => None,
    };
    let default_experiment = match child_of(root, "DefaultExperiment") {
        Some(e) => {
            proof {
                assert(elem_view(*e).attributes == attrs_view(e.attributes@));
            }
            Some(map_default_experiment(e))
        },
        None => None,
    };
    Ok(
        FmiModelDescription {
            co_simulation,
            model_exchange,
            model_variables,
            unit_definitions,
            log_categories,
            default_experiment,
            fmi_version: attr_string(root, "fmiVersion", ""),
            model_name: attr_string(root, "modelName", ""),
            guid: attr_string(root, "guid", ""),
            description: attr_string(root, "description", ""),
            author: attr_string(root, "author", ""),
            version: attr_string(root, "version", ""),
            copyright: attr_string(root, "copyright", ""),
            license: attr_string(root, "license", ""),
            generation_tool: attr_string(root, "generationTool", ""),
            generation_date_and_time: attr_string(root, "generationDateAndTime", ""),
            variable_naming_convention: attr_string(root, "variableNamingConvention", ""),
            number_of_event_indicators: attr_string(root, "numberOfEventIndicators", ""),
        },
    )
}

impl FmiModelDescription {
    /// Decode a manifest from its document text. Succeeds exactly when
    /// the text is a well-formed document of the supported XML subset
    /// ([`spec_document`]) whose root element is decodable
    /// ([`spec_description_wf`]), and the result then corresponds to the
    /// root element field by field ([`spec_description_of`]). A document
    /// the grammar rejects is reported as an XML failure; a well-formed
    /// document with a missing or out-of-vocabulary value is reported as
    /// a value failure.
    pub fn new(xml: &str) -> (r: Result<FmiModelDescription, ModelDescriptionError>)
        ensures
            match r {
                Ok(md) => spec_document(xml@) matches Some(root) && spec_description_of(root, md)
                    && spec_description_wf(root),
                Err(e) => match e {
                    ModelDescriptionError::Xml(err) => spec_document(xml@) is None,
                    ModelDescriptionError::BadValue => spec_document(xml@) matches Some(root)
                        && !spec_description_wf(root),
                },
            },
    {
        let doc = str_to_chars(xml);
        let root = match parse_document(doc.as_slice()) {
            Ok(root) => root,
            Err(err) => {
                return Err(ModelDescriptionError::Xml(err));
            },
        };
        map_model_description(&root)
    }
}

impl ModelVariables {
    /// Look up a variable by name. Where several variables share one name,
    /// the last declared wins, as a registry keyed by name would behave
    /// when filled in manifest order.
    pub fn get(&self, name: &str) -> (r: Option<&ScalarVariable>)
        ensures
            match r {
                Some(sv) => exists|i: int|
                    {
                        &&& 0 <= i < self.scalar_variable@.len()
                        &&& sv == &self.scalar_variable@[i]
                        &&& (#[trigger] self.scalar_variable@[i].name@) == name@
                        &&& (forall|j: int|
                            i < j < self.scalar_variable@.len()
                                ==> (#[trigger] self.scalar_variable@[j].name@) != name@)
                    },
                None => forall|i: int|
                    0 <= i < self.scalar_variable@.len()
                        ==> (#[trigger] self.scalar_variable@[i].name@) != name@,
            },
    {
        let mut i: usize = self.scalar_variable.len();
        while i > 0
            invariant
                0 <= i <= self.scalar_variable@.len(),
                forall|j: int|
                    i <= j < self.scalar_variable@.len()
                        ==> (#[trigger] self.scalar_variable@[j].name@) != name@,
            decreases i,
        {
            i -= 1;
            if crate::text::str_eq(self.scalar_variable[i].name.as_str(), name) {
                return Some(&self.scalar_variable[i]);
            }
        }
        None
    }
}

} // verus!
