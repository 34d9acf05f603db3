//! The dynamic filter schema model: parameter definitions with types,
//! bounds and defaults, method choices, and per-job value sets. Loading
//! schemas from disk is the caller's task; the model and its checks are
//! pure.

use vstd::prelude::*;
use vstd::string::StringSliceAdditionalSpecFns;
use crate::numfmt::Decimal;
use crate::text::{bytes_eq, clone_bytes};

verus! {

/// Type of a parameter value.
#[derive(Clone, Copy, PartialEq, Eq, Structural, Debug)]
pub enum ParameterType {
    Boolean,
    Integer,
    Number,
    Text,
    Enum,
}

/// Type of widget a parameter renders as.
#[derive(Clone, Copy, PartialEq, Eq, Structural, Debug)]
pub enum WidgetType {
    Slider,
    Dropdown,
    Checkbox,
    Textfield,
    Number,
}

/// A dynamic parameter value: the plain shapes a schema value takes.
#[derive(Debug)]
pub enum ParameterValue {
    Null,
    Bool(bool),
    Int(i64),
    Num(Decimal),
    Text(Vec<u8>),
    List(Vec<ParameterValue>),
}

/// Whether a whole value scales into the fixed-point range.
pub open spec fn spec_int_scaled_fits(v: i64) -> bool {
    i64::MIN <= v * 10000 <= i64::MAX
}

/// Equivalence of two values by contents.
pub open spec fn pv_eqv(a: ParameterValue, b: ParameterValue) -> bool
    decreases a,
{
    match (a, b) {
        (ParameterValue::Null, ParameterValue::Null) => true,
        (ParameterValue::Bool(x), ParameterValue::Bool(y)) => x == y,
        (ParameterValue::Int(x), ParameterValue::Int(y)) => x == y,
        (ParameterValue::Num(x), ParameterValue::Num(y)) => x == y,
        (ParameterValue::Text(x), ParameterValue::Text(y)) => x@ == y@,
        (ParameterValue::List(x), ParameterValue::List(y)) => x@.len() == y@.len() && (forall|
            i: int,
        |
            0 <= i < x@.len() ==> pv_eqv(#[trigger] x@[i], y@[i])),
        _ => false,
    }
}

impl Clone for ParameterValue {
    /// An equivalent copy.
    fn clone(&self) -> (r: Self)
        ensures
            pv_eqv(r, *self),
        decreases *self,
    {
        match self {
            ParameterValue::Null => ParameterValue::Null,
            ParameterValue::Bool(b) => ParameterValue::Bool(*b),
            ParameterValue::Int(i) => ParameterValue::Int(*i),
            ParameterValue::Num(d) => ParameterValue::Num(*d),
            ParameterValue::Text(t) => ParameterValue::Text(clone_bytes(t)),
            ParameterValue::List(items) => {
                let mut out: Vec<ParameterValue> = Vec::new();
                let n = items.len();
                let mut k: usize = 0;
                while k < n
                    invariant
                        0 <= k <= n,
                        n == items@.len(),
                        out@.len() == k,
                        *self == ParameterValue::List(*items),
                        forall|i: int| 0 <= i < k ==> pv_eqv(#[trigger] out@[i], items@[i]),
                    decreases n - k,
                {
                    proof {
                        assert(decreases_to!(*self => self->List_0));
                        assert(decreases_to!(self->List_0 => self->List_0@));
                        assert(decreases_to!(self->List_0@ => self->List_0@[k as int]));
                        assert(decreases_to!(*self => self->List_0@[k as int]));
                        assert(items@[k as int] == self->List_0@[k as int]);
                    }
                    out.push(items[k].clone());
                    k = k + 1;
                }
                ParameterValue::List(out)
            },
        }
    }
}

/// The scripting-environment name of a parameter, where it differs from
/// the schema name.
#[derive(Debug)]
pub struct VapourSynthConfig {
    /// The parameter's name in the scripting environment.
    pub name: Vec<u8>,
}

/// Presentation settings of one parameter.
#[derive(Debug)]
pub struct ParameterUiConfig {
    /// Display label.
    pub label: Option<Vec<u8>>,
    /// Description or tooltip.
    pub description: Option<Vec<u8>>,
    /// Widget kind.
    pub widget: Option<WidgetType>,
    /// Decimal display precision.
    pub precision: Option<i32>,
    /// Whether the parameter is hidden.
    pub hidden: Option<bool>,
}

/// One parameter of a filter schema.
#[derive(Debug)]
pub struct ParameterDefinition {
    /// The parameter's type.
    pub param_type: ParameterType,
    /// Its default value.
    pub default_value: ParameterValue,
    /// Lower bound for the numeric types.
    pub min: Option<Decimal>,
    /// Upper bound for the numeric types.
    pub max: Option<Decimal>,
    /// Slider step.
    pub step: Option<Decimal>,
    /// The choices of an enumerated parameter.
    pub options: Option<Vec<Vec<u8>>>,
    /// Scripting-environment naming.
    pub vapoursynth: Option<VapourSynthConfig>,
    /// Presentation settings.
    pub ui: Option<ParameterUiConfig>,
}

/// Whether a list of byte strings holds one equal to `s`.
pub open spec fn spec_contains_bytes(opts: Seq<Vec<u8>>, s: Seq<u8>) -> bool {
    exists|i: int| 0 <= i < opts.len() && opts[i]@ == s
}

fn contains_bytes(opts: &Vec<Vec<u8>>, s: &[u8]) -> (r: bool)
    ensures
        r == spec_contains_bytes(opts@, s@),
{
    let n = opts.len();
    let mut k: usize = 0;
    while k < n
        invariant
            0 <= k <= n,
            n == opts@.len(),
            forall|i: int| 0 <= i < k ==> opts@[i]@ != s@,
        decreases n - k,
    {
        if bytes_eq(opts[k].as_slice(), s) {
            return true;
        }
        k = k + 1;
    }
    false
}

/// Whether a value fits a definition: the types match, a numeric value
/// lies within the bounds, and an enumerated value is among the
/// options, or any when none are listed. A null value always fits.
pub open spec fn spec_is_valid_value(def: ParameterDefinition, value: ParameterValue) -> bool {
    match (def.param_type, value) {
        (ParameterType::Boolean, ParameterValue::Bool(_)) => true,
        (ParameterType::Integer, ParameterValue::Int(v)) => {
            &&& (match def.min {
                Some(m) => v * 10000 >= m.scaled,
                None => true,
            })
            &&& (match def.max {
                Some(m) => v * 10000 <= m.scaled,
                None => true,
            })
        },
        (ParameterType::Number, ParameterValue::Num(d)) => {
            &&& (match def.min {
                Some(m) => d.scaled >= m.scaled,
                None => true,
            })
            &&& (match def.max {
                Some(m) => d.scaled <= m.scaled,
                None => true,
            })
        },
        (ParameterType::Number, ParameterValue::Int(v)) => {
            &&& (match def.min {
                Some(m) => v * 10000 >= m.scaled,
                None => true,
            })
            &&& (match def.max {
                Some(m) => v * 10000 <= m.scaled,
                None => true,
            })
        },
        (ParameterType::Text, ParameterValue::Text(_)) => true,
        (ParameterType::Enum, ParameterValue::Text(s)) => match def.options {
            Some(opts) => spec_contains_bytes(opts@, s@),
            None => true,
        },
        (_, ParameterValue::Null) => true,
        _ => false,
    }
}

impl ParameterDefinition {
    /// The name the scripting environment uses: the configured one, or
    /// the schema name itself.
    pub fn get_vs_name(&self, param_name: &[u8]) -> (r: Vec<u8>)
        ensures
            r@ == match self.vapoursynth {
                Some(ref c) => c.name@,
                None => param_name@,
            },
    {
        match &self.vapoursynth {
            Some(c) => clone_bytes(&c.name),
            None => {
                let mut out: Vec<u8> = Vec::new();
                crate::text::append_all(&mut out, param_name);
                proof {
                    assert(out@ =~= param_name@);
                }
                out
            },
        }
    }

    /// Whether a value fits this definition, as `spec_is_valid_value`
    /// describes.
    pub fn is_valid_value(&self, value: &ParameterValue) -> (r: bool)
        ensures
            r == spec_is_valid_value(*self, *value),
    {
        match (&self.param_type, value) {
            (ParameterType::Boolean, ParameterValue::Bool(_)) => true,
            (ParameterType::Integer, ParameterValue::Int(v)) => {
                self.int_within_bounds(*v)
            },
            (ParameterType::Number, ParameterValue::Num(d)) => {
                let lo = match self.min {
                    Some(m) => d.scaled >= m.scaled,
                    None => true,
                };
                let hi = match self.max {
                    Some(m) => d.scaled <= m.scaled,
                    None => true,
                };
                lo && hi
            },
            (ParameterType::Number, ParameterValue::Int(v)) => {
                self.int_within_bounds(*v)
            },
            (ParameterType::Text, ParameterValue::Text(_)) => true,
            (ParameterType::Enum, ParameterValue::Text(s)) => match &self.options {
                Some(opts) => contains_bytes(opts, s.as_slice()),
                None => true,
            },
            (_, ParameterValue::Null) => true,
            _ => false,
        }
    }

    /// Whether a whole value lies within the bounds, compared at the
    /// bounds' resolution.
    fn int_within_bounds(&self, v: i64) -> (r: bool)
        ensures
            r == ((match self.min {
                Some(m) => v * 10000 >= m.scaled,
                None => true,
            }) && (match self.max {
                Some(m) => v * 10000 <= m.scaled,
                None => true,
            })),
    {
        let scaled = (v as i128) * 10000;
        let lo = match self.min {
            Some(m) => scaled >= m.scaled as i128,
            None => true,
        };
        let hi = match self.max {
            Some(m) => scaled <= m.scaled as i128,
            None => true,
        };
        lo && hi
    }
}

/// One filter method: an algorithm choice with its own parameter list.
#[derive(Debug)]
pub struct MethodDefinition {
    /// Unique identifier of the method.
    pub id: Vec<u8>,
    /// Display name.
    pub name: Vec<u8>,
    /// Description of the method.
    pub description: Option<Vec<u8>>,
    /// The scripting function the method calls.
    pub function: Vec<u8>,
    /// The parameter names the method uses, in call order.
    pub parameters: Vec<Vec<u8>>,
}

/// A titled group of parameters in the presentation layout.
#[derive(Debug)]
pub struct UiSection {
    /// Section title.
    pub title: Vec<u8>,
    /// Parameter names in the section.
    pub parameters: Vec<Vec<u8>>,
    /// Whether the section starts expanded.
    pub expanded: bool,
    /// Whether the section shows only in advanced mode.
    pub advanced_only: bool,
}

/// The presentation layout of a filter's parameters.
#[derive(Debug)]
pub struct UiLayout {
    /// The layout's sections.
    pub sections: Option<Vec<UiSection>>,
}

/// What a filter needs installed.
#[derive(Debug)]
pub struct FilterDependencies {
    /// Script packages required.
    pub plugins: Option<Vec<Vec<u8>>>,
    /// Frame engine plugins required.
    pub vs_plugins: Option<Vec<Vec<u8>>>,
    /// Optional plugins that enable extra features.
    pub optional: Option<Vec<Vec<u8>>>,
}

/// How a filter's code is generated.
#[derive(Debug)]
pub struct CodeTemplate {
    /// Import statements needed.
    pub imports: Option<Vec<Vec<u8>>>,
    /// Generation mode name.
    pub generate: Option<Vec<u8>>,
    /// Custom code body template.
    pub body: Option<Vec<u8>>,
}

/// One named parameter definition of a schema.
#[derive(Debug)]
pub struct ParameterEntry {
    /// The parameter's name.
    pub name: Vec<u8>,
    /// Its definition.
    pub definition: ParameterDefinition,
}

/// One named value of a dynamic parameter set.
#[derive(Debug)]
pub struct ValueEntry {
    /// The parameter's name.
    pub name: Vec<u8>,
    /// Its value.
    pub value: ParameterValue,
}

/// A complete filter schema.
#[derive(Debug)]
pub struct FilterSchema {
    /// Unique identifier of the filter.
    pub id: Vec<u8>,
    /// Schema version.
    pub version: Vec<u8>,
    /// Display name.
    pub name: Vec<u8>,
    /// Description of the filter.
    pub description: Option<Vec<u8>>,
    /// Category for grouping.
    pub category: Option<Vec<u8>>,
    /// Sort order in the filter list.
    pub order: i32,
    /// What the filter needs installed.
    pub dependencies: Option<FilterDependencies>,
    /// The filter's method choices.
    pub methods: Vec<MethodDefinition>,
    /// The filter's parameters.
    pub parameters: Vec<ParameterEntry>,
    /// Presentation layout.
    pub ui: Option<UiLayout>,
    /// Code generation configuration.
    pub code_template: Option<CodeTemplate>,
}

/// Index of the first method with the given identifier; -1 when there
/// is none.
pub open spec fn spec_find_method(methods: Seq<MethodDefinition>, id: Seq<u8>, from: int) -> int
    decreases methods.len() - from,
{
    if from < 0 || from >= methods.len() {
        -1
    } else if methods[from].id@ == id {
        from
    } else {
        spec_find_method(methods, id, from + 1)
    }
}

/// Index of the first parameter entry with the given name; -1 when
/// there is none.
pub open spec fn spec_find_param(entries: Seq<ParameterEntry>, name: Seq<u8>, from: int) -> int
    decreases entries.len() - from,
{
    if from < 0 || from >= entries.len() {
        -1
    } else if entries[from].name@ == name {
        from
    } else {
        spec_find_param(entries, name, from + 1)
    }
}

/// Index of the first value entry with the given name; -1 when there is
/// none.
pub open spec fn spec_find_value(entries: Seq<ValueEntry>, name: Seq<u8>, from: int) -> int
    decreases entries.len() - from,
{
    if from < 0 || from >= entries.len() {
        -1
    } else if entries[from].name@ == name {
        from
    } else {
        spec_find_value(entries, name, from + 1)
    }
}

impl FilterSchema {
    /// The first method, the default choice.
    pub fn default_method(&self) -> (r: Option<&MethodDefinition>)
        ensures
            match r {
                Some(m) => self.methods@.len() > 0 && *m == self.methods@[0],
                None => self.methods@.len() == 0,
            },
    {
        if self.methods.len() == 0 {
            None
        } else {
            Some(&self.methods[0])
        }
    }

    /// The first method with the given identifier.
    pub fn get_method(&self, id: &[u8]) -> (r: Option<&MethodDefinition>)
        ensures
            ({
                let i = spec_find_method(self.methods@, id@, 0);
                match r {
                    Some(m) => i >= 0 && *m == self.methods@[i],
                    None => i == -1,
                }
            }),
    {
        let n = self.methods.len();
        let mut k: usize = 0;
        while k < n
            invariant
                0 <= k <= n,
                n == self.methods@.len(),
                forall|i: int| 0 <= i < k ==> self.methods@[i].id@ != id@,
            decreases n - k,
        {
            if bytes_eq(self.methods[k].id.as_slice(), id) {
                proof {
                    lemma_find_method_found(self.methods@, id@, 0, k as int);
                }
                return Some(&self.methods[k]);
            }
            k = k + 1;
        }
        proof {
            lemma_find_method_none(self.methods@, id@, 0);
        }
        None
    }

    /// Every parameter's default value, in schema order.
    pub fn get_defaults(&self) -> (r: Vec<ValueEntry>)
        ensures
            r@.len() == self.parameters@.len(),
            forall|i: int|
                0 <= i < r@.len() ==> #[trigger] r@[i].name@ == self.parameters@[i].name@ && pv_eqv(
                    r@[i].value,
                    self.parameters@[i].definition.default_value,
                ),
    {
        let mut out: Vec<ValueEntry> = Vec::new();
        let n = self.parameters.len();
        let mut k: usize = 0;
        while k < n
            invariant
                0 <= k <= n,
                n == self.parameters@.len(),
                out@.len() == k,
                forall|i: int|
                    0 <= i < k ==> #[trigger] out@[i].name@ == self.parameters@[i].name@ && pv_eqv(
                        out@[i].value,
                        self.parameters@[i].definition.default_value,
                    ),
            decreases n - k,
        {
            let entry = &self.parameters[k];
            out.push(
                ValueEntry {
                    name: clone_bytes(&entry.name),
                    value: entry.definition.default_value.clone(),
                },
            );
            k = k + 1;
        }
        out
    }
}

proof fn lemma_find_method_found(methods: Seq<MethodDefinition>, id: Seq<u8>, from: int, i: int)
    requires
        0 <= from <= i < methods.len(),
        methods[i].id@ == id,
        forall|j: int| from <= j < i ==> methods[j].id@ != id,
    ensures
        spec_find_method(methods, id, from) == i,
    decreases i - from,
{
    if from < i {
        lemma_find_method_found(methods, id, from + 1, i);
    }
}

proof fn lemma_find_method_none(methods: Seq<MethodDefinition>, id: Seq<u8>, from: int)
    requires
        0 <= from,
        forall|j: int| from <= j < methods.len() ==> methods[j].id@ != id,
    ensures
        spec_find_method(methods, id, from) == -1,
    decreases methods.len() - from,
{
    if from < methods.len() {
        lemma_find_method_none(methods, id, from + 1);
    }
}

/// The dynamic parameter values of one filter in one job.
#[derive(Debug)]
pub struct DynamicParameters {
    /// The filter the values belong to.
    pub filter_id: Vec<u8>,
    /// Whether the filter runs.
    pub enabled: bool,
    /// The values, by parameter name.
    pub values: Vec<ValueEntry>,
}

impl DynamicParameters {
    /// Values filled from a schema's defaults.
    pub fn from_schema(schema: &FilterSchema, enabled: bool) -> (r: Self)
        ensures
            r.filter_id@ == schema.id@,
            r.enabled == enabled,
            r.values@.len() == schema.parameters@.len(),
            forall|i: int|
                0 <= i < r.values@.len() ==> #[trigger] r.values@[i].name@
                    == schema.parameters@[i].name@ && pv_eqv(
                    r.values@[i].value,
                    schema.parameters@[i].definition.default_value,
                ),
    {
        DynamicParameters {
            filter_id: clone_bytes(&schema.id),
            enabled,
            values: schema.get_defaults(),
        }
    }

    /// The first value stored under the name.
    pub fn get(&self, key: &[u8]) -> (r: Option<&ParameterValue>)
        ensures
            ({
                let i = spec_find_value(self.values@, key@, 0);
                match r {
                    Some(v) => i >= 0 && *v == self.values@[i].value,
                    None => i == -1,
                }
            }),
    {
        let n = self.values.len();
        let mut k: usize = 0;
        while k < n
            invariant
                0 <= k <= n,
                n == self.values@.len(),
                forall|i: int| 0 <= i < k ==> self.values@[i].name@ != key@,
            decreases n - k,
        {
            if bytes_eq(self.values[k].name.as_slice(), key) {
                proof {
                    lemma_find_value_found(self.values@, key@, 0, k as int);
                }
                return Some(&self.values[k].value);
            }
            k = k + 1;
        }
        proof {
            lemma_find_value_none(self.values@, key@, 0);
        }
        None
    }

    /// The boolean stored under the name, when one is.
    pub fn get_bool(&self, key: &[u8]) -> (r: Option<bool>)
        ensures
            ({
                let i = spec_find_value(self.values@, key@, 0);
                match r {
                    Some(b) => i >= 0 && self.values@[i].value == ParameterValue::Bool(b),
                    None => i == -1 || !(self.values@[i].value is Bool),
                }
            }),
    {
        match self.get(key) {
            Some(ParameterValue::Bool(b)) => Some(*b),
            _ => None,
        }
    }

    /// The whole number stored under the name, when one is.
    pub fn get_int(&self, key: &[u8]) -> (r: Option<i64>)
        ensures
            ({
                let i = spec_find_value(self.values@, key@, 0);
                match r {
                    Some(v) => i >= 0 && self.values@[i].value == ParameterValue::Int(v),
                    None => i == -1 || !(self.values@[i].value is Int),
                }
            }),
    {
        match self.get(key) {
            Some(ParameterValue::Int(v)) => Some(*v),
            _ => None,
        }
    }

    /// The numeric value stored under the name, whole or fractional,
    /// when one is; a whole value too large for the fixed-point range
    /// counts as absent.
    pub fn get_float(&self, key: &[u8]) -> (r: Option<Decimal>)
        ensures
            ({
                let i = spec_find_value(self.values@, key@, 0);
                match r {
                    Some(d) => i >= 0 && (self.values@[i].value == ParameterValue::Num(d) || (
                    self.values@[i].value matches ParameterValue::Int(v) && spec_int_scaled_fits(v)
                        && d.scaled == v * 10000)),
                    None => i == -1 || (match self.values@[i].value {
                        ParameterValue::Num(_) => false,
                        ParameterValue::Int(v) => !spec_int_scaled_fits(v),
                        _ => true,
                    }),
                }
            }),
    {
        match self.get(key) {
            Some(ParameterValue::Num(d)) => Some(*d),
            Some(ParameterValue::Int(v)) => {
                let wide = (*v as i128) * 10000;
                if wide >= i64::MIN as i128 && wide <= i64::MAX as i128 {
                    Some(Decimal { scaled: (wide as i64) })
                } else {
                    None
                }
            },
            _ => None,
        }
    }

    /// The byte string stored under the name, when one is.
    pub fn get_string(&self, key: &[u8]) -> (r: Option<&Vec<u8>>)
        ensures
            ({
                let i = spec_find_value(self.values@, key@, 0);
                match r {
                    Some(s) => i >= 0 && (self.values@[i].value matches ParameterValue::Text(t)
                        && t@ == s@),
                    None => i == -1 || !(self.values@[i].value is Text),
                }
            }),
    {
        match self.get(key) {
            Some(ParameterValue::Text(t)) => Some(t),
            _ => None,
        }
    }

    /// The selected method's identifier, when one is stored.
    pub fn method(&self) -> (r: Option<&Vec<u8>>)
        ensures
            ({
                let i = spec_find_value(self.values@, "method".spec_bytes(), 0);
                match r {
                    Some(s) => i >= 0 && (self.values@[i].value matches ParameterValue::Text(t)
                        && t@ == s@),
                    None => i == -1 || !(self.values@[i].value is Text),
                }
            }),
    {
        self.get_string("method".as_bytes())
    }
}

proof fn lemma_find_value_found(entries: Seq<ValueEntry>, name: Seq<u8>, from: int, i: int)
    requires
        0 <= from <= i < entries.len(),
        entries[i].name@ == name,
        forall|j: int| from <= j < i ==> entries[j].name@ != name,
    ensures
        spec_find_value(entries, name, from) == i,
    decreases i - from,
{
    if from < i {
        lemma_find_value_found(entries, name, from + 1, i);
    }
}

proof fn lemma_find_value_none(entries: Seq<ValueEntry>, name: Seq<u8>, from: int)
    requires
        0 <= from,
        forall|j: int| from <= j < entries.len() ==> entries[j].name@ != name,
    ensures
        spec_find_value(entries, name, from) == -1,
    decreases entries.len() - from,
{
    if from < entries.len() {
        lemma_find_value_none(entries, name, from + 1);
    }
}

/// One filter's dynamic values within a job's pipeline.
#[derive(Debug)]
pub struct PipelineEntry {
    /// The filter's identifier.
    pub filter_id: Vec<u8>,
    /// Its values.
    pub parameters: DynamicParameters,
}

/// All dynamic filter values of one job.
#[derive(Debug)]
pub struct DynamicPipeline {
    /// The filters, by identifier.
    pub filters: Vec<PipelineEntry>,
}

/// The identifiers of the enabled filters, in stored order.
pub open spec fn spec_enabled_ids(entries: Seq<PipelineEntry>) -> Seq<Seq<u8>>
    decreases entries.len(),
{
    if entries.len() == 0 {
        Seq::empty()
    } else {
        let rest = spec_enabled_ids(entries.drop_last());
        if entries.last().parameters.enabled {
            rest + seq![entries.last().filter_id@]
        } else {
            rest
        }
    }
}

/// Index of the first pipeline entry with the given identifier; -1 when
/// there is none.
pub open spec fn spec_find_filter(entries: Seq<PipelineEntry>, id: Seq<u8>, from: int) -> int
    decreases entries.len() - from,
{
    if from < 0 || from >= entries.len() {
        -1
    } else if entries[from].filter_id@ == id {
        from
    } else {
        spec_find_filter(entries, id, from + 1)
    }
}

impl DynamicPipeline {
    /// The values of the named filter.
    pub fn get(&self, filter_id: &[u8]) -> (r: Option<&DynamicParameters>)
        ensures
            ({
                let i = spec_find_filter(self.filters@, filter_id@, 0);
                match r {
                    Some(p) => i >= 0 && *p == self.filters@[i].parameters,
                    None => i == -1,
                }
            }),
    {
        let n = self.filters.len();
        let mut k: usize = 0;
        while k < n
            invariant
                0 <= k <= n,
                n == self.filters@.len(),
                forall|i: int| 0 <= i < k ==> self.filters@[i].filter_id@ != filter_id@,
            decreases n - k,
        {
            if bytes_eq(self.filters[k].filter_id.as_slice(), filter_id) {
                proof {
                    lemma_find_filter_found(self.filters@, filter_id@, 0, k as int);
                }
                return Some(&self.filters[k].parameters);
            }
            k = k + 1;
        }
        proof {
            lemma_find_filter_none(self.filters@, filter_id@, 0);
        }
        None
    }

    /// Whether the named filter is present and enabled.
    pub fn is_enabled(&self, filter_id: &[u8]) -> (r: bool)
        ensures
            ({
                let i = spec_find_filter(self.filters@, filter_id@, 0);
                r == (i >= 0 && self.filters@[i].parameters.enabled)
            }),
    {
        match self.get(filter_id) {
            Some(p) => p.enabled,
            None => false,
        }
    }

    /// The identifiers of the enabled filters, in stored order.
    pub fn enabled_filter_ids(&self) -> (r: Vec<Vec<u8>>)
        ensures
            crate::pipeline_executor::views_of(r@) == spec_enabled_ids(self.filters@),
    {
        let mut out: Vec<Vec<u8>> = Vec::new();
        let n = self.filters.len();
        let mut k: usize = 0;
        while k < n
            invariant
                0 <= k <= n,
                n == self.filters@.len(),
                crate::pipeline_executor::views_of(out@) == spec_enabled_ids(
                    self.filters@.take(k as int),
                ),
            decreases n - k,
        {
            proof {
                assert(self.filters@.take(k + 1).drop_last() =~= self.filters@.take(k as int));
                assert(self.filters@.take(k + 1).last() == self.filters@[k as int]);
            }
            if self.filters[k].parameters.enabled {
                let ghost before = crate::pipeline_executor::views_of(out@);
                out.push(clone_bytes(&self.filters[k].filter_id));
                proof {
                    assert(crate::pipeline_executor::views_of(out@) =~= before + seq![
                        self.filters@[k as int].filter_id@,
                    ]);
                }
            }
            k = k + 1;
        }
        proof {
            assert(self.filters@.take(n as int) =~= self.filters@);
        }
        out
    }
}

proof fn lemma_find_filter_found(entries: Seq<PipelineEntry>, id: Seq<u8>, from: int, i: int)
    requires
        0 <= from <= i < entries.len(),
        entries[i].filter_id@ == id,
        forall|j: int| from <= j < i ==> entries[j].filter_id@ != id,
    ensures
        spec_find_filter(entries, id, from) == i,
    decreases i - from,
{
    if from < i {
        lemma_find_filter_found(entries, id, from + 1, i);
    }
}

proof fn lemma_find_filter_none(entries: Seq<PipelineEntry>, id: Seq<u8>, from: int)
    requires
        0 <= from,
        forall|j: int| from <= j < entries.len() ==> entries[j].filter_id@ != id,
    ensures
        spec_find_filter(entries, id, from) == -1,
    decreases entries.len() - from,
{
    if from < entries.len() {
        lemma_find_filter_none(entries, id, from + 1);
    }
}


/// The schemas kept by a registry after removing any with the given
/// identifier, in kept order.
pub open spec fn spec_without_id(schemas: Seq<FilterSchema>, id: Seq<u8>) -> Seq<FilterSchema>
    decreases schemas.len(),
{
    if schemas.len() == 0 {
        Seq::empty()
    } else {
        let rest = spec_without_id(schemas.drop_last(), id);
        if schemas.last().id@ == id {
            rest
        } else {
            rest + seq![schemas.last()]
        }
    }
}

/// Index of the first schema with the given identifier; -1 when there
/// is none.
pub open spec fn spec_find_schema(schemas: Seq<FilterSchema>, id: Seq<u8>, from: int) -> int
    decreases schemas.len() - from,
{
    if from < 0 || from >= schemas.len() {
        -1
    } else if schemas[from].id@ == id {
        from
    } else {
        spec_find_schema(schemas, id, from + 1)
    }
}

/// The registry of known filter schemas, in load order, one per
/// identifier. Loading schemas from disk is the caller's task; it
/// hands each loaded schema to `register`.
#[derive(Debug)]
pub struct FilterRegistry {
    /// The registered schemas, in load order.
    pub filters: Vec<FilterSchema>,
}

impl FilterRegistry {
    /// An empty registry.
    pub fn new() -> (r: Self)
        ensures
            r.filters@.len() == 0,
    {
        FilterRegistry { filters: Vec::new() }
    }

    /// Registers a schema: any earlier schema with the same identifier
    /// is dropped, and the new one joins the end of the load order.
    pub fn register(&mut self, schema: FilterSchema)
        ensures
            final(self).filters@ == spec_without_id(old(self).filters@, schema.id@) + seq![schema],
    {
        let ghost initial = self.filters@;
        let mut kept: Vec<FilterSchema> = Vec::new();
        proof {
            assert(initial.take(0) =~= Seq::<FilterSchema>::empty());
            assert(kept@ =~= spec_without_id(initial.take(0), schema.id@));
        }
        let ghost consumed: int = 0;
        while self.filters.len() > 0
            invariant
                0 <= consumed <= initial.len(),
                self.filters@ =~= initial.skip(consumed),
                kept@ == spec_without_id(initial.take(consumed), schema.id@),
            decreases self.filters@.len(),
        {
            proof {
                assert(initial.take(consumed + 1).drop_last() =~= initial.take(consumed));
                assert(initial.take(consumed + 1).last() == initial[consumed]);
                assert(self.filters@[0] == initial[consumed]);
            }
            let entry = self.filters.remove(0);
            let keep = !bytes_eq(entry.id.as_slice(), schema.id.as_slice());
            if keep {
                kept.push(entry);
            }
            proof {
                consumed = consumed + 1;
                assert(self.filters@ =~= initial.skip(consumed));
            }
        }
        proof {
            assert(initial.take(consumed) =~= initial);
        }
        kept.push(schema);
        self.filters = kept;
    }

    /// The first schema with the given identifier.
    pub fn get(&self, id: &[u8]) -> (r: Option<&FilterSchema>)
        ensures
            ({
                let i = spec_find_schema(self.filters@, id@, 0);
                match r {
                    Some(s) => i >= 0 && *s == self.filters@[i],
                    None => i == -1,
                }
            }),
    {
        let n = self.filters.len();
        let mut k: usize = 0;
        while k < n
            invariant
                0 <= k <= n,
                n == self.filters@.len(),
                forall|i: int| 0 <= i < k ==> self.filters@[i].id@ != id@,
            decreases n - k,
        {
            if bytes_eq(self.filters[k].id.as_slice(), id) {
                proof {
                    lemma_find_schema_found(self.filters@, id@, 0, k as int);
                }
                return Some(&self.filters[k]);
            }
            k = k + 1;
        }
        proof {
            lemma_find_schema_none(self.filters@, id@, 0);
        }
        None
    }

    /// Whether a schema with the given identifier is registered.
    pub fn has(&self, id: &[u8]) -> (r: bool)
        ensures
            r == (spec_find_schema(self.filters@, id@, 0) >= 0),
    {
        match self.get(id) {
            Some(_) => true,
            None => false,
        }
    }
}

proof fn lemma_find_schema_found(schemas: Seq<FilterSchema>, id: Seq<u8>, from: int, i: int)
    requires
        0 <= from <= i < schemas.len(),
        schemas[i].id@ == id,
        forall|j: int| from <= j < i ==> schemas[j].id@ != id,
    ensures
        spec_find_schema(schemas, id, from) == i,
    decreases i - from,
{
    if from < i {
        lemma_find_schema_found(schemas, id, from + 1, i);
    }
}

proof fn lemma_find_schema_none(schemas: Seq<FilterSchema>, id: Seq<u8>, from: int)
    requires
        0 <= from,
        forall|j: int| from <= j < schemas.len() ==> schemas[j].id@ != id,
    ensures
        spec_find_schema(schemas, id, from) == -1,
    decreases schemas.len() - from,
{
    if from < schemas.len() {
        lemma_find_schema_none(schemas, id, from + 1);
    }
}

} // verus!
