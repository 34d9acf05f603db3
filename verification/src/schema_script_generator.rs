//! Script generation from filter schemas: one filter call per enabled
//! filter, built from the selected method and its formatted parameter
//! values, or a custom code template with the values substituted.

use vstd::prelude::*;
use vstd::string::StringSliceAdditionalSpecFns;
use crate::filter_schema::{
    spec_find_method, spec_find_param, spec_find_value, DynamicParameters, FilterSchema,
    MethodDefinition, ParameterEntry, ParameterType, ParameterValue, ValueEntry,
};
use crate::numfmt::{spec_decimal_bytes, spec_int_bytes, i64_to_bytes, Decimal, DIGIT_ZERO, DOT};
use crate::pipeline_executor::views_of;
use crate::script_generator::{
    bool_token, lemma_named_tags_nonempty, spec_bool_bytes, spec_placeholder,
};
use crate::text::{append_all, bytes_eq, clone_bytes, replace_all, replace_all_exec};

verus! {

pub const QUOTE: u8 = 34;

pub const ESCAPE: u8 = 92;

/// A byte string as a quoted script string literal, backslashes and
/// quotes escaped.
pub open spec fn spec_quoted_text(s: Seq<u8>) -> Seq<u8> {
    seq![QUOTE] + replace_all(
        replace_all(s, seq![ESCAPE], seq![ESCAPE, ESCAPE]),
        seq![QUOTE],
        seq![ESCAPE, QUOTE],
    ) + seq![QUOTE]
}

/// A value formatted for the scripting environment, under its declared
/// type: booleans as the capitalized tokens, whole numbers plain,
/// fractional numbers with trimmed digits, number-typed whole values
/// with one zero digit, strings quoted and escaped, absent values as
/// the interpreter's none-token, and lists element-wise as strings.
pub open spec fn spec_format_value(v: ParameterValue, ty: ParameterType) -> Seq<u8>
    decreases v, 1int,
{
    match v {
        ParameterValue::Bool(b) => spec_bool_bytes(b),
        ParameterValue::Int(i) => match ty {
            ParameterType::Integer => spec_int_bytes(i as int),
            ParameterType::Number => spec_int_bytes(i as int) + seq![DOT, DIGIT_ZERO],
            _ => spec_int_bytes(i as int),
        },
        ParameterValue::Num(d) => match ty {
            ParameterType::Integer => spec_int_bytes(0),
            ParameterType::Number => spec_decimal_bytes(d.scaled as int),
            _ => if d.scaled % 10000 == 0 {
                spec_int_bytes(d.scaled as int / 10000)
            } else {
                spec_decimal_bytes(d.scaled as int)
            },
        },
        ParameterValue::Text(s) => spec_quoted_text(s@),
        ParameterValue::Null => "None".spec_bytes(),
        ParameterValue::List(items) => "[".spec_bytes() + spec_list_items(items@)
            + "]".spec_bytes(),
    }
}

/// List elements formatted as strings, comma-joined.
pub open spec fn spec_list_items(items: Seq<ParameterValue>) -> Seq<u8>
    decreases items, 0int,
{
    if items.len() == 0 {
        Seq::empty()
    } else if items.len() == 1 {
        spec_format_value(items[0], ParameterType::Text)
    } else {
        spec_format_value(items[0], ParameterType::Text) + ", ".spec_bytes() + spec_list_items(
            items.skip(1),
        )
    }
}

/// Formats a value for the scripting environment, as
/// `spec_format_value` describes.
pub fn format_value(v: &ParameterValue, ty: ParameterType) -> (r: Vec<u8>)
    ensures
        r@ == spec_format_value(*v, ty),
    decreases *v, 1int,
{
    match v {
        ParameterValue::Bool(b) => bool_token(*b),
        ParameterValue::Int(i) => match ty {
            ParameterType::Number => {
                let mut out = i64_to_bytes(*i);
                out.push(DOT);
                out.push(DIGIT_ZERO);
                proof {
                    assert(out@ =~= spec_int_bytes(*i as int) + seq![DOT, DIGIT_ZERO]);
                }
                out
            },
            _ => i64_to_bytes(*i),
        },
        ParameterValue::Num(d) => match ty {
            ParameterType::Integer => i64_to_bytes(0),
            ParameterType::Number => d.render(),
            _ => {
                if d.scaled % 10000 == 0 {
                    let whole = whole_part(*d);
                    i64_to_bytes(whole)
                } else {
                    d.render()
                }
            },
        },
        ParameterValue::Text(s) => {
            let esc: [u8; 1] = [ESCAPE];
            let escesc: [u8; 2] = [ESCAPE, ESCAPE];
            let quote: [u8; 1] = [QUOTE];
            let escquote: [u8; 2] = [ESCAPE, QUOTE];
            proof {
                assert(esc@ =~= seq![ESCAPE]);
                assert(escesc@ =~= seq![ESCAPE, ESCAPE]);
                assert(quote@ =~= seq![QUOTE]);
                assert(escquote@ =~= seq![ESCAPE, QUOTE]);
            }
            let r1 = replace_all_exec(s.as_slice(), &esc, &escesc);
            let r2 = replace_all_exec(r1.as_slice(), &quote, &escquote);
            let mut out: Vec<u8> = Vec::new();
            out.push(QUOTE);
            append_all(&mut out, r2.as_slice());
            out.push(QUOTE);
            proof {
                assert(out@ =~= spec_quoted_text(s@));
            }
            out
        },
        ParameterValue::Null => {
            vstd::string::StrSliceExecFns::as_bytes_vec("None")
        },
        ParameterValue::List(items) => {
            let mut out: Vec<u8> = Vec::new();
            append_all(&mut out, "[".as_bytes());
            let n = items.len();
            proof {
                assert(items@.skip(0) =~= items@);
                assert(out@ =~= "[".spec_bytes());
            }
            let mut k: usize = 0;
            while k < n
                invariant
                    0 <= k <= n,
                    n == items@.len(),
                    *v == ParameterValue::List(*items),
                    "[".spec_bytes() + spec_list_items(items@) + "]".spec_bytes() == out@
                        + spec_list_items(items@.skip(k as int)) + "]".spec_bytes(),
                decreases n - k,
            {
                proof {
                    assert(decreases_to!(*v => v->List_0));
                    assert(decreases_to!(v->List_0 => v->List_0@));
                    assert(decreases_to!(v->List_0@ => v->List_0@[k as int]));
                    assert(decreases_to!(*v => v->List_0@[k as int]));
                    assert(items@[k as int] == v->List_0@[k as int]);
                    assert(items@.skip(k as int)[0] == items@[k as int]);
                    assert(items@.skip(k as int).skip(1) =~= items@.skip(k + 1));
                }
                let piece = format_value(&items[k], ParameterType::Text);
                append_all(&mut out, piece.as_slice());
                if k + 1 < n {
                    append_all(&mut out, ", ".as_bytes());
                }
                k = k + 1;
            }
            append_all(&mut out, "]".as_bytes());
            proof {
                assert(items@.skip(n as int) =~= Seq::<ParameterValue>::empty());
                assert(out@ =~= "[".spec_bytes() + spec_list_items(items@) + "]".spec_bytes());
            }
            out
        },
    }
}

/// The whole part of a value with no fractional part.
fn whole_part(d: Decimal) -> (r: i64)
    requires
        d.scaled % 10000 == 0,
    ensures
        r == d.scaled as int / 10000,
{
    d.scaled / 10000
}

/// The scripting-environment name of a parameter.
pub open spec fn spec_vs_name(def: crate::filter_schema::ParameterDefinition, name: Seq<u8>) -> Seq<
    u8,
> {
    match def.vapoursynth {
        Some(c) => c.name@,
        None => name,
    }
}

/// The rendered `name=value` arguments of a method call, in the
/// method's parameter order, one for each name that has both a
/// definition and a value.
pub open spec fn spec_args_list(
    params: Seq<ParameterEntry>,
    values: Seq<ValueEntry>,
    names: Seq<Vec<u8>>,
) -> Seq<Seq<u8>>
    decreases names.len(),
{
    if names.len() == 0 {
        Seq::empty()
    } else {
        let rest = spec_args_list(params, values, names.skip(1));
        let pi = spec_find_param(params, names[0]@, 0);
        if pi == -1 {
            rest
        } else {
            let vi = spec_find_value(values, names[0]@, 0);
            if vi == -1 {
                rest
            } else {
                seq![
                    spec_vs_name(params[pi].definition, names[0]@) + "=".spec_bytes()
                        + spec_format_value(
                        values[vi].value,
                        params[pi].definition.param_type,
                    ),
                ] + rest
            }
        }
    }
}

/// Comma-joined arguments.
pub open spec fn spec_join_args(args: Seq<Seq<u8>>) -> Seq<u8>
    decreases args.len(),
{
    if args.len() == 0 {
        Seq::empty()
    } else if args.len() == 1 {
        args[0]
    } else {
        args[0] + ", ".spec_bytes() + spec_join_args(args.skip(1))
    }
}

/// The filter call an enabled parameter set yields: the selected
/// method, or the stored one, or the schema's first, applied to the
/// formatted arguments; nothing for a disabled filter or a schema
/// without methods.
pub open spec fn spec_generate_filter_call(schema: FilterSchema, params: DynamicParameters) -> Option<
    Seq<u8>,
> {
    if !params.enabled {
        None
    } else {
        let mi = spec_find_value(params.values@, "method".spec_bytes(), 0);
        let method_id = if mi >= 0 && (params.values@[mi].value is Text) {
            params.values@[mi].value->Text_0@
        } else if schema.methods@.len() > 0 {
            schema.methods@[0].id@
        } else {
            Seq::empty()
        };
        let fi = spec_find_method(schema.methods@, method_id, 0);
        if fi == -1 && schema.methods@.len() == 0 {
            None
        } else {
            let m = if fi >= 0 {
                schema.methods@[fi]
            } else {
                schema.methods@[0]
            };
            let joined = spec_join_args(
                spec_args_list(schema.parameters@, params.values@, m.parameters@),
            );
            if joined.len() == 0 {
                Some("clip = ".spec_bytes() + m.function@ + "(clip)".spec_bytes())
            } else {
                Some(
                    "clip = ".spec_bytes() + m.function@ + "(clip, ".spec_bytes() + joined
                        + ")".spec_bytes(),
                )
            }
        }
    }
}

/// Generates one filter call, as `spec_generate_filter_call` describes.
pub struct SchemaScriptGenerator;

impl SchemaScriptGenerator {
    /// The filter call of an enabled parameter set, as
    /// `spec_generate_filter_call` describes.
    pub fn generate_filter_call(schema: &FilterSchema, params: &DynamicParameters) -> (r: Option<
        Vec<u8>,
    >)
        ensures
            match (r, spec_generate_filter_call(*schema, *params)) {
                (Some(v), Some(s)) => v@ == s,
                (None, None) => true,
                _ => false,
            },
    {
        if !params.enabled {
            return None;
        }
        let stored = params.method();
        let method_id: Vec<u8> = match stored {
            Some(t) => clone_bytes(t),
            None => {
                if schema.methods.len() > 0 {
                    clone_bytes(&schema.methods[0].id)
                } else {
                    Vec::new()
                }
            },
        };
        let found = schema.get_method(method_id.as_slice());
        let method: &MethodDefinition = match found {
            Some(m) => m,
            None => {
                if schema.methods.len() == 0 {
                    return None;
                }
                &schema.methods[0]
            },
        };
        let args = Self::build_args(schema, params, &method.parameters);
        let joined = Self::join_args(&args);
        let mut out: Vec<u8> = Vec::new();
        append_all(&mut out, "clip = ".as_bytes());
        append_all(&mut out, method.function.as_slice());
        if joined.len() == 0 {
            append_all(&mut out, "(clip)".as_bytes());
            proof {
                assert(out@ =~= "clip = ".spec_bytes() + method.function@ + "(clip)".spec_bytes());
            }
        } else {
            append_all(&mut out, "(clip, ".as_bytes());
            append_all(&mut out, joined.as_slice());
            append_all(&mut out, ")".as_bytes());
            proof {
                assert(out@ =~= "clip = ".spec_bytes() + method.function@ + "(clip, ".spec_bytes()
                    + joined@ + ")".spec_bytes());
            }
        }
        Some(out)
    }

    /// The rendered arguments, as `spec_args_list` describes.
    fn build_args(
        schema: &FilterSchema,
        params: &DynamicParameters,
        names: &Vec<Vec<u8>>,
    ) -> (r: Vec<Vec<u8>>)
        ensures
            views_of(r@) == spec_args_list(schema.parameters@, params.values@, names@),
    {
        let n = names.len();
        let mut out: Vec<Vec<u8>> = Vec::new();
        let mut k: usize = n;
        while k > 0
            invariant
                0 <= k <= n,
                n == names@.len(),
                views_of(out@) == spec_args_list(
                    schema.parameters@,
                    params.values@,
                    names@.skip(k as int),
                ),
            decreases k,
    {
            let k2 = k - 1;
            proof {
                assert(names@.skip(k2 as int)[0] == names@[k2 as int]);
                assert(names@.skip(k2 as int).skip(1) =~= names@.skip(k2 + 1));
            }
            let name = &names[k2];
            match Self::find_param(schema, name.as_slice()) {
                Some(def_entry) => {
                    match params.get(name.as_slice()) {
                        Some(value) => {
                            let mut arg = def_entry.definition.get_vs_name(name.as_slice());
                            append_all(&mut arg, "=".as_bytes());
                            let rendered = format_value(
                                value,
                                def_entry.definition.param_type,
                            );
                            append_all(&mut arg, rendered.as_slice());
                            let ghost before = views_of(out@);
                            let ghost argv = arg@;
                            out.insert(0, arg);
                            proof {
                                assert(views_of(out@) =~= seq![argv] + before);
                            }
                        },
                        None => {},
                    }
                },
                None => {},
            }
            k = k2;
        }
        proof {
            assert(names@.skip(0) =~= names@);
        }
        out
    }

    /// The first parameter entry with the given name.
    fn find_param<'a>(schema: &'a FilterSchema, name: &[u8]) -> (r: Option<&'a ParameterEntry>)
        ensures
            ({
                let i = spec_find_param(schema.parameters@, name@, 0);
                match r {
                    Some(e) => i >= 0 && *e == schema.parameters@[i],
                    None => i == -1,
                }
            }),
    {
        let n = schema.parameters.len();
        let mut k: usize = 0;
        while k < n
            invariant
                0 <= k <= n,
                n == schema.parameters@.len(),
                forall|i: int| 0 <= i < k ==> schema.parameters@[i].name@ != name@,
            decreases n - k,
        {
            if bytes_eq(schema.parameters[k].name.as_slice(), name) {
                proof {
                    lemma_find_param_found(schema.parameters@, name@, 0, k as int);
                }
                return Some(&schema.parameters[k]);
            }
            k = k + 1;
        }
        proof {
            lemma_find_param_none(schema.parameters@, name@, 0);
        }
        None
    }

    /// Comma-joins rendered arguments, as `spec_join_args` describes.
    fn join_args(args: &Vec<Vec<u8>>) -> (r: Vec<u8>)
        ensures
            r@ == spec_join_args(views_of(args@)),
    {
        let n = args.len();
        let mut out: Vec<u8> = Vec::new();
        proof {
            assert(views_of(args@).skip(0) =~= views_of(args@));
            assert(out@ + spec_join_args(views_of(args@)) =~= spec_join_args(views_of(args@)));
        }
        let mut k: usize = 0;
        while k < n
            invariant
                0 <= k <= n,
                n == args@.len(),
                spec_join_args(views_of(args@)) == out@ + spec_join_args(
                    views_of(args@).skip(k as int),
                ),
            decreases n - k,
        {
            proof {
                assert(views_of(args@).skip(k as int)[0] == args@[k as int]@);
                assert(views_of(args@).skip(k as int).skip(1) =~= views_of(args@).skip(k + 1));
            }
            append_all(&mut out, args[k].as_slice());
            if k + 1 < n {
                append_all(&mut out, ", ".as_bytes());
            }
            k = k + 1;
        }
        proof {
            assert(views_of(args@).skip(n as int) =~= Seq::<Seq<u8>>::empty());
            assert(out@ =~= spec_join_args(views_of(args@)));
        }
        out
    }

    /// The import statements a filter's code needs.
    pub fn generate_imports(schema: &FilterSchema) -> (r: Vec<Vec<u8>>)
        ensures
            views_of(r@) == spec_imports(*schema),
    {
        match &schema.code_template {
            Some(ct) => match &ct.imports {
                Some(imports) => {
                    let n = imports.len();
                    let mut out: Vec<Vec<u8>> = Vec::new();
                    let mut k: usize = 0;
                    while k < n
                        invariant
                            0 <= k <= n,
                            n == imports@.len(),
                            out@.len() == k,
                            forall|i: int| 0 <= i < k ==> #[trigger] out@[i]@ == imports@[i]@,
                        decreases n - k,
                    {
                        out.push(clone_bytes(&imports[k]));
                        k = k + 1;
                    }
                    proof {
                        assert(views_of(out@) =~= spec_imports(*schema));
                    }
                    out
                },
                None => {
                    let out: Vec<Vec<u8>> = Vec::new();
                    proof {
                        assert(views_of(out@) =~= spec_imports(*schema));
                    }
                    out
                },
            },
            None => {
                let out: Vec<Vec<u8>> = Vec::new();
                proof {
                    assert(views_of(out@) =~= spec_imports(*schema));
                }
                out
            },
        }
    }

    /// A filter's code block: the custom template with the values
    /// substituted when one exists, else the standard method call.
    pub fn generate_filter_block(schema: &FilterSchema, params: &DynamicParameters) -> (r: Option<
        Vec<u8>,
    >)
        ensures
            match (r, spec_generate_filter_block(*schema, *params)) {
                (Some(v), Some(s)) => v@ == s,
                (None, None) => true,
                _ => false,
            },
    {
        if !params.enabled {
            return None;
        }
        match &schema.code_template {
            Some(ct) => match &ct.body {
                Some(body) => {
                    return Some(substitute_template(body.as_slice(), schema, params));
                },
                None => {},
            },
            None => {},
        }
        Self::generate_filter_call(schema, params)
    }
}

/// The import statements a schema declares.
pub open spec fn spec_imports(schema: FilterSchema) -> Seq<Seq<u8>> {
    match schema.code_template {
        Some(ct) => match ct.imports {
            Some(imports) => Seq::new(imports@.len(), |i: int| imports@[i]@),
            None => Seq::empty(),
        },
        None => Seq::empty(),
    }
}

/// A filter's code block: the custom template when one exists, else the
/// standard call.
pub open spec fn spec_generate_filter_block(schema: FilterSchema, params: DynamicParameters) -> Option<
    Seq<u8>,
> {
    if !params.enabled {
        None
    } else {
        match schema.code_template {
            Some(ct) => match ct.body {
                Some(body) => Some(spec_substitute_template(body@, schema, params.values@)),
                None => spec_generate_filter_call(schema, params),
            },
            None => spec_generate_filter_call(schema, params),
        }
    }
}

/// A byte with a lower-case letter raised to upper case.
pub open spec fn spec_upper_byte(b: u8) -> u8 {
    if 97 <= b <= 122 {
        (b - 32) as u8
    } else {
        b
    }
}

/// A byte string with its letters raised to upper case.
pub open spec fn spec_upper(s: Seq<u8>) -> Seq<u8> {
    Seq::new(s.len(), |i: int| spec_upper_byte(s[i]))
}

fn to_upper(s: &[u8]) -> (r: Vec<u8>)
    ensures
        r@ == spec_upper(s@),
{
    let n = s.len();
    let mut out: Vec<u8> = Vec::new();
    let mut k: usize = 0;
    while k < n
        invariant
            0 <= k <= n,
            n == s@.len(),
            out@.len() == k,
            forall|i: int| 0 <= i < k ==> out@[i] == spec_upper_byte(#[trigger] s@[i]),
        decreases n - k,
    {
        let b = s[k];
        if 97 <= b && b <= 122 {
            out.push(b - 32);
        } else {
            out.push(b);
        }
        k = k + 1;
    }
    proof {
        assert(out@ =~= spec_upper(s@));
    }
    out
}

/// A custom template with every stored value substituted, in stored
/// order: each value replaces the placeholders of its name and of its
/// upper-cased name, formatted under the declared type, or as a string
/// when the schema does not define the name.
pub open spec fn spec_substitute_template(
    text: Seq<u8>,
    schema: FilterSchema,
    values: Seq<ValueEntry>,
) -> Seq<u8>
    decreases values.len(),
{
    if values.len() == 0 {
        text
    } else {
        let name = values[0].name@;
        let pi = spec_find_param(schema.parameters@, name, 0);
        let ty = if pi >= 0 {
            schema.parameters@[pi].definition.param_type
        } else {
            ParameterType::Text
        };
        let formatted = spec_format_value(values[0].value, ty);
        let t1 = replace_all(text, spec_placeholder(name), formatted);
        let t2 = replace_all(t1, spec_placeholder(spec_upper(name)), formatted);
        spec_substitute_template(t2, schema, values.skip(1))
    }
}

/// Substitutes stored values into a custom template, as
/// `spec_substitute_template` describes.
pub fn substitute_template(
    text: &[u8],
    schema: &FilterSchema,
    params: &DynamicParameters,
) -> (r: Vec<u8>)
    ensures
        r@ == spec_substitute_template(text@, *schema, params.values@),
{
    let n = params.values.len();
    let mut current: Vec<u8> = Vec::new();
    append_all(&mut current, text);
    proof {
        assert(current@ =~= text@);
    }
    proof {
        assert(params.values@.skip(0) =~= params.values@);
    }
    let mut k: usize = 0;
    while k < n
        invariant
            0 <= k <= n,
            n == params.values@.len(),
            spec_substitute_template(text@, *schema, params.values@) == spec_substitute_template(
                current@,
                *schema,
                params.values@.skip(k as int),
            ),
        decreases n - k,
    {
        proof {
            assert(params.values@.skip(k as int)[0] == params.values@[k as int]);
            assert(params.values@.skip(k as int).skip(1) =~= params.values@.skip(k + 1));
        }
        let entry = &params.values[k];
        let ty = match SchemaScriptGenerator::find_param(schema, entry.name.as_slice()) {
            Some(e) => e.definition.param_type,
            None => ParameterType::Text,
        };
        let formatted = format_value(&entry.value, ty);
        let ph = make_value_placeholder(entry.name.as_slice());
        let upper = to_upper(entry.name.as_slice());
        let ph_upper = make_value_placeholder(upper.as_slice());
        proof {
            lemma_named_tags_nonempty(entry.name@);
            lemma_named_tags_nonempty(spec_upper(entry.name@));
        }
        let t1 = replace_all_exec(current.as_slice(), ph.as_slice(), formatted.as_slice());
        current = replace_all_exec(t1.as_slice(), ph_upper.as_slice(), formatted.as_slice());
        k = k + 1;
    }
    proof {
        assert(params.values@.skip(n as int) =~= Seq::<ValueEntry>::empty());
    }
    current
}

/// The placeholder of a value name.
fn make_value_placeholder(name: &[u8]) -> (r: Vec<u8>)
    ensures
        r@ == spec_placeholder(name@),
        r@.len() > 0,
{
    let mut out: Vec<u8> = Vec::new();
    append_all(&mut out, "{{".as_bytes());
    append_all(&mut out, name);
    append_all(&mut out, "}}".as_bytes());
    proof {
        lemma_named_tags_nonempty(name@);
    }
    out
}

proof fn lemma_find_param_found(entries: Seq<ParameterEntry>, name: Seq<u8>, from: int, i: int)
    requires
        0 <= from <= i < entries.len(),
        entries[i].name@ == name,
        forall|j: int| from <= j < i ==> entries[j].name@ != name,
    ensures
        spec_find_param(entries, name, from) == i,
    decreases i - from,
{
    if from < i {
        lemma_find_param_found(entries, name, from + 1, i);
    }
}

proof fn lemma_find_param_none(entries: Seq<ParameterEntry>, name: Seq<u8>, from: int)
    requires
        0 <= from,
        forall|j: int| from <= j < entries.len() ==> entries[j].name@ != name,
    ensures
        spec_find_param(entries, name, from) == -1,
    decreases entries.len() - from,
{
    if from < entries.len() {
        lemma_find_param_none(entries, name, from + 1);
    }
}


/// Whether a list of byte strings holds one equal to `x`.
pub open spec fn spec_contains_seq(acc: Seq<Seq<u8>>, x: Seq<u8>) -> bool {
    exists|i: int| 0 <= i < acc.len() && acc[i] == x
}

/// `acc` extended with the imports not yet present, in order.
pub open spec fn spec_dedup_add(acc: Seq<Seq<u8>>, imports: Seq<Seq<u8>>) -> Seq<Seq<u8>>
    decreases imports.len(),
{
    if imports.len() == 0 {
        acc
    } else {
        let acc2 = if spec_contains_seq(acc, imports[0]) {
            acc
        } else {
            acc + seq![imports[0]]
        };
        spec_dedup_add(acc2, imports.skip(1))
    }
}

/// The deduplicated imports of the schemas, in first-seen order.
pub open spec fn spec_required_imports_acc(acc: Seq<Seq<u8>>, schemas: Seq<FilterSchema>) -> Seq<
    Seq<u8>,
>
    decreases schemas.len(),
{
    if schemas.len() == 0 {
        acc
    } else {
        spec_required_imports_acc(spec_dedup_add(acc, spec_imports(schemas[0])), schemas.skip(1))
    }
}

fn contains_seq(acc: &Vec<Vec<u8>>, x: &[u8]) -> (r: bool)
    ensures
        r == spec_contains_seq(views_of(acc@), x@),
{
    let n = acc.len();
    let mut k: usize = 0;
    while k < n
        invariant
            0 <= k <= n,
            n == acc@.len(),
            forall|i: int| 0 <= i < k ==> acc@[i]@ != x@,
        decreases n - k,
    {
        if bytes_eq(acc[k].as_slice(), x) {
            assert(views_of(acc@)[k as int] == x@);
            return true;
        }
        k = k + 1;
    }
    false
}

impl SchemaScriptGenerator {
    /// The deduplicated imports of the schemas, in first-seen order, as
    /// `spec_required_imports_acc` describes from an empty start.
    pub fn get_required_imports(schemas: &Vec<FilterSchema>) -> (r: Vec<Vec<u8>>)
        ensures
            views_of(r@) == spec_required_imports_acc(Seq::empty(), schemas@),
    {
        let mut out: Vec<Vec<u8>> = Vec::new();
        let n = schemas.len();
        proof {
            assert(schemas@.skip(0) =~= schemas@);
            assert(views_of(out@) =~= Seq::<Seq<u8>>::empty());
        }
        let mut k: usize = 0;
        while k < n
            invariant
                0 <= k <= n,
                n == schemas@.len(),
                spec_required_imports_acc(Seq::empty(), schemas@) == spec_required_imports_acc(
                    views_of(out@),
                    schemas@.skip(k as int),
                ),
            decreases n - k,
        {
            proof {
                assert(schemas@.skip(k as int)[0] == schemas@[k as int]);
                assert(schemas@.skip(k as int).skip(1) =~= schemas@.skip(k + 1));
            }
            let imports = Self::generate_imports(&schemas[k]);
            let ghost start = views_of(out@);
            let m = imports.len();
            proof {
                assert(views_of(imports@).skip(0) =~= views_of(imports@));
            }
            let mut j: usize = 0;
            while j < m
                invariant
                    0 <= j <= m,
                    m == imports@.len(),
                    spec_dedup_add(views_of(out@), views_of(imports@).skip(j as int))
                        == spec_dedup_add(start, views_of(imports@)),
                decreases m - j,
            {
                proof {
                    assert(views_of(imports@).skip(j as int)[0] == imports@[j as int]@);
                    assert(views_of(imports@).skip(j as int).skip(1) =~= views_of(imports@).skip(
                        j + 1,
                    ));
                }
                if !contains_seq(&out, imports[j].as_slice()) {
                    let ghost before = views_of(out@);
                    out.push(clone_bytes(&imports[j]));
                    proof {
                        assert(views_of(out@) =~= before + seq![imports@[j as int]@]);
                    }
                }
                j = j + 1;
            }
            proof {
                assert(views_of(imports@).skip(m as int) =~= Seq::<Seq<u8>>::empty());
            }
            k = k + 1;
        }
        proof {
            assert(schemas@.skip(n as int) =~= Seq::<FilterSchema>::empty());
        }
        out
    }
}

} // verus!
