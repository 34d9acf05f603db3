//! Tests of the schema-driven generator: method selection, value
//! formatting, and validation against parameter definitions.

use vapourbox_worker::filter_schema::{
    DynamicParameters, FilterSchema, MethodDefinition, ParameterDefinition, ParameterEntry,
    ParameterType, ParameterValue, ValueEntry,
};
use vapourbox_worker::numfmt::Decimal;
use vapourbox_worker::filter_schema::{CodeTemplate, FilterRegistry};
use vapourbox_worker::schema_script_generator::{format_value, substitute_template, SchemaScriptGenerator};

fn number_param(vs_name: Option<&str>, default_scaled: i64) -> ParameterDefinition {
    ParameterDefinition {
        param_type: ParameterType::Number,
        default_value: ParameterValue::Num(Decimal::from_scaled(default_scaled)),
        min: None,
        max: None,
        step: None,
        options: None,
        vapoursynth: vs_name.map(|n| vapourbox_worker::filter_schema::VapourSynthConfig {
            name: n.as_bytes().to_vec(),
        }),
        ui: None,
    }
}

fn integer_param(default: i64) -> ParameterDefinition {
    ParameterDefinition {
        param_type: ParameterType::Integer,
        default_value: ParameterValue::Int(default),
        min: None,
        max: None,
        step: None,
        options: None,
        vapoursynth: None,
        ui: None,
    }
}

fn method_param(options: Vec<&str>, default: &str) -> ParameterDefinition {
    ParameterDefinition {
        param_type: ParameterType::Enum,
        default_value: ParameterValue::Text(default.as_bytes().to_vec()),
        min: None,
        max: None,
        step: None,
        options: Some(options.into_iter().map(|o| o.as_bytes().to_vec()).collect()),
        vapoursynth: None,
        ui: None,
    }
}

fn create_test_schema() -> FilterSchema {
    FilterSchema {
        id: b"dehalo".to_vec(),
        version: b"1.0.0".to_vec(),
        name: b"Dehalo".to_vec(),
        description: None,
        category: None,
        order: 0,
        dependencies: None,
        methods: vec![
            MethodDefinition {
                id: b"dehalo_alpha".to_vec(),
                name: b"DeHalo Alpha".to_vec(),
                description: None,
                function: b"haf.DeHalo_alpha".to_vec(),
                parameters: vec![b"rx".to_vec(), b"ry".to_vec(), b"darkStr".to_vec()],
            },
            MethodDefinition {
                id: b"yahr".to_vec(),
                name: b"YAHR".to_vec(),
                description: None,
                function: b"haf.YAHR".to_vec(),
                parameters: vec![b"blur".to_vec(), b"depth".to_vec()],
            },
        ],
        parameters: vec![
            ParameterEntry {
                name: b"method".to_vec(),
                definition: method_param(vec!["dehalo_alpha", "yahr"], "dehalo_alpha"),
            },
            ParameterEntry { name: b"rx".to_vec(), definition: number_param(Some("rx"), 20000) },
            ParameterEntry { name: b"ry".to_vec(), definition: number_param(Some("ry"), 20000) },
            ParameterEntry {
                name: b"darkStr".to_vec(),
                definition: number_param(Some("darkstr"), 10000),
            },
            ParameterEntry { name: b"blur".to_vec(), definition: integer_param(2) },
            ParameterEntry { name: b"depth".to_vec(), definition: integer_param(32) },
        ],
        ui: None,
        code_template: None,
    }
}

fn value(name: &str, v: ParameterValue) -> ValueEntry {
    ValueEntry { name: name.as_bytes().to_vec(), value: v }
}

#[test]
fn test_generate_filter_call() {
    let schema = create_test_schema();
    let params = DynamicParameters {
        filter_id: b"dehalo".to_vec(),
        enabled: true,
        values: vec![
            value("method", ParameterValue::Text(b"dehalo_alpha".to_vec())),
            value("rx", ParameterValue::Num(Decimal::from_scaled(20000))),
            value("ry", ParameterValue::Num(Decimal::from_scaled(20000))),
            value("darkStr", ParameterValue::Num(Decimal::from_scaled(10000))),
        ],
    };
    let result = SchemaScriptGenerator::generate_filter_call(&schema, &params);
    assert!(result.is_some());
    let code = String::from_utf8(result.unwrap()).unwrap();
    assert!(code.contains("haf.DeHalo_alpha"));
    assert!(code.contains("rx=2.0"));
    assert!(code.contains("ry=2.0"));
    assert!(code.contains("darkstr=1.0"));
}

#[test]
fn test_generate_yahr_method() {
    let schema = create_test_schema();
    let params = DynamicParameters {
        filter_id: b"dehalo".to_vec(),
        enabled: true,
        values: vec![
            value("method", ParameterValue::Text(b"yahr".to_vec())),
            value("blur", ParameterValue::Int(2)),
            value("depth", ParameterValue::Int(32)),
        ],
    };
    let result = SchemaScriptGenerator::generate_filter_call(&schema, &params);
    assert!(result.is_some());
    let code = String::from_utf8(result.unwrap()).unwrap();
    assert!(code.contains("haf.YAHR"));
    assert!(code.contains("blur=2"));
    assert!(code.contains("depth=32"));
}

#[test]
fn test_disabled_filter() {
    let schema = create_test_schema();
    let params = DynamicParameters {
        filter_id: b"dehalo".to_vec(),
        enabled: false,
        values: Vec::new(),
    };
    let result = SchemaScriptGenerator::generate_filter_call(&schema, &params);
    assert!(result.is_none());
}

#[test]
fn test_format_values() {
    let f = |v: &ParameterValue, ty: ParameterType| {
        String::from_utf8(format_value(v, ty)).unwrap()
    };
    assert_eq!(f(&ParameterValue::Bool(true), ParameterType::Boolean), "True");
    assert_eq!(f(&ParameterValue::Bool(false), ParameterType::Boolean), "False");
    assert_eq!(f(&ParameterValue::Int(42), ParameterType::Integer), "42");
    assert_eq!(
        f(&ParameterValue::Num(Decimal::from_scaled(31416)), ParameterType::Number),
        "3.1416"
    );
    assert_eq!(
        f(&ParameterValue::Text(b"test".to_vec()), ParameterType::Text),
        "\"test\""
    );
    assert_eq!(f(&ParameterValue::Null, ParameterType::Text), "None");
    let list = ParameterValue::List(vec![
        ParameterValue::Int(1),
        ParameterValue::Text(b"x".to_vec()),
    ]);
    assert_eq!(f(&list, ParameterType::Text), "[1, \"x\"]");
}

#[test]
fn test_parameter_validation() {
    let param = ParameterDefinition {
        param_type: ParameterType::Number,
        default_value: ParameterValue::Num(Decimal::from_scaled(20000)),
        min: Some(Decimal::from_scaled(10000)),
        max: Some(Decimal::from_scaled(30000)),
        step: Some(Decimal::from_scaled(1000)),
        options: None,
        vapoursynth: None,
        ui: None,
    };
    assert!(param.is_valid_value(&ParameterValue::Num(Decimal::from_scaled(20000))));
    assert!(param.is_valid_value(&ParameterValue::Num(Decimal::from_scaled(10000))));
    assert!(param.is_valid_value(&ParameterValue::Num(Decimal::from_scaled(30000))));
    assert!(!param.is_valid_value(&ParameterValue::Num(Decimal::from_scaled(5000))));
    assert!(!param.is_valid_value(&ParameterValue::Num(Decimal::from_scaled(35000))));
}

#[test]
fn test_defaults_and_lookup() {
    let schema = create_test_schema();
    let params = DynamicParameters::from_schema(&schema, true);
    assert!(params.enabled);
    assert_eq!(params.filter_id, b"dehalo".to_vec());
    assert_eq!(params.values.len(), schema.parameters.len());
    assert_eq!(params.method().map(|m| m.clone()), Some(b"dehalo_alpha".to_vec()));
    assert_eq!(
        params.get_float(b"rx"),
        Some(Decimal::from_scaled(20000))
    );
    assert_eq!(params.get_int(b"blur"), Some(2));
    assert_eq!(params.get_bool(b"rx"), None);
}

#[test]
fn test_custom_template_substitution() {
    let mut schema = create_test_schema();
    schema.code_template = Some(CodeTemplate {
        imports: Some(vec![b"import havsfunc as haf".to_vec()]),
        generate: None,
        body: Some(b"clip = haf.DeHalo_alpha(clip, rx={{rx}}, ry={{RX}})".to_vec()),
    });
    let params = DynamicParameters {
        filter_id: b"dehalo".to_vec(),
        enabled: true,
        values: vec![value("rx", ParameterValue::Num(Decimal::from_scaled(25000)))],
    };
    let body = schema.code_template.as_ref().unwrap().body.as_ref().unwrap().clone();
    let result = String::from_utf8(substitute_template(&body, &schema, &params)).unwrap();
    assert_eq!(result, "clip = haf.DeHalo_alpha(clip, rx=2.5, ry=2.5)");
    let imports = SchemaScriptGenerator::generate_imports(&schema);
    assert_eq!(imports, vec![b"import havsfunc as haf".to_vec()]);
}

#[test]
fn test_registry_register_and_lookup() {
    let mut registry = FilterRegistry::new();
    registry.register(create_test_schema());
    assert!(registry.has(b"dehalo"));
    assert!(!registry.has(b"missing"));
    assert_eq!(registry.get(b"dehalo").map(|s| s.name.clone()), Some(b"Dehalo".to_vec()));
    // Re-registering replaces the earlier schema and moves it to the
    // end of the load order.
    let mut replacement = create_test_schema();
    replacement.name = b"Dehalo v2".to_vec();
    registry.register(replacement);
    assert_eq!(registry.filters.len(), 1);
    assert_eq!(registry.get(b"dehalo").map(|s| s.name.clone()), Some(b"Dehalo v2".to_vec()));
}

#[test]
fn test_required_imports_dedup() {
    let mut a = create_test_schema();
    a.code_template = Some(CodeTemplate {
        imports: Some(vec![b"import havsfunc as haf".to_vec(), b"import mvsfunc as mvf".to_vec()]),
        generate: None,
        body: None,
    });
    let mut b = create_test_schema();
    b.id = b"denoise".to_vec();
    b.code_template = Some(CodeTemplate {
        imports: Some(vec![b"import havsfunc as haf".to_vec()]),
        generate: None,
        body: None,
    });
    let schemas = vec![a, b];
    let imports = SchemaScriptGenerator::get_required_imports(&schemas);
    assert_eq!(
        imports,
        vec![b"import havsfunc as haf".to_vec(), b"import mvsfunc as mvf".to_vec()]
    );
}
