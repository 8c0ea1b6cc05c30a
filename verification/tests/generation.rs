use contract_interface::artifacts::{
    Capability, GeneratedArtifactSet, GeneratedField, GeneratedParameter, PhantomMarker,
};
use contract_interface::descriptor::{
    ArgumentAttribute, ArgumentDescriptor, ArgumentPassing, ArgumentPattern, AttributeRole,
    FormatDeclaration, ItemTraitInfo, SerializerType, TraitItemMethodInfo,
};
use contract_interface::error::GenerationError;
use contract_interface::generics::{merge_generics, GenericParameter, GenericParameterSet};

fn param(name: &str, bound: &str) -> GenericParameter {
    GenericParameter { name: name.to_string(), bound: bound.to_string() }
}

fn params(list: &[(&str, &str)]) -> Vec<GenericParameter> {
    list.iter().map(|(name, bound)| param(name, bound)).collect()
}

fn set(
    lifetimes: &[(&str, &str)],
    types: &[(&str, &str)],
    consts: &[(&str, &str)],
) -> GenericParameterSet {
    GenericParameterSet {
        lifetimes: params(lifetimes),
        types: params(types),
        consts: params(consts),
    }
}

fn argument(name: &str, ty: &str) -> ArgumentDescriptor {
    ArgumentDescriptor {
        pattern: ArgumentPattern::Identifier(name.to_string()),
        ty: ty.to_string(),
        attributes: Vec::new(),
        passing: ArgumentPassing::ByValue,
    }
}

fn attribute(text: &str, role: AttributeRole) -> ArgumentAttribute {
    ArgumentAttribute { text: text.to_string(), role }
}

fn method(name: &str, generics: GenericParameterSet) -> TraitItemMethodInfo {
    TraitItemMethodInfo {
        name: name.to_string(),
        generics,
        inputs: Vec::new(),
        ret: None,
        export_name: None,
        input_format: FormatDeclaration::Unspecified,
        output_format: FormatDeclaration::Unspecified,
    }
}

fn interface(name: &str, generics: GenericParameterSet) -> ItemTraitInfo {
    ItemTraitInfo {
        name: name.to_string(),
        generics,
        methods: Vec::new(),
        self_bounds: Vec::new(),
    }
}

fn plain_interface() -> ItemTraitInfo {
    interface("Message", set(&[], &[], &[]))
}

/// A trait with a lifetime, a bounded type and a const, and a method with
/// a lifetime and two types of its own, one of them bounded.
fn generic_interface() -> ItemTraitInfo {
    let mut it = interface(
        "Trait3",
        set(&[("'trait_lt", "")], &[("TraitType", "std::fmt::Debug")], &[("TRAIT_CONST", "bool")]),
    );
    it.self_bounds = vec!["Clone".to_string()];
    it
}

fn generic_method() -> TraitItemMethodInfo {
    let mut m = method(
        "method_a",
        set(&[("'method_lt", "'trait_lt")], &[("MethodTypeA", "Default"), ("MethodTypeB", "")], &[]),
    );
    m.inputs = vec![argument("_my_string", "String"), argument("_my_m", "TraitType")];
    m.ret = Some("MethodTypeB".to_string());
    m
}

fn canonical() -> Vec<GeneratedParameter> {
    vec![
        GeneratedParameter::Lifetime(param("'trait_lt", "")),
        GeneratedParameter::Lifetime(param("'method_lt", "'trait_lt")),
        GeneratedParameter::Receiver,
        GeneratedParameter::Type(param("TraitType", "std::fmt::Debug")),
        GeneratedParameter::Type(param("MethodTypeA", "Default")),
        GeneratedParameter::Type(param("MethodTypeB", "")),
        GeneratedParameter::Const(param("TRAIT_CONST", "bool")),
    ]
}

fn generate(m: &TraitItemMethodInfo, it: &ItemTraitInfo) -> GeneratedArtifactSet {
    m.method_wrapper(&m.name, it).unwrap()
}

#[test]
fn merge_generics_puts_trait_parameters_first() {
    let outer = set(&[("'a", "")], &[("T", "Clone"), ("U", "")], &[("N", "usize")]);
    let inner = set(&[("'b", "'a")], &[("V", "Default")], &[("M", "bool")]);
    let merged = merge_generics(&outer, &inner).unwrap();
    assert_eq!(merged.lifetimes, params(&[("'a", ""), ("'b", "'a")]));
    assert_eq!(merged.types, params(&[("T", "Clone"), ("U", ""), ("V", "Default")]));
    assert_eq!(merged.consts, params(&[("N", "usize"), ("M", "bool")]));
}

#[test]
fn merge_generics_of_empty_sets_is_empty() {
    let merged = merge_generics(&set(&[], &[], &[]), &set(&[], &[], &[])).unwrap();
    assert_eq!(merged, set(&[], &[], &[]));
}

#[test]
fn merge_generics_with_an_empty_method_set_is_the_trait_set() {
    let outer = set(&[("'a", "")], &[("T", "Clone")], &[("N", "usize")]);
    let merged = merge_generics(&outer, &set(&[], &[], &[])).unwrap();
    assert_eq!(merged, outer);
}

#[test]
fn merge_generics_leaves_its_arguments_as_they_were() {
    let outer = set(&[("'a", "")], &[("T", "Clone")], &[]);
    let inner = set(&[], &[("V", "")], &[]);
    let _ = merge_generics(&outer, &inner);
    assert_eq!(outer, set(&[("'a", "")], &[("T", "Clone")], &[]));
    assert_eq!(inner, set(&[], &[("V", "")], &[]));
}

#[test]
fn merge_generics_refuses_a_name_of_both_levels() {
    let outer = set(&[], &[("T", "")], &[]);
    let inner = set(&[], &[("T", "Clone")], &[]);
    assert_eq!(merge_generics(&outer, &inner), Err(GenerationError::DuplicateParameterName));
}

#[test]
fn merge_generics_refuses_a_name_of_two_kinds() {
    let outer = set(&[], &[("N", "")], &[]);
    let inner = set(&[], &[], &[("N", "usize")]);
    assert_eq!(merge_generics(&outer, &inner), Err(GenerationError::DuplicateParameterName));
}

#[test]
fn merge_generics_refuses_a_name_twice_at_one_level() {
    let outer = set(&[("'a", ""), ("'a", "")], &[], &[]);
    let inner = set(&[], &[], &[]);
    assert_eq!(merge_generics(&outer, &inner), Err(GenerationError::DuplicateParameterName));
}

#[test]
fn merge_generics_tells_a_lifetime_from_a_type_of_the_same_letters() {
    let outer = set(&[("'a", "")], &[], &[]);
    let inner = set(&[], &[("a", "")], &[]);
    assert!(merge_generics(&outer, &inner).is_ok());
}

#[test]
fn forwarded_attributes_leave_out_what_configures_generation() {
    let mut a = argument("my_string", "String");
    a.attributes = vec![
        attribute("serde(default)", AttributeRole::Forwarded),
        attribute("serializer(borsh)", AttributeRole::Configuration),
        attribute("doc = \"the text\"", AttributeRole::Forwarded),
    ];
    assert_eq!(
        a.forwarded_attributes(),
        vec!["serde(default)".to_string(), "doc = \"the text\"".to_string()]
    );
}

#[test]
fn forwarded_attributes_of_a_bare_argument_are_none() {
    assert_eq!(argument("my_string", "String").forwarded_attributes(), Vec::<String>::new());
}

#[test]
fn forwarded_attributes_may_all_be_configuration() {
    let mut a = argument("my_string", "String");
    a.attributes = vec![attribute("callback", AttributeRole::Configuration)];
    assert_eq!(a.forwarded_attributes(), Vec::<String>::new());
}

#[test]
fn format_declaration_resolves_by_name() {
    assert_eq!(FormatDeclaration::Unspecified.resolve(), Ok(SerializerType::Json));
    assert_eq!(FormatDeclaration::Named("json".to_string()).resolve(), Ok(SerializerType::Json));
    assert_eq!(FormatDeclaration::Named("borsh".to_string()).resolve(), Ok(SerializerType::Borsh));
    assert_eq!(
        FormatDeclaration::Named("yaml".to_string()).resolve(),
        Err(GenerationError::MissingSerializerFormat)
    );
    assert_eq!(
        FormatDeclaration::Named(String::new()).resolve(),
        Err(GenerationError::MissingSerializerFormat)
    );
    assert_eq!(
        FormatDeclaration::Named("JSON".to_string()).resolve(),
        Err(GenerationError::MissingSerializerFormat)
    );
}

#[test]
fn method_wrapper_gives_the_three_types_one_parameter_list() {
    let artifacts = generate(&generic_method(), &generic_interface());
    assert_eq!(artifacts.args.parameters, artifacts.ret.parameters);
    assert_eq!(artifacts.ret.parameters, artifacts.binding.parameters);
    assert_eq!(artifacts.args.carrier, artifacts.ret.carrier);
    assert_eq!(artifacts.ret.carrier, artifacts.binding.carrier);
}

#[test]
fn method_wrapper_orders_the_parameters_by_kind_and_level() {
    let artifacts = generate(&generic_method(), &generic_interface());
    assert_eq!(artifacts.args.parameters, canonical());
    assert_eq!(artifacts.ret.parameters, canonical());
    assert_eq!(artifacts.binding.parameters, canonical());
}

#[test]
fn method_wrapper_of_a_plain_method_has_the_receiver_alone() {
    let artifacts = generate(&method("method_a", set(&[], &[], &[])), &plain_interface());
    assert_eq!(artifacts.args.parameters, vec![GeneratedParameter::Receiver]);
    assert_eq!(artifacts.binding.carrier.markers, vec![PhantomMarker::Receiver]);
    assert_eq!(artifacts.args.fields, Vec::<GeneratedField>::new());
    assert_eq!(artifacts.parameter_bounds, Vec::<GenericParameter>::new());
    assert_eq!(artifacts.receiver_bounds, Vec::<String>::new());
    assert_eq!(
        artifacts.capability,
        Capability { interface: "Message".to_string(), arguments: Vec::new() }
    );
}

#[test]
fn method_wrapper_marks_lifetimes_and_types_but_no_const() {
    let artifacts = generate(&generic_method(), &generic_interface());
    assert_eq!(
        artifacts.binding.carrier.markers,
        vec![
            PhantomMarker::Lifetime("'trait_lt".to_string()),
            PhantomMarker::Lifetime("'method_lt".to_string()),
            PhantomMarker::Receiver,
            PhantomMarker::Type("TraitType".to_string()),
            PhantomMarker::Type("MethodTypeA".to_string()),
            PhantomMarker::Type("MethodTypeB".to_string()),
        ]
    );
}

#[test]
fn method_wrapper_keeps_the_carrier_off_the_wire() {
    let artifacts = generate(&generic_method(), &generic_interface());
    for carrier in [&artifacts.args.carrier, &artifacts.ret.carrier, &artifacts.binding.carrier] {
        assert!(carrier.skipped);
        assert!(carrier.defaulted);
    }
    assert!(artifacts.ret.transparent);
}

#[test]
fn method_wrapper_marks_a_parameter_that_no_argument_uses() {
    let mut m = method("method_a", set(&[], &[("Unused", "")], &[]));
    m.inputs = vec![argument("my_bool", "bool")];
    let artifacts = generate(&m, &plain_interface());
    assert_eq!(
        artifacts.args.carrier.markers,
        vec![PhantomMarker::Receiver, PhantomMarker::Type("Unused".to_string())]
    );
}

#[test]
fn method_wrapper_makes_one_field_of_each_argument() {
    let mut m = method("method_b", set(&[], &[], &[]));
    let mut first = argument("my_string", "String");
    first.attributes = vec![
        attribute("serializer(borsh)", AttributeRole::Configuration),
        attribute("serde(default)", AttributeRole::Forwarded),
    ];
    let mut second = argument("my_flag", "&'a bool");
    second.passing = ArgumentPassing::ByReference;
    m.inputs = vec![first, second];
    let artifacts = generate(&m, &plain_interface());
    assert_eq!(
        artifacts.args.fields,
        vec![
            GeneratedField {
                attributes: vec!["serde(default)".to_string()],
                name: "my_string".to_string(),
                ty: "String".to_string(),
                passing: ArgumentPassing::ByValue,
            },
            GeneratedField {
                attributes: Vec::new(),
                name: "my_flag".to_string(),
                ty: "&'a bool".to_string(),
                passing: ArgumentPassing::ByReference,
            },
        ]
    );
}

#[test]
fn method_wrapper_wraps_the_return_type_or_unit() {
    let mut m = method("method_b", set(&[], &[], &[]));
    assert_eq!(generate(&m, &plain_interface()).ret.value, None);
    m.ret = Some("bool".to_string());
    assert_eq!(generate(&m, &plain_interface()).ret.value, Some("bool".to_string()));
}

#[test]
fn method_wrapper_collects_what_the_receiver_must_satisfy() {
    let artifacts = generate(&generic_method(), &generic_interface());
    assert_eq!(artifacts.receiver_bounds, vec!["Clone".to_string()]);
    assert_eq!(
        artifacts.capability,
        Capability {
            interface: "Trait3".to_string(),
            arguments: vec![
                "'trait_lt".to_string(),
                "TraitType".to_string(),
                "TRAIT_CONST".to_string()
            ],
        }
    );
    assert_eq!(
        artifacts.parameter_bounds,
        params(&[
            ("'method_lt", "'trait_lt"),
            ("TraitType", "std::fmt::Debug"),
            ("MethodTypeA", "Default")
        ])
    );
}

#[test]
fn method_wrapper_names_the_entry_point_after_the_method() {
    let mut m = method("method_a", set(&[], &[], &[]));
    let artifacts = generate(&m, &plain_interface());
    assert_eq!(artifacts.method, "method_a");
    assert_eq!(artifacts.entry_point, "method_a");
    m.export_name = Some("my_exported_method".to_string());
    let artifacts = generate(&m, &plain_interface());
    assert_eq!(artifacts.method, "method_a");
    assert_eq!(artifacts.entry_point, "my_exported_method");
}

#[test]
fn method_wrapper_takes_the_method_name_from_its_caller() {
    let m = method("renamed", set(&[], &[], &[]));
    let artifacts = m.method_wrapper("method_a", &plain_interface()).unwrap();
    assert_eq!(artifacts.method, "method_a");
    assert_eq!(artifacts.entry_point, "method_a");
}

#[test]
fn method_wrapper_resolves_each_format_by_itself() {
    let mut m = method("method_a", set(&[], &[], &[]));
    let artifacts = generate(&m, &plain_interface());
    assert_eq!(artifacts.input_format, SerializerType::Json);
    assert_eq!(artifacts.output_format, SerializerType::Json);
    m.input_format = FormatDeclaration::Named("borsh".to_string());
    let artifacts = generate(&m, &plain_interface());
    assert_eq!(artifacts.input_format, SerializerType::Borsh);
    assert_eq!(artifacts.output_format, SerializerType::Json);
    m.input_format = FormatDeclaration::Named("json".to_string());
    m.output_format = FormatDeclaration::Named("borsh".to_string());
    let artifacts = generate(&m, &plain_interface());
    assert_eq!(artifacts.input_format, SerializerType::Json);
    assert_eq!(artifacts.output_format, SerializerType::Borsh);
}

#[test]
fn method_wrapper_refuses_a_parameter_name_that_occurs_twice() {
    let it = interface("Message", set(&[], &[("T", "")], &[]));
    let m = method("method_a", set(&[], &[("T", "")], &[]));
    assert_eq!(m.method_wrapper("method_a", &it), Err(GenerationError::DuplicateParameterName));
}

#[test]
fn method_wrapper_refuses_a_destructured_argument() {
    let mut m = method("method_a", set(&[], &[], &[]));
    m.inputs = vec![
        argument("my_string", "String"),
        ArgumentDescriptor {
            pattern: ArgumentPattern::Destructured("(_my_y, _my_bool)".to_string()),
            ty: "(MethodTypeA, bool)".to_string(),
            attributes: Vec::new(),
            passing: ArgumentPassing::ByValue,
        },
    ];
    assert_eq!(
        m.method_wrapper("method_a", &plain_interface()),
        Err(GenerationError::UnsupportedArgumentPattern)
    );
}

#[test]
fn method_wrapper_refuses_a_format_it_does_not_know() {
    let mut m = method("method_a", set(&[], &[], &[]));
    m.input_format = FormatDeclaration::Named("yaml".to_string());
    assert_eq!(
        m.method_wrapper("method_a", &plain_interface()),
        Err(GenerationError::MissingSerializerFormat)
    );
    m.input_format = FormatDeclaration::Unspecified;
    m.output_format = FormatDeclaration::Named("yaml".to_string());
    assert_eq!(
        m.method_wrapper("method_a", &plain_interface()),
        Err(GenerationError::MissingSerializerFormat)
    );
}

#[test]
fn method_wrapper_finds_a_duplicate_before_a_pattern_before_a_format() {
    let it = interface("Message", set(&[], &[("T", "")], &[]));
    let mut m = method("method_a", set(&[], &[("T", "")], &[]));
    m.inputs = vec![ArgumentDescriptor {
        pattern: ArgumentPattern::Destructured("(a, b)".to_string()),
        ty: "(u8, u8)".to_string(),
        attributes: Vec::new(),
        passing: ArgumentPassing::ByValue,
    }];
    m.output_format = FormatDeclaration::Named("yaml".to_string());
    assert_eq!(m.method_wrapper("method_a", &it), Err(GenerationError::DuplicateParameterName));
    m.generics = set(&[], &[], &[]);
    assert_eq!(m.method_wrapper("method_a", &it), Err(GenerationError::UnsupportedArgumentPattern));
    m.inputs = Vec::new();
    assert_eq!(m.method_wrapper("method_a", &it), Err(GenerationError::MissingSerializerFormat));
    m.output_format = FormatDeclaration::Unspecified;
    assert!(m.method_wrapper("method_a", &it).is_ok());
}

#[test]
fn method_wrapper_gives_the_same_artifacts_for_the_same_descriptions() {
    let first = generate(&generic_method(), &generic_interface());
    let second = generate(&generic_method(), &generic_interface());
    assert_eq!(first, second);
}

#[test]
fn method_wrapper_leaves_the_descriptions_as_they_were() {
    let m = generic_method();
    let it = generic_interface();
    let _ = m.method_wrapper("method_a", &it);
    assert_eq!(m, generic_method());
    assert_eq!(it, generic_interface());
}

#[test]
fn method_wrappers_generates_each_method_by_itself() {
    let mut it = generic_interface();
    let mut broken = method("method_b", set(&[], &[("TraitType", "")], &[]));
    broken.ret = Some("bool".to_string());
    let mut last = method("method_c", set(&[], &[], &[]));
    last.inputs = vec![argument("my_bool", "bool")];
    it.methods = vec![generic_method(), broken, last];
    let all = it.method_wrappers();
    assert_eq!(all.len(), 3);
    assert_eq!(all[0], generic_method().method_wrapper("method_a", &it));
    assert_eq!(all[0].as_ref().unwrap().args.parameters, canonical());
    assert_eq!(all[1], Err(GenerationError::DuplicateParameterName));
    let third = all[2].as_ref().unwrap();
    assert_eq!(third.method, "method_c");
    assert_eq!(third.args.fields.len(), 1);
    assert_eq!(third.args.fields[0].name, "my_bool");
}

#[test]
fn method_wrappers_of_a_trait_without_methods_is_empty() {
    assert!(plain_interface().method_wrappers().is_empty());
}
