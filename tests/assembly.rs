use schema_til::analyzer::{analyze, JsonNode};
use schema_til::assembly::{assemble, assemble_top_component, component_size, Assembly};
use schema_til::netlist::{TilImplementationType, TilInlineImplementation, TilSignal};
use schema_til::params::{GeneratorError, GeneratorParams};
use schema_til::types::{StreamType, TilStreamDirection};

fn object(fields: Vec<(&str, JsonNode)>) -> JsonNode {
    JsonNode::Object(fields.into_iter().map(|(k, v)| (k.to_string(), v)).collect())
}

fn params() -> GeneratorParams {
    GeneratorParams::new(4, 8, 64, "output", "schema_parser").ok().unwrap()
}

fn build(doc: &JsonNode) -> Assembly {
    let root = analyze(doc);
    assemble_top_component(&root, &params()).ok().unwrap()
}

fn body(a: &Assembly) -> &TilInlineImplementation {
    match a.top.get_implementation() {
        Some(TilImplementationType::Inline(i)) => i,
        _ => panic!("top has no inline body"),
    }
}

fn instance_names(a: &Assembly) -> Vec<String> {
    body(a).get_instances().iter().map(|i| i.get_instance_name().to_string()).collect()
}

fn port_names(a: &Assembly) -> Vec<String> {
    a.top.get_streams().get_streams().iter().map(|s| s.get_name().to_string()).collect()
}

fn edges(a: &Assembly) -> Vec<String> {
    body(a)
        .get_signals()
        .iter()
        .map(|s| {
            let src = match s.get_source_inst_name() {
                Some(i) => format!("{}.{}", i, s.get_source_stream_name()),
                None => s.get_source_stream_name().to_string(),
            };
            let dst = match s.get_dest_inst_name() {
                Some(i) => format!("{}.{}", i, s.get_dest_stream_name()),
                None => s.get_dest_stream_name().to_string(),
            };
            format!("{} -- {}", src, dst)
        })
        .collect()
}

#[test]
fn single_integer_field_promotes_one_output() {
    let a = build(&object(vec![("a", JsonNode::Number)]));
    assert_eq!(port_names(&a), vec!["input", "output_int_parser_L2_00_inst"]);
    let inputs = a.top.get_streams().get_input_streams();
    let outputs = a.top.get_streams().get_output_streams();
    assert_eq!(inputs.len(), 1);
    assert_eq!(outputs.len(), 1);
    assert_eq!(outputs[0].get_type().get_stream_type(), StreamType::Int);
    assert_eq!(
        instance_names(&a),
        vec!["key_parser_L2_00_inst", "a_matcher_L2_00_inst", "int_parser_L2_00_inst"]
    );
    assert_eq!(
        edges(&a),
        vec![
            "input -- key_parser_L2_00_inst.input",
            "key_parser_L2_00_inst.matcher_str -- a_matcher_L2_00_inst.input",
            "a_matcher_L2_00_inst.output -- key_parser_L2_00_inst.matcher_match",
            "key_parser_L2_00_inst.output -- int_parser_L2_00_inst.input",
            "int_parser_L2_00_inst.output -- output_int_parser_L2_00_inst",
        ]
    );
}

#[test]
fn repeated_field_name_shares_one_matcher() {
    let a = build(&object(vec![("a", object(vec![("a", JsonNode::Number)]))]));
    assert_eq!(a.matchers.len(), 1);
    assert_eq!(a.matchers[0].pattern, "a");
    assert_eq!(a.matchers[0].component_name, "a_matcher_L2_00");
    assert_eq!(a.matchers[0].holder_name, "key_parser_L2_00_inst");
    let e = edges(&a);
    assert!(e.contains(&"key_parser_L2_00_inst.matcher_str -- a_matcher_L2_00_inst.input".to_string()));
    assert!(e.contains(&"key_parser_L3_00_inst.matcher_str -- a_matcher_L2_00_inst.input".to_string()));
    assert!(e.contains(&"a_matcher_L2_00_inst.output -- key_parser_L3_00_inst.matcher_match".to_string()));
    let matchers: Vec<String> = instance_names(&a).into_iter().filter(|n| n.contains("matcher")).collect();
    assert_eq!(matchers, vec!["a_matcher_L2_00_inst"]);
}

#[test]
fn voltage_document_end_to_end() {
    let doc = object(vec![(
        "voltage",
        JsonNode::Array(vec![JsonNode::Number, JsonNode::Number, JsonNode::Number, JsonNode::Number]),
    )]);
    let a = build(&doc);
    assert_eq!(
        instance_names(&a),
        vec![
            "key_parser_L2_00_inst",
            "voltage_matcher_L2_00_inst",
            "array_parser_L2_00_inst",
            "int_parser_L3_00_inst",
        ]
    );
    assert_eq!(a.matchers.len(), 1);
    assert_eq!(a.matchers[0].pattern, "voltage");
    let outputs = a.top.get_streams().get_output_streams();
    assert_eq!(outputs.len(), 1);
    assert_eq!(outputs[0].get_name(), "output_int_parser_L3_00_inst");
    assert_eq!(outputs[0].get_type().get_stream_type(), StreamType::Int);
    let inputs = a.top.get_streams().get_input_streams();
    assert_eq!(inputs.len(), 1);
    assert_eq!(inputs[0].get_type().get_stream_type(), StreamType::Json);
    assert_eq!(inputs[0].get_direction(), TilStreamDirection::Input);
    assert_eq!(a.top.get_name(), "top");
    assert_eq!(
        a.stream_types,
        vec![StreamType::Json, StreamType::Int, StreamType::Record, StreamType::MatcherMatch, StreamType::MatcherStr]
    );
    assert_eq!(a.entities.len(), 4);
    assert_eq!(a.entities[2].get_name(), "array_parser_L2_00");
}

#[test]
fn null_field_is_not_promoted() {
    let a = build(&object(vec![("a", JsonNode::Null)]));
    assert_eq!(port_names(&a), vec!["input"]);
    assert_eq!(instance_names(&a), vec!["key_parser_L2_00_inst", "a_matcher_L2_00_inst"]);
    let outputs = body(&a)
        .get_signals()
        .iter()
        .filter(|s| matches!(s, TilSignal::Output { .. }))
        .count();
    assert_eq!(outputs, 0);
}

#[test]
fn equal_names_at_one_level_get_counters() {
    let a = build(&object(vec![("x", JsonNode::Number), ("y", JsonNode::Number), ("z", JsonNode::Str)]));
    let names = instance_names(&a);
    assert!(names.contains(&"int_parser_L2_00_inst".to_string()));
    assert!(names.contains(&"int_parser_L2_01_inst".to_string()));
    assert!(names.contains(&"key_parser_L2_02_inst".to_string()));
    assert!(names.contains(&"string_parser_L1_00_inst".to_string()));
    for i in 0..names.len() {
        for j in 0..names.len() {
            if i != j {
                assert_ne!(names[i], names[j]);
            }
        }
    }
}

#[test]
fn two_runs_give_identical_output() {
    let doc = object(vec![("a", JsonNode::Array(vec![object(vec![("b", JsonNode::Boolean)])])), ("c", JsonNode::Str)]);
    let a = build(&doc);
    let b = build(&doc);
    assert_eq!(instance_names(&a), instance_names(&b));
    assert_eq!(port_names(&a), port_names(&b));
    assert_eq!(edges(&a), edges(&b));
    assert_eq!(a.stream_types, b.stream_types);
}

#[test]
fn missing_root_is_an_error() {
    assert!(matches!(assemble_top_component(&None, &params()), Err(GeneratorError::NoRoot)));
    assert!(matches!(assemble_top_component(&analyze(&JsonNode::Null), &params()), Err(GeneratorError::NoRoot)));
}

#[test]
fn scalar_root_is_wired_from_the_top_input() {
    let root = analyze(&JsonNode::Boolean).unwrap();
    let a = assemble(&root, &params());
    assert_eq!(edges(&a), vec!["input -- bool_parser_L1_00_inst.input", "bool_parser_L1_00_inst.output -- output_bool_parser_L1_00_inst"]);
    assert_eq!(a.stream_types, vec![StreamType::Json, StreamType::Bool]);
}

#[test]
fn empty_array_field_promotes_nothing_but_empty_nested_array_does() {
    let a = build(&object(vec![("a", JsonNode::Array(vec![]))]));
    assert_eq!(port_names(&a), vec!["input"]);
    let b = build(&object(vec![("a", JsonNode::Array(vec![JsonNode::Array(vec![])]))]));
    assert_eq!(port_names(&b), vec!["input", "output_array_parser_L2_00_inst"]);
    let out = b.top.get_streams().get_output_streams();
    assert_eq!(out[0].get_type().get_stream_dim().as_ref().unwrap().get_true_value(), 4);
}

#[test]
fn size_counts_keys_and_matchers() {
    let root = analyze(&object(vec![("a", JsonNode::Number), ("b", JsonNode::Null)])).unwrap();
    assert_eq!(component_size(&root), Some(1 + 3 + 2));
}

#[test]
fn entities_use_module_files() {
    let a = build(&object(vec![("a", JsonNode::Str)]));
    for e in &a.entities {
        match e.get_implementation() {
            Some(TilImplementationType::Path(p)) => assert_eq!(p, "./vhdl_dir"),
            _ => panic!("entity without module path"),
        }
    }
    assert_eq!(a.entities[0].get_streams().get_generics().len(), 2);
}
