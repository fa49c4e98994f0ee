use schema_til::analyzer::{analyze, analyze_element, document_depth, JsonNode};
use schema_til::components::{JsonComponent, JsonType, TemplateType};
use schema_til::params::GeneratorParams;
use schema_til::types::{GenericType, StreamType, TilStreamDirection};

fn object(fields: Vec<(&str, JsonNode)>) -> JsonNode {
    JsonNode::Object(fields.into_iter().map(|(k, v)| (k.to_string(), v)).collect())
}

fn params() -> GeneratorParams {
    GeneratorParams::new(4, 8, 64, "output", "schema_parser").ok().unwrap()
}

#[test]
fn array_of_integers_has_one_dimension() {
    let doc = JsonNode::Array(vec![JsonNode::Number, JsonNode::Number, JsonNode::Number]);
    let (c, inner) = analyze_element(&doc, 0, 0);
    assert_eq!(inner, 1);
    match c {
        Some(JsonComponent::Array(a)) => {
            assert_eq!(a.outer_nested, 1);
            assert_eq!(a.inner_nested, 0);
            assert_eq!(inner, a.inner_nested + 1);
            match a.value.as_deref() {
                Some(JsonComponent::Value(v)) => {
                    assert_eq!(v.data_type, JsonType::Integer);
                    assert_eq!(v.outer_nested, 2);
                }
                _ => panic!("element is not an integer value"),
            }
        }
        _ => panic!("not an array"),
    }
}

#[test]
fn empty_array_yields_nothing_and_one_more_level() {
    let (c, inner) = analyze_element(&JsonNode::Array(vec![]), 5, 3);
    assert!(c.is_none());
    assert_eq!(inner, 4);
}

#[test]
fn null_yields_nothing_and_same_level() {
    let (c, inner) = analyze_element(&JsonNode::Null, 2, 7);
    assert!(c.is_none());
    assert_eq!(inner, 7);
}

#[test]
fn scalars_and_their_levels() {
    let (s, _) = analyze_element(&JsonNode::Str, 3, 0);
    let (n, _) = analyze_element(&JsonNode::Number, 3, 0);
    let (b, _) = analyze_element(&JsonNode::Boolean, 3, 0);
    match (s, n, b) {
        (Some(JsonComponent::Value(s)), Some(JsonComponent::Value(n)), Some(JsonComponent::Value(b))) => {
            assert_eq!((s.data_type, s.outer_nested), (JsonType::String, 3));
            assert_eq!((n.data_type, n.outer_nested), (JsonType::Integer, 4));
            assert_eq!((b.data_type, b.outer_nested), (JsonType::Boolean, 4));
        }
        _ => panic!("scalars must yield values"),
    }
}

#[test]
fn object_fields_become_keys() {
    let doc = object(vec![
        ("a", JsonNode::Number),
        ("b", JsonNode::Array(vec![JsonNode::Array(vec![JsonNode::Str])])),
        ("c", JsonNode::Null),
    ]);
    let (c, inner) = analyze_element(&doc, 0, 0);
    assert_eq!(inner, 3);
    match c {
        Some(JsonComponent::Record(r)) => {
            assert_eq!(r.outer_nested, 1);
            assert_eq!(r.inner_nested, 2);
            assert_eq!(r.keys.len(), 3);
            assert_eq!(r.keys[0].matcher.get_matcher(), "a");
            assert_eq!(r.keys[1].matcher.get_matcher(), "b");
            assert_eq!(r.keys[2].matcher.get_matcher(), "c");
            for k in &r.keys {
                assert_eq!(k.outer_nested, 2);
                assert_eq!(k.matcher.outer_nested, 2);
                assert!(k.outer_nested <= r.outer_nested + 1);
            }
            assert!(r.keys[0].value.is_some());
            assert!(r.keys[2].value.is_none());
        }
        _ => panic!("not a record"),
    }
}

#[test]
fn null_field_gives_key_without_value() {
    let doc = object(vec![("a", JsonNode::Null)]);
    match analyze(&doc) {
        Some(JsonComponent::Record(r)) => {
            assert_eq!(r.keys.len(), 1);
            assert!(r.keys[0].value.is_none());
            let k = JsonComponent::Key(r.keys.into_iter().next().unwrap());
            assert_eq!(k.num_outgoing_signals(), 1);
        }
        _ => panic!("not a record"),
    }
}

#[test]
fn empty_object_is_a_record_without_keys() {
    let (c, inner) = analyze_element(&JsonNode::Object(vec![]), 0, 0);
    assert_eq!(inner, 1);
    match c {
        Some(JsonComponent::Record(r)) => {
            assert_eq!(r.keys.len(), 0);
            assert_eq!(r.inner_nested, 0);
        }
        _ => panic!("not a record"),
    }
}

#[test]
fn array_child_nesting_does_not_decrease() {
    let doc = JsonNode::Array(vec![JsonNode::Str]);
    match analyze(&doc) {
        Some(JsonComponent::Array(a)) => match a.value.as_deref() {
            Some(JsonComponent::Value(v)) => assert!(v.outer_nested >= a.outer_nested),
            _ => panic!("no element"),
        },
        _ => panic!("not an array"),
    }
}

#[test]
fn scalar_root_analyzes_to_a_value_and_null_root_to_nothing() {
    assert!(matches!(analyze(&JsonNode::Number), Some(JsonComponent::Value(_))));
    assert!(analyze(&JsonNode::Null).is_none());
}

#[test]
fn depth_follows_first_items_and_all_fields() {
    assert_eq!(document_depth(&JsonNode::Number), Some(0));
    assert_eq!(document_depth(&JsonNode::Array(vec![])), Some(1));
    let doc = object(vec![
        ("a", JsonNode::Number),
        ("b", JsonNode::Array(vec![JsonNode::Array(vec![JsonNode::Str])])),
    ]);
    assert_eq!(document_depth(&doc), Some(3));
}

#[test]
fn value_interfaces() {
    let p = params();
    let int = JsonComponent::Value(schema_til::components::Value::new(JsonType::Integer, 2));
    let i = int.get_streaming_interface(&p);
    let g = i.get_generics();
    assert_eq!(g.len(), 4);
    assert_eq!(g[0].get_name(), "EPC");
    assert_eq!(*g[0].get_type(), GenericType::Positive(4));
    assert_eq!(g[1].get_name(), "DIM");
    assert_eq!(*g[1].get_type(), GenericType::Dimensionality(3));
    assert_eq!(g[2].get_name(), "NESTING_LEVEL");
    assert_eq!(*g[2].get_type(), GenericType::Positive(2));
    assert_eq!(g[3].get_name(), "BITWIDTH");
    assert_eq!(*g[3].get_type(), GenericType::Positive(64));
    let s = i.get_streams();
    assert_eq!(s.len(), 2);
    assert_eq!(s[0].get_name(), "input");
    assert_eq!(s[0].get_direction(), TilStreamDirection::Input);
    assert_eq!(s[0].get_type().get_stream_type(), StreamType::Json);
    let d = s[0].get_type().get_stream_dim().as_ref().unwrap();
    assert_eq!(d.get_name().as_deref(), Some("DIM"));
    assert_eq!(d.get_value(), 3);
    assert_eq!(d.get_additive(), 0);
    assert_eq!(s[1].get_name(), "output");
    assert_eq!(s[1].get_type().get_stream_type(), StreamType::Int);
    assert_eq!(s[1].get_type().get_stream_dim().as_ref().unwrap().get_true_value(), 0);
    assert_eq!(int.get_streaming_types(), vec![StreamType::Json, StreamType::Int]);
    assert_eq!(int.get_file_type(), TemplateType::Int);
    assert_eq!(int.get_preferred_name(), "int_parser");
    assert_eq!(int.num_outgoing_signals(), 0);
}

#[test]
fn key_and_matcher_interfaces() {
    let p = params();
    let m = schema_til::components::Matcher::new("name".to_string(), 2);
    let k = JsonComponent::Key(schema_til::components::Key::new(m, 2, None));
    let i = k.get_streaming_interface(&p);
    let names: Vec<&str> = i.get_streams().iter().map(|s| s.get_name()).collect();
    assert_eq!(names, vec!["input", "matcher_str", "matcher_match", "output"]);
    assert_eq!(i.get_input_streams().len(), 2);
    assert_eq!(i.get_output_streams().len(), 2);
    assert_eq!(i.get_output_streams()[0].get_name(), "matcher_str");
    assert_eq!(i.get_streams()[0].get_type().get_name(), "RecordParserStream");
    let dim = i.get_streams()[3].get_type().get_stream_dim().as_ref().unwrap();
    assert_eq!(dim.get_true_value(), 3);
    assert_eq!(
        k.get_streaming_types(),
        vec![StreamType::Record, StreamType::MatcherStr, StreamType::MatcherMatch, StreamType::Json]
    );
    let matcher = JsonComponent::Matcher(schema_til::components::Matcher::new("name".to_string(), 2));
    assert_eq!(matcher.get_preferred_name(), "name_matcher");
    let mi = matcher.get_streaming_interface(&p);
    assert_eq!(mi.get_generics().len(), 1);
    assert!(mi.get_streams()[0].get_type().get_stream_dim().is_none());
    assert_eq!(mi.get_streams()[1].get_type().get_name(), "MatcherMatchStream");
}

#[test]
fn array_interface_has_one_more_output_dimension() {
    let p = params();
    let a = JsonComponent::Array(schema_til::components::Array::new(1, 0, None));
    let i = a.get_streaming_interface(&p);
    let s = i.get_streams();
    let din = s[0].get_type().get_stream_dim().as_ref().unwrap().get_true_value();
    let dout = s[1].get_type().get_stream_dim().as_ref().unwrap().get_true_value();
    assert_eq!(din, 2);
    assert_eq!(dout, 3);
    assert_eq!(a.num_outgoing_signals(), 0);
    assert_eq!(a.get_output_type().get_stream_dim().as_ref().unwrap().get_true_value(), 3);
}
