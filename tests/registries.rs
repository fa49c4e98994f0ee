use schema_til::matcher_manager::{generate_matchers, MatcherCompiler, MatcherManager, MatcherRequest};
use schema_til::name_reg::NameReg;
use schema_til::netlist::{SignalManager, TilInlineImplementation, TilInstance, TilSignal, TilStreamlet};
use schema_til::params::{namespace_from_project_name, validate_project_name, GeneratorError, GeneratorParams};
use schema_til::type_reg::TypeReg;
use schema_til::types::{StreamDim, StreamType, StreamTypeDecl, TilStream, TilStreamDirection, TilStreamingInterface};

#[test]
fn names_count_per_name_and_level() {
    let mut r = NameReg::new();
    assert_eq!(r.register("key_parser", 2), "key_parser_L2_00");
    assert_eq!(r.register("key_parser", 2), "key_parser_L2_01");
    assert_eq!(r.register("key_parser", 3), "key_parser_L3_00");
    assert_eq!(r.register("int_parser", 2), "int_parser_L2_00");
    assert_eq!(r.register("key_parser", 12), "key_parser_L12_00");
}

#[test]
fn counters_pad_to_two_digits_and_grow_past_them() {
    let mut r = NameReg::new();
    let mut last = String::new();
    for _ in 0..11 {
        last = r.register("n", 0);
    }
    assert_eq!(last, "n_L0_10");
    for _ in 0..90 {
        last = r.register("n", 0);
    }
    assert_eq!(last, "n_L0_100");
}

#[test]
fn registering_one_kind_many_times_declares_it_once() {
    let mut t = TypeReg::new();
    assert!(!t.register(StreamType::Int));
    for _ in 0..5 {
        assert!(t.register(StreamType::Int));
    }
    assert_eq!(t.get_stream_types(), vec![StreamType::Int]);
    t.register(StreamType::MatcherStr);
    t.register(StreamType::Json);
    assert_eq!(t.get_stream_types(), vec![StreamType::Json, StreamType::Int, StreamType::MatcherStr]);
}

#[test]
fn project_name_rules() {
    assert_eq!(validate_project_name("schema_parser").ok(), Some("schema_parser".to_string()));
    assert_eq!(validate_project_name("a1"), Ok("a1".to_string()));
    for bad in ["", "a b", "a-b", "a.b", "a__b", "_a", "1a", "a\tb", "x~", "a\u{3000}b", "a\u{a0}b", "a\u{2009}", "\u{85}x"] {
        assert_eq!(validate_project_name(bad), Err(GeneratorError::InvalidProjectName));
    }
}

#[test]
fn namespaces_from_project_name() {
    let (til, comp) = namespace_from_project_name("my_json_parser");
    assert_eq!(til, "my::json::parser");
    assert_eq!(comp, "my_0_json_0_parser");
}

#[test]
fn params_reject_invalid_names() {
    assert!(matches!(GeneratorParams::new(4, 8, 64, "out", "bad name"), Err(GeneratorError::InvalidProjectName)));
    let p = GeneratorParams::new(4, 8, 64, "out", "ok_name").ok().unwrap();
    assert_eq!(p.namespace, "ok::name");
    assert_eq!(p.comp_namespace, "ok_0_name");
    assert_eq!(p.epc, 4);
}

#[test]
fn matchers_are_requested_once_per_literal() {
    let mut m = MatcherManager::new();
    assert!(m.add_matcher("a".to_string(), "a_matcher_L2_00".to_string(), "k0".to_string()));
    assert!(!m.add_matcher("a".to_string(), "a_matcher_L4_00".to_string(), "k1".to_string()));
    assert!(m.add_matcher("b".to_string(), "b_matcher_L2_00".to_string(), "k2".to_string()));
    assert_eq!(m.find(&"a".to_string()).map(|s| s.as_str()), Some("a_matcher_L2_00"));
    assert!(m.find(&"c".to_string()).is_none());
    assert_eq!(m.get_matchers().len(), 2);
}

#[test]
fn stream_dims() {
    let d = StreamDim::new(Some("DIM".to_string()), 3, -1);
    assert_eq!(d.get_true_value(), 2);
    assert_eq!(d.get_additive(), -1);
    assert_eq!(d.get_value(), 3);
    let decl = StreamTypeDecl::new(StreamType::Bool, Some(d));
    assert_eq!(decl.get_name(), "BoolParserStream");
    assert_eq!(StreamType::Json.get_name(), "JSONStream");
    assert_eq!(StreamType::MatcherStr.get_name(), "MatcherStrStream");
}

#[test]
fn instances_get_inst_suffix() {
    let mut i = TilInlineImplementation::new();
    assert_eq!(i.add_instance("x".to_string()), "x_inst");
    assert_eq!(i.get_instances()[0].get_component_name(), "x");
    assert_eq!(i.get_instances()[0].get_instance_name(), "x_inst");
    let t = TilInstance::new("c", "c_inst");
    assert_eq!(t.get_component_name(), "c");
}

fn between(a: &str, b: &str) -> TilSignal {
    TilSignal::Intermediate {
        source_inst_name: a.to_string(),
        source_stream_name: "output".to_string(),
        dest_inst_name: b.to_string(),
        dest_stream_name: "input".to_string(),
    }
}

#[test]
fn signal_manager_sorts_signals() {
    let mut m = SignalManager::new();
    let out = TilSignal::Output {
        source_inst_name: "v".to_string(),
        source_stream_name: "output".to_string(),
        dest_stream_name: "output_v".to_string(),
        output_stream: TilStream::new("output_v", TilStreamDirection::Output, StreamTypeDecl::new(StreamType::Int, None)),
    };
    let input = TilSignal::Input {
        source_stream_name: "input".to_string(),
        dest_inst_name: "k".to_string(),
        dest_stream_name: "input".to_string(),
    };
    m.add_multiple_signals(vec![between("a", "b"), out, input, between("b", "c")]);
    assert_eq!(m.get_intermediate_signals().len(), 2);
    assert_eq!(m.get_output_signals().len(), 1);
    assert_eq!(m.get_intermediate_signals()[1].get_source_inst_name().map(|s| s.as_str()), Some("b"));
    assert!(m.get_output_signals()[0].get_dest_inst_name().is_none());
    let mut i = TilInlineImplementation::new();
    i.add_signal(between("x", "y"));
    i.add_multiple_signals(vec![between("y", "z")]);
    assert_eq!(i.get_signals().len(), 2);
    assert_eq!(i.get_signals()[1].get_dest_inst_name().map(|s| s.as_str()), Some("z"));
}

#[test]
fn streamlet_setters() {
    let mut s = TilStreamlet::new("top");
    assert!(s.get_implementation().is_none());
    let mut i = TilStreamingInterface::new();
    i.add_stream("input", TilStreamDirection::Input, StreamTypeDecl::new(StreamType::Json, None));
    s.set_streaming_interface(i);
    assert_eq!(s.get_streams().get_streams().len(), 1);
    s.set_implementation(schema_til::netlist::TilImplementationType::Path("./vhdl_dir".to_string()));
    assert!(s.get_implementation().is_some());
}

struct Echo {
    calls: Vec<String>,
}

impl MatcherCompiler for Echo {
    fn compile_matcher(&mut self, component_name: &str, holder_name: &str, pattern: &str) -> Result<String, String> {
        self.calls.push(pattern.to_string());
        if pattern == "bad" {
            Err("cannot compile".to_string())
        } else {
            Ok(format!("{}|{}|{}", component_name, holder_name, pattern))
        }
    }
}

fn request(pattern: &str) -> MatcherRequest {
    MatcherRequest {
        pattern: pattern.to_string(),
        component_name: format!("{}_matcher_L2_00", pattern),
        holder_name: "key_parser_L2_00_inst".to_string(),
    }
}

#[test]
fn matchers_are_compiled_in_order() {
    let mut c = Echo { calls: Vec::new() };
    let out = generate_matchers(&mut c, &vec![request("a"), request("b")]).ok().unwrap();
    assert_eq!(out.len(), 2);
    assert_eq!(out[0].0, "a_matcher_L2_00");
    assert_eq!(out[0].1, "a_matcher_L2_00|key_parser_L2_00_inst|a");
    assert_eq!(out[1].0, "b_matcher_L2_00");
    assert_eq!(c.calls, vec!["a", "b"]);
}

#[test]
fn a_failing_matcher_fails_the_compilation() {
    let mut c = Echo { calls: Vec::new() };
    let r = generate_matchers(&mut c, &vec![request("a"), request("bad"), request("c")]);
    assert!(matches!(r, Err(GeneratorError::MatcherGenerationFailed)));
    assert_eq!(c.calls, vec!["a", "bad"]);
}

#[test]
fn no_matchers_means_nothing_to_compile() {
    let mut c = Echo { calls: Vec::new() };
    let out = generate_matchers(&mut c, &Vec::new()).ok().unwrap();
    assert!(out.is_empty());
    assert!(c.calls.is_empty());
}

#[test]
fn unicode_letters_are_allowed_in_project_names() {
    assert_eq!(validate_project_name("caf\u{e9}"), Ok("caf\u{e9}".to_string()));
}
