use schema_til::analyzer::{analyze, JsonNode};
use schema_til::assembly::assemble;
use schema_til::components::TemplateType;
use schema_til::file_manager::{file_from_template, is_ascii_text, module_file_name};
use schema_til::netlist::{TilImplementationType, TilInlineImplementation, TilInstance, TilSignal, TilStreamlet};
use schema_til::params::GeneratorParams;
use schema_til::render::{generate_close_namespace, generate_namespace_def, generate_til};
use schema_til::types::{
    Generic, GenericType, StreamDim, StreamType, StreamTypeDecl, TilStream, TilStreamDirection, TilStreamingInterface,
};

fn params() -> GeneratorParams {
    GeneratorParams::new(4, 8, 64, "output", "schema_parser").ok().unwrap()
}

#[test]
fn dimension_text() {
    assert_eq!(StreamDim::new(Some("DIM".to_string()), 3, 1).to_text(), "<DIM+1>");
    assert_eq!(StreamDim::new(Some("DIM".to_string()), 3, -1).to_text(), "<DIM-1>");
    assert_eq!(StreamDim::new(Some("DIM".to_string()), 3, 0).to_text(), "<DIM>");
    assert_eq!(StreamDim::new(None, 3, -1).to_text(), "<2>");
    assert_eq!(StreamDim::new(None, 12, 2).to_text(), "<14>");
}

#[test]
fn port_text_in_both_languages() {
    let dim = StreamDim::new(Some("DIM".to_string()), 2, 0);
    let s = TilStream::new("input", TilStreamDirection::Input, StreamTypeDecl::new(StreamType::Json, Some(dim)));
    assert_eq!(s.to_text(), "input: in JSONStream<DIM>");
    assert_eq!(s.td(), "input: t<DIM>.JSONStream in;");
    let m = TilStream::new("m", TilStreamDirection::Output, StreamTypeDecl::new(StreamType::MatcherStr, None));
    assert_eq!(m.to_text(), "m: out MatcherStrStream");
    assert_eq!(m.td(), "m: t<0>.MatcherStrStream out;");
}

#[test]
fn generic_text_in_both_languages() {
    let g = Generic::new("EPC", GenericType::Positive(4));
    assert_eq!(g.to_text(), "EPC: positive = 4");
    assert_eq!(g.td(), "    EPC = 4;\n");
    let n = Generic::new("X", GenericType::Integer(-3));
    assert_eq!(n.to_text(), "X: integer = -3");
    assert_eq!(n.td(), "    X = -3;\n");
    assert_eq!(Generic::new("D", GenericType::Dimensionality(12)).to_text(), "D: dimensionality = 12");
}

#[test]
fn signal_and_instance_text() {
    let between = TilSignal::Intermediate {
        source_inst_name: "a".to_string(),
        source_stream_name: "output".to_string(),
        dest_inst_name: "b".to_string(),
        dest_stream_name: "input".to_string(),
    };
    assert_eq!(between.to_text(), "a.output -- b.input;");
    assert_eq!(between.td(), "    a.output => b.input;");
    let input = TilSignal::Input {
        source_stream_name: "input".to_string(),
        dest_inst_name: "k".to_string(),
        dest_stream_name: "input".to_string(),
    };
    assert_eq!(input.to_text(), "input -- k.input;");
    assert_eq!(input.td(), "self.input => k.input;");
    let out = TilSignal::Output {
        source_inst_name: "v".to_string(),
        source_stream_name: "output".to_string(),
        dest_stream_name: "output_v".to_string(),
        output_stream: TilStream::new("output_v", TilStreamDirection::Output, StreamTypeDecl::new(StreamType::Int, None)),
    };
    assert_eq!(out.td(), "    v.output => self.output_v;");
    let i = TilInstance::new("x", "x_inst");
    assert_eq!(i.to_text(), "x_inst = x;");
    assert_eq!(i.td(), "    instance x_inst(x_impl);");
}

#[test]
fn implementation_text() {
    let p = TilImplementationType::Path("./vhdl_dir".to_string());
    assert_eq!(p.to_text(), "{\n    impl: \"./vhdl_dir\"\n}");
    assert_eq!(p.td("top".to_string()), "\n\nimpl top_impl of top @External { }");
    let mut b = TilInlineImplementation::new();
    b.add_instance("x".to_string());
    b.add_signal(TilSignal::Input {
        source_stream_name: "input".to_string(),
        dest_inst_name: "x_inst".to_string(),
        dest_stream_name: "input".to_string(),
    });
    let inline = TilImplementationType::Inline(b);
    assert_eq!(inline.to_text(), "{\n    impl: {\n        x_inst = x;\n\ninput -- x_inst.input;\n\n    }\n}");
    assert_eq!(
        inline.td("top".to_string()),
        "\n\nimpl top_impl of top {\n    instance x_inst(x_impl);\n\n    self.input => x_inst.input;\n}"
    );
}

#[test]
fn streamlet_text_in_both_languages() {
    let mut s = TilStreamlet::new("m");
    let mut i = TilStreamingInterface::new();
    i.add_generic(Generic::new("EPC", GenericType::Positive(4)));
    i.add_stream("input", TilStreamDirection::Input, StreamTypeDecl::new(StreamType::MatcherStr, None));
    s.set_streaming_interface(i);
    s.set_implementation(TilImplementationType::Path("./vhdl_dir".to_string()));
    assert_eq!(
        s.to_text(),
        "streamlet m = <\nEPC: positive = 4,\n\n> (\n        input: in MatcherStrStream,\n\n){\n    impl: \"./vhdl_dir\"\n};"
    );
    assert_eq!(
        s.td(),
        "streamlet m {\n    EPC = 4;\n\n    input: t<0>.MatcherStrStream in;\n}\n\nimpl m_impl of m @External { }"
    );
}

#[test]
fn type_declarations() {
    let p = params();
    assert_eq!(
        StreamType::Json.get_type_def_string(&p),
        "type JSONStream<d: dimensionality = 2> = Stream (\n    data: Bits(8),\n    throughput: 4,\n    dimensionality: d,\n    synchronicity: Sync,\n    complexity: 8,\n);\n\n"
    );
    assert_eq!(
        StreamType::MatcherMatch.get_td_type_def_string(&p),
        "\nMatcherMatchStream = Stream(\n    Bit(1),\n    throughput = 4.0,\n    dimension = 1,\n    synchronicity = \"Sync\",\n    complexity = 8\n);\n"
    );
    let r = StreamType::Record.get_type_params(8, 4, 64);
    assert_eq!(r.data_bits, 9);
    assert_eq!(r.throughput, 4);
    assert_eq!(StreamType::Int.get_type_params(8, 4, 32).data_bits, 32);
    assert_eq!(r.td(), "Stream(\n    Bit(9),\n    throughput = 4.0,\n    dimension = d,\n    synchronicity = \"Sync\",\n    complexity = 8\n)");
}

#[test]
fn whole_netlist_text() {
    assert_eq!(generate_namespace_def("a::b"), "namespace a::b {\n    ");
    assert_eq!(generate_close_namespace(), "\n}");
    let doc = JsonNode::Object(vec![("a".to_string(), JsonNode::Number)]);
    let root = analyze(&doc).unwrap();
    let p = params();
    let a = assemble(&root, &p);
    let til = generate_til(&p, &a);
    assert!(til.starts_with("namespace schema::parser {\n    type JSONStream<d: dimensionality = 2> = Stream ("));
    assert!(til.ends_with("\n}"));
    assert!(til.contains(
        "streamlet top =  (\n        input: in JSONStream<2>,\n    output_int_parser_L2_00_inst: out IntParserStream<0>,\n\n){\n    impl: {\n        key_parser_L2_00_inst = key_parser_L2_00;\n"
    ));
    assert!(til.contains("input -- key_parser_L2_00_inst.input;\n"));
    assert!(til.contains("int_parser_L2_00_inst.output -- output_int_parser_L2_00_inst;\n"));
    assert!(til.contains("streamlet a_matcher_L2_00 = <\nEPC: positive = 4,\n\n> (\n"));
}

#[test]
fn module_files_from_templates() {
    let p = params();
    assert_eq!(
        file_from_template("entity ${comp_name} is -- ${bit_width} ${namespace} ${project_name}", "x_L1_00", &p),
        "entity x_L1_00 is -- 8 schema_0_parser schema_parser"
    );
    assert_eq!(file_from_template("${ comp_name }!", "k", &p), " k !");
    assert_eq!(file_from_template("${unknown}rest", "k", &p), "rest");
    assert_eq!(file_from_template("no placeholders", "k", &p), "no placeholders");
    assert_eq!(module_file_name("schema_0_parser", "key_parser_L2_00"), "schema_0_parser_0_key_parser_L2_00.vhd");
    assert_eq!(TemplateType::Key.template_file_name(), Some("key_parser.vhd"));
    assert_eq!(TemplateType::Array.template_file_name(), Some("array_parser.vhd"));
    assert_eq!(TemplateType::Matcher.template_file_name(), None);
    assert_eq!(TemplateType::Bool.template_file_name(), None);
}

#[test]
fn graph_labels() {
    let doc = JsonNode::Object(vec![(
        "v".to_string(),
        JsonNode::Array(vec![JsonNode::Boolean]),
    )]);
    match analyze(&doc).unwrap() {
        schema_til::components::JsonComponent::Record(r) => {
            let rec = schema_til::components::JsonComponent::Record(r);
            assert_eq!(rec.to_graph_node(), "Record parser\nO: 1, I: 1");
            if let schema_til::components::JsonComponent::Record(r) = &rec {
                let k = &r.keys[0];
                assert_eq!(k.to_graph_node(), "Key filter\nO: 2");
                assert_eq!(k.matcher.to_graph_node(), "Regex matcher\n\"v\"");
                let arr = k.value.as_deref().unwrap();
                assert_eq!(arr.to_graph_node(), "Array parser\nO: 2, I: 0");
                if let schema_til::components::JsonComponent::Array(a) = arr {
                    assert_eq!(a.value.as_deref().unwrap().to_graph_node(), "Boolean parser\nO: 3");
                }
            }
        }
        _ => panic!("not a record"),
    }
}

#[test]
fn template_text_must_be_ascii() {
    assert!(is_ascii_text("entity ${comp_name} is"));
    assert!(is_ascii_text(""));
    assert!(!is_ascii_text("${\u{a0}x}"));
    assert!(!is_ascii_text("${x\u{3000}}"));
}
