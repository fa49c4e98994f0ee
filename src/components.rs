//! The component tree and the interface each kind of component exposes.
use vstd::prelude::*;
use crate::types::{
    StreamType, StreamDim, StreamTypeDecl, TilStreamDirection, Generic, GenericType,
    TilStreamingInterface, DimModel, TypeDeclModel, GenericModel, StreamModel, InterfaceModel,
};
use crate::params::GeneratorParams;
use crate::text::{dec, push_decimal};

verus! {

#[derive(Clone, Copy, PartialEq, Eq, Structural, Debug)]
pub enum JsonType {
    String,
    Integer,
    Boolean,
}

/// A scalar leaf.
pub struct Value {
    pub data_type: JsonType,
    pub outer_nested: usize,
}

/// An array, described by its first element.
pub struct Array {
    pub outer_nested: usize,
    pub inner_nested: usize,
    pub value: Option<Box<JsonComponent>>,
}

/// An object; only its keys are instantiated.
pub struct Record {
    pub outer_nested: usize,
    pub inner_nested: usize,
    pub keys: Vec<Key>,
}

/// One field of an object.
pub struct Key {
    pub matcher: Matcher,
    pub outer_nested: usize,
    pub value: Option<Box<JsonComponent>>,
}

/// The literal field name a key is matched against.
pub struct Matcher {
    pub matcher: String,
    pub outer_nested: usize,
}

pub enum JsonComponent {
    Value(Value),
    Array(Array),
    Record(Record),
    Key(Key),
    Matcher(Matcher),
}

/// The mathematical form of a component tree.
pub enum Shape {
    Value { data_type: JsonType, outer: nat },
    Array { outer: nat, inner: nat, element: Option<Box<Shape>> },
    Record { outer: nat, inner: nat, fields: Seq<Shape> },
    Key { pattern: Seq<char>, matcher_outer: nat, outer: nat, value: Option<Box<Shape>> },
    Matcher { pattern: Seq<char>, outer: nat },
}

pub open spec fn component_shape(c: JsonComponent) -> Shape
    decreases c,
{
    match c {
        JsonComponent::Value(v) => Shape::Value { data_type: v.data_type, outer: v.outer_nested as nat },
        JsonComponent::Array(a) => Shape::Array {
            outer: a.outer_nested as nat,
            inner: a.inner_nested as nat,
            element: opt_shape(a.value),
        },
        JsonComponent::Record(r) => Shape::Record {
            outer: r.outer_nested as nat,
            inner: r.inner_nested as nat,
            fields: keys_shape(r.keys@),
        },
        JsonComponent::Key(k) => key_shape(k),
        JsonComponent::Matcher(m) => Shape::Matcher { pattern: m.matcher@, outer: m.outer_nested as nat },
    }
}

pub open spec fn opt_shape(o: Option<Box<JsonComponent>>) -> Option<Box<Shape>>
    decreases o,
{
    match o {
        Some(b) => Some(Box::new(component_shape(*b))),
        None => None,
    }
}

pub open spec fn key_shape(k: Key) -> Shape
    decreases k,
{
    Shape::Key {
        pattern: k.matcher.matcher@,
        matcher_outer: k.matcher.outer_nested as nat,
        outer: k.outer_nested as nat,
        value: opt_shape(k.value),
    }
}

pub open spec fn keys_shape(s: Seq<Key>) -> Seq<Shape>
    decreases s,
{
    if s.len() == 0 {
        Seq::empty()
    } else {
        keys_shape(s.drop_last()).push(key_shape(s.last()))
    }
}

impl View for JsonComponent {
    type V = Shape;

    open spec fn view(&self) -> Shape {
        component_shape(*self)
    }
}

/// The structural children of a node, in document order: a key's matcher comes
/// before its value.
pub open spec fn shape_children(s: Shape) -> Seq<Shape> {
    match s {
        Shape::Value { .. } => Seq::empty(),
        Shape::Matcher { .. } => Seq::empty(),
        Shape::Array { element, .. } => match element {
            Some(e) => seq![*e],
            None => Seq::empty(),
        },
        Shape::Record { fields, .. } => fields,
        Shape::Key { pattern, matcher_outer, value, .. } => match value {
            Some(v) => seq![Shape::Matcher { pattern, outer: matcher_outer }, *v],
            None => seq![Shape::Matcher { pattern, outer: matcher_outer }],
        },
    }
}

/// The number of nodes of a tree, a key's matcher included.
pub open spec fn shape_size(s: Shape) -> nat
    decreases s,
{
    match s {
        Shape::Value { .. } => 1,
        Shape::Matcher { .. } => 1,
        Shape::Array { element, .. } => match element {
            Some(e) => 1 + shape_size(*e),
            None => 1,
        },
        Shape::Record { fields, .. } => 1 + shapes_size(fields),
        Shape::Key { value, .. } => match value {
            Some(v) => 2 + shape_size(*v),
            None => 2,
        },
    }
}

pub open spec fn shapes_size(s: Seq<Shape>) -> nat
    decreases s,
{
    if s.len() == 0 {
        0
    } else {
        shape_size(s[0]) + shapes_size(s.subrange(1, s.len() as int))
    }
}

/// The nesting level of a node itself.
pub open spec fn shape_level(s: Shape) -> nat {
    match s {
        Shape::Value { outer, .. } => outer,
        Shape::Array { outer, .. } => outer,
        Shape::Record { outer, .. } => outer,
        Shape::Key { outer, .. } => outer,
        Shape::Matcher { outer, .. } => outer,
    }
}

/// Every nesting counter in the tree is at most `m`.
pub open spec fn levels_within(s: Shape, m: nat) -> bool
    decreases s,
{
    match s {
        Shape::Value { outer, .. } => outer <= m,
        Shape::Matcher { outer, .. } => outer <= m,
        Shape::Array { outer, inner, element } => outer <= m && inner <= m && match element {
            Some(e) => levels_within(*e, m),
            None => true,
        },
        Shape::Record { outer, inner, fields } => outer <= m && inner <= m && all_levels_within(fields, m),
        Shape::Key { matcher_outer, outer, value, .. } => matcher_outer <= m && outer <= m && match value {
            Some(v) => levels_within(*v, m),
            None => true,
        },
    }
}

pub open spec fn all_levels_within(s: Seq<Shape>, m: nat) -> bool
    decreases s,
{
    if s.len() == 0 {
        true
    } else {
        all_levels_within(s.drop_last(), m) && levels_within(s.last(), m)
    }
}

/// Whether the node becomes an instance of its own (records do not).
pub open spec fn shape_generatable(s: Shape) -> bool {
    !(s is Record)
}

/// The name a node asks the name registry for.
pub open spec fn shape_preferred_name(s: Shape) -> Seq<char> {
    match s {
        Shape::Value { data_type, .. } => match data_type {
            JsonType::String => "string_parser"@,
            JsonType::Integer => "int_parser"@,
            JsonType::Boolean => "bool_parser"@,
        },
        Shape::Array { .. } => "array_parser"@,
        Shape::Record { .. } => "record_parser"@,
        Shape::Key { .. } => "key_parser"@,
        Shape::Matcher { pattern, .. } => pattern + "_matcher"@,
    }
}

/// How many signals leave the node toward other instances; a generatable node
/// with none is promoted to a top-level output.
pub open spec fn shape_num_outgoing(s: Shape) -> nat {
    match s {
        Shape::Value { .. } => 0,
        Shape::Array { element, .. } => if element is Some { 1 } else { 0 },
        Shape::Record { fields, .. } => fields.len(),
        Shape::Key { value, .. } => if value is Some { 2 } else { 1 },
        Shape::Matcher { .. } => 1,
    }
}

/// The stream-type kinds a node's interface uses.
pub open spec fn shape_stream_types(s: Shape) -> Seq<StreamType> {
    match s {
        Shape::Value { data_type, .. } => match data_type {
            JsonType::String => seq![StreamType::Json],
            JsonType::Integer => seq![StreamType::Json, StreamType::Int],
            JsonType::Boolean => seq![StreamType::Json, StreamType::Bool],
        },
        Shape::Array { .. } => seq![StreamType::Json],
        Shape::Record { .. } => Seq::empty(),
        Shape::Key { .. } => seq![StreamType::Record, StreamType::MatcherStr, StreamType::MatcherMatch, StreamType::Json],
        Shape::Matcher { .. } => seq![StreamType::MatcherStr, StreamType::MatcherMatch],
    }
}

pub open spec fn gen_model(name: Seq<char>, t: GenericType) -> GenericModel {
    GenericModel { name, generic_type: t }
}

pub open spec fn port(name: Seq<char>, d: TilStreamDirection, t: StreamType, dim: Option<DimModel>) -> StreamModel {
    StreamModel { name, direction: d, stream_type: TypeDeclModel { stream_type: t, dim } }
}

pub open spec fn named_dim(name: Seq<char>, value: nat, additive: int) -> Option<DimModel> {
    Some(DimModel { name: Some(name), value, additive })
}

pub open spec fn fixed_dim(value: nat, additive: int) -> Option<DimModel> {
    Some(DimModel { name: None, value, additive })
}

/// The generics and ports of a node's streamlet.
pub open spec fn shape_interface(s: Shape, epc: nat, int_width: nat) -> InterfaceModel {
    let epc_g = gen_model("EPC"@, GenericType::Positive(epc as usize));
    match s {
        Shape::Value { data_type, outer } => {
            let base = seq![
                epc_g,
                gen_model("DIM"@, GenericType::Dimensionality((outer + 1) as usize)),
                gen_model("NESTING_LEVEL"@, GenericType::Positive(outer as usize)),
            ];
            let input = port("input"@, TilStreamDirection::Input, StreamType::Json, named_dim("DIM"@, outer + 1, 0));
            match data_type {
                JsonType::String => InterfaceModel {
                    generics: base,
                    streams: seq![
                        input,
                        port("output"@, TilStreamDirection::Output, StreamType::Json, named_dim("DIM"@, outer + 1, 0)),
                    ],
                },
                JsonType::Integer => InterfaceModel {
                    generics: base.push(gen_model("BITWIDTH"@, GenericType::Positive(int_width as usize))),
                    streams: seq![input, port("output"@, TilStreamDirection::Output, StreamType::Int, fixed_dim(0, 0))],
                },
                JsonType::Boolean => InterfaceModel {
                    generics: base,
                    streams: seq![input, port("output"@, TilStreamDirection::Output, StreamType::Bool, fixed_dim(0, 0))],
                },
            }
        },
        Shape::Array { outer, inner, .. } => InterfaceModel {
            generics: seq![
                epc_g,
                gen_model("DIM"@, GenericType::Dimensionality((outer + 1) as usize)),
                gen_model("OUTER_NESTING_LEVEL"@, GenericType::Natural(outer as usize)),
                gen_model("INNER_NESTING_LEVEL"@, GenericType::Natural(inner as usize)),
            ],
            streams: seq![
                port("input"@, TilStreamDirection::Input, StreamType::Json, named_dim("DIM"@, outer + 1, 0)),
                port("output"@, TilStreamDirection::Output, StreamType::Json, named_dim("DIM"@, outer + 1, 1)),
            ],
        },
        Shape::Record { .. } => InterfaceModel { generics: Seq::empty(), streams: Seq::empty() },
        Shape::Key { outer, .. } => InterfaceModel {
            generics: seq![epc_g, gen_model("OUTER_NESTING_LEVEL"@, GenericType::Dimensionality(outer as usize))],
            streams: seq![
                port("input"@, TilStreamDirection::Input, StreamType::Record, named_dim("OUTER_NESTING_LEVEL"@, outer, 1)),
                port("matcher_str"@, TilStreamDirection::Output, StreamType::MatcherStr, None),
                port("matcher_match"@, TilStreamDirection::Input, StreamType::MatcherMatch, None),
                port("output"@, TilStreamDirection::Output, StreamType::Json, named_dim("OUTER_NESTING_LEVEL"@, outer, 1)),
            ],
        },
        Shape::Matcher { .. } => InterfaceModel {
            generics: seq![epc_g],
            streams: seq![
                port("input"@, TilStreamDirection::Input, StreamType::MatcherStr, None),
                port("output"@, TilStreamDirection::Output, StreamType::MatcherMatch, None),
            ],
        },
    }
}

/// The type of the top-level port a promoted node's output is exposed on.
pub open spec fn shape_output_type(s: Shape) -> TypeDeclModel {
    match s {
        Shape::Value { data_type, outer } => match data_type {
            JsonType::String => TypeDeclModel { stream_type: StreamType::Json, dim: fixed_dim(outer, 1) },
            JsonType::Integer => TypeDeclModel { stream_type: StreamType::Int, dim: fixed_dim(0, 0) },
            JsonType::Boolean => TypeDeclModel { stream_type: StreamType::Bool, dim: fixed_dim(0, 0) },
        },
        Shape::Array { outer, .. } => TypeDeclModel { stream_type: StreamType::Json, dim: fixed_dim(outer, 2) },
        _ => TypeDeclModel { stream_type: StreamType::Json, dim: fixed_dim(shape_level(s), 1) },
    }
}

/// The module template a node's streamlet is generated from.
pub open spec fn shape_template(s: Shape) -> TemplateType {
    match s {
        Shape::Value { data_type, .. } => match data_type {
            JsonType::String => TemplateType::String,
            JsonType::Integer => TemplateType::Int,
            JsonType::Boolean => TemplateType::Bool,
        },
        Shape::Array { .. } => TemplateType::Array,
        Shape::Record { .. } => TemplateType::Record,
        Shape::Key { .. } => TemplateType::Key,
        Shape::Matcher { .. } => TemplateType::Matcher,
    }
}

/// The kinds of module template a streamlet is generated from.
#[derive(Clone, Copy, PartialEq, Eq, Structural, Debug)]
pub enum TemplateType {
    Array,
    Int,
    Bool,
    Record,
    Key,
    String,
    Matcher,
}

impl Value {
    pub fn new(data_type: JsonType, outer_nested: usize) -> (r: Value)
        ensures
            r.data_type == data_type,
            r.outer_nested == outer_nested,
    {
        Value { data_type, outer_nested }
    }
}

impl Array {
    pub fn new(outer_nested: usize, inner_nested: usize, value: Option<Box<JsonComponent>>) -> (r: Array)
        ensures
            r.outer_nested == outer_nested,
            r.inner_nested == inner_nested,
            r.value == value,
    {
        Array { outer_nested, inner_nested, value }
    }
}

impl Record {
    pub fn new(outer_nested: usize, inner_nested: usize, keys: Vec<Key>) -> (r: Record)
        ensures
            r.outer_nested == outer_nested,
            r.inner_nested == inner_nested,
            r.keys == keys,
    {
        Record { outer_nested, inner_nested, keys }
    }
}

impl Key {
    pub fn new(matcher: Matcher, outer_nested: usize, value: Option<Box<JsonComponent>>) -> (r: Key)
        ensures
            r.matcher == matcher,
            r.outer_nested == outer_nested,
            r.value == value,
    {
        Key { matcher, outer_nested, value }
    }

    /// The stream-type kinds the key's interface uses.
    pub fn get_streaming_types(&self) -> (r: Vec<StreamType>)
        ensures
            r@ == shape_stream_types(key_shape(*self)),
    {
        let r = vec![StreamType::Record, StreamType::MatcherStr, StreamType::MatcherMatch, StreamType::Json];
        assert(r@ =~= shape_stream_types(key_shape(*self)));
        r
    }

    /// The generics and ports of the key's streamlet.
    pub fn get_streaming_interface(&self, gen_params: &GeneratorParams) -> (r: TilStreamingInterface)
        ensures
            r@ == shape_interface(key_shape(*self), gen_params.epc as nat, gen_params.int_width as nat),
    {
        let mut interface = TilStreamingInterface::new();
        let o = self.outer_nested;
        interface.add_generic(Generic::new("EPC", GenericType::Positive(gen_params.epc)));
        interface.add_generic(Generic::new("OUTER_NESTING_LEVEL", GenericType::Dimensionality(o)));
        interface.add_stream(
            "input",
            TilStreamDirection::Input,
            dim_decl(StreamType::Record, "OUTER_NESTING_LEVEL", o, 1),
        );
        interface.add_stream(
            "matcher_str",
            TilStreamDirection::Output,
            StreamTypeDecl::new(StreamType::MatcherStr, None),
        );
        interface.add_stream(
            "matcher_match",
            TilStreamDirection::Input,
            StreamTypeDecl::new(StreamType::MatcherMatch, None),
        );
        interface.add_stream("output", TilStreamDirection::Output, dim_decl(StreamType::Json, "OUTER_NESTING_LEVEL", o, 1));
        let ghost want = shape_interface(key_shape(*self), gen_params.epc as nat, gen_params.int_width as nat);
        assert(interface@.generics =~= want.generics);
        assert(interface@.streams =~= want.streams);
        interface
    }
}

impl Matcher {
    pub fn new(matcher: String, outer_nested: usize) -> (r: Matcher)
        ensures
            r.matcher == matcher,
            r.outer_nested == outer_nested,
    {
        Matcher { matcher, outer_nested }
    }

    /// The literal the matcher compares field names against.
    pub fn get_matcher(&self) -> (r: &str)
        ensures
            r@ == self.matcher@,
    {
        self.matcher.as_str()
    }

    /// The shape of the matcher.
    pub open spec fn shape(&self) -> Shape {
        Shape::Matcher { pattern: self.matcher@, outer: self.outer_nested as nat }
    }

    /// The name the matcher asks the name registry for: `"{literal}_matcher"`.
    pub fn get_preferred_name(&self) -> (r: String)
        ensures
            r@ == shape_preferred_name(self.shape()),
    {
        let mut r = self.matcher.clone();
        r.append("_matcher");
        r
    }

    /// The stream-type kinds the matcher's interface uses.
    pub fn get_streaming_types(&self) -> (r: Vec<StreamType>)
        ensures
            r@ == shape_stream_types(self.shape()),
    {
        let r = vec![StreamType::MatcherStr, StreamType::MatcherMatch];
        assert(r@ =~= shape_stream_types(self.shape()));
        r
    }

    /// The generics and ports of the matcher's streamlet.
    pub fn get_streaming_interface(&self, gen_params: &GeneratorParams) -> (r: TilStreamingInterface)
        ensures
            r@ == shape_interface(self.shape(), gen_params.epc as nat, gen_params.int_width as nat),
    {
        let mut interface = TilStreamingInterface::new();
        interface.add_generic(Generic::new("EPC", GenericType::Positive(gen_params.epc)));
        interface.add_stream("input", TilStreamDirection::Input, StreamTypeDecl::new(StreamType::MatcherStr, None));
        interface.add_stream("output", TilStreamDirection::Output, StreamTypeDecl::new(StreamType::MatcherMatch, None));
        let ghost want = shape_interface(self.shape(), gen_params.epc as nat, gen_params.int_width as nat);
        assert(interface@.generics =~= want.generics);
        assert(interface@.streams =~= want.streams);
        interface
    }
}

fn dim_decl(t: StreamType, name: &str, value: usize, additive: isize) -> (r: StreamTypeDecl)
    ensures
        r@ == (TypeDeclModel { stream_type: t, dim: named_dim(name@, value as nat, additive as int) }),
{
    StreamTypeDecl::new(t, Some(StreamDim::new(Some(String::from_str(name)), value, additive)))
}

fn fixed_decl(t: StreamType, value: usize, additive: isize) -> (r: StreamTypeDecl)
    ensures
        r@ == (TypeDeclModel { stream_type: t, dim: fixed_dim(value as nat, additive as int) }),
{
    StreamTypeDecl::new(t, Some(StreamDim::new(None, value, additive)))
}

impl JsonComponent {
    /// Whether the component becomes an instance of its own.
    pub fn is_generatable(&self) -> (r: bool)
        ensures
            r == shape_generatable(self@),
    {
        !matches!(self, JsonComponent::Record(_))
    }

    /// The nesting level of the component itself.
    pub fn get_nesting_level(&self) -> (r: usize)
        ensures
            r as nat == shape_level(self@),
    {
        match self {
            JsonComponent::Value(v) => v.outer_nested,
            JsonComponent::Array(a) => a.outer_nested,
            JsonComponent::Record(r) => r.outer_nested,
            JsonComponent::Key(k) => k.outer_nested,
            JsonComponent::Matcher(m) => m.outer_nested,
        }
    }

    /// The name the component asks the name registry for.
    pub fn get_preferred_name(&self) -> (r: String)
        ensures
            r@ == shape_preferred_name(self@),
    {
        match self {
            JsonComponent::Value(v) => match v.data_type {
                JsonType::String => String::from_str("string_parser"),
                JsonType::Integer => String::from_str("int_parser"),
                JsonType::Boolean => String::from_str("bool_parser"),
            },
            JsonComponent::Array(_) => String::from_str("array_parser"),
            JsonComponent::Record(_) => String::from_str("record_parser"),
            JsonComponent::Key(_) => String::from_str("key_parser"),
            JsonComponent::Matcher(m) => m.get_preferred_name(),
        }
    }

    /// How many signals leave the component toward other instances.
    pub fn num_outgoing_signals(&self) -> (r: usize)
        ensures
            r as nat == shape_num_outgoing(self@),
    {
        match self {
            JsonComponent::Value(_) => 0,
            JsonComponent::Array(a) => {
                if a.value.is_some() {
                    assert(opt_shape(a.value) is Some);
                    1
                } else {
                    0
                }
            },
            JsonComponent::Record(r) => {
                proof {
                    lemma_keys_shape_len(r.keys@);
                }
                r.keys.len()
            },
            JsonComponent::Key(k) => {
                if k.value.is_some() {
                    assert(opt_shape(k.value) is Some);
                    2
                } else {
                    1
                }
            },
            JsonComponent::Matcher(_) => 1,
        }
    }

    /// The stream-type kinds the component's interface uses.
    pub fn get_streaming_types(&self) -> (r: Vec<StreamType>)
        ensures
            r@ == shape_stream_types(self@),
    {
        let r = match self {
            JsonComponent::Value(v) => match v.data_type {
                JsonType::String => vec![StreamType::Json],
                JsonType::Integer => vec![StreamType::Json, StreamType::Int],
                JsonType::Boolean => vec![StreamType::Json, StreamType::Bool],
            },
            JsonComponent::Array(_) => vec![StreamType::Json],
            JsonComponent::Record(_) => Vec::new(),
            JsonComponent::Key(k) => k.get_streaming_types(),
            JsonComponent::Matcher(m) => m.get_streaming_types(),
        };
        assert(r@ =~= shape_stream_types(self@));
        r
    }

    /// The module template of the component's streamlet.
    pub fn get_file_type(&self) -> (r: TemplateType)
        ensures
            r == shape_template(self@),
    {
        match self {
            JsonComponent::Value(v) => match v.data_type {
                JsonType::String => TemplateType::String,
                JsonType::Integer => TemplateType::Int,
                JsonType::Boolean => TemplateType::Bool,
            },
            JsonComponent::Array(_) => TemplateType::Array,
            JsonComponent::Record(_) => TemplateType::Record,
            JsonComponent::Key(_) => TemplateType::Key,
            JsonComponent::Matcher(_) => TemplateType::Matcher,
        }
    }

    /// The type of the top-level port the component's output is promoted to.
    pub fn get_output_type(&self) -> (r: StreamTypeDecl)
        ensures
            r@ == shape_output_type(self@),
    {
        match self {
            JsonComponent::Value(v) => match v.data_type {
                JsonType::String => fixed_decl(StreamType::Json, v.outer_nested, 1),
                JsonType::Integer => fixed_decl(StreamType::Int, 0, 0),
                JsonType::Boolean => fixed_decl(StreamType::Bool, 0, 0),
            },
            JsonComponent::Array(a) => fixed_decl(StreamType::Json, a.outer_nested, 2),
            _ => fixed_decl(StreamType::Json, self.get_nesting_level(), 1),
        }
    }

    /// The generics and ports of the component's streamlet.
    pub fn get_streaming_interface(&self, gen_params: &GeneratorParams) -> (r: TilStreamingInterface)
        requires
            shape_level(self@) < usize::MAX,
        ensures
            r@ == shape_interface(self@, gen_params.epc as nat, gen_params.int_width as nat),
    {
        let mut interface = TilStreamingInterface::new();
        let epc = gen_params.epc;
        match self {
            JsonComponent::Value(v) => {
                let dim = v.outer_nested + 1;
                interface.add_generic(Generic::new("EPC", GenericType::Positive(epc)));
                interface.add_generic(Generic::new("DIM", GenericType::Dimensionality(dim)));
                interface.add_generic(Generic::new("NESTING_LEVEL", GenericType::Positive(v.outer_nested)));
                if v.data_type == JsonType::Integer {
                    interface.add_generic(Generic::new("BITWIDTH", GenericType::Positive(gen_params.int_width)));
                }
                interface.add_stream("input", TilStreamDirection::Input, dim_decl(StreamType::Json, "DIM", dim, 0));
                match v.data_type {
                    JsonType::String => interface.add_stream(
                        "output",
                        TilStreamDirection::Output,
                        dim_decl(StreamType::Json, "DIM", dim, 0),
                    ),
                    JsonType::Integer => interface.add_stream(
                        "output",
                        TilStreamDirection::Output,
                        fixed_decl(StreamType::Int, 0, 0),
                    ),
                    JsonType::Boolean => interface.add_stream(
                        "output",
                        TilStreamDirection::Output,
                        fixed_decl(StreamType::Bool, 0, 0),
                    ),
                }
            },
            JsonComponent::Array(a) => {
                let dim = a.outer_nested + 1;
                interface.add_generic(Generic::new("EPC", GenericType::Positive(epc)));
                interface.add_generic(Generic::new("DIM", GenericType::Dimensionality(dim)));
                interface.add_generic(Generic::new("OUTER_NESTING_LEVEL", GenericType::Natural(a.outer_nested)));
                interface.add_generic(Generic::new("INNER_NESTING_LEVEL", GenericType::Natural(a.inner_nested)));
                interface.add_stream("input", TilStreamDirection::Input, dim_decl(StreamType::Json, "DIM", dim, 0));
                interface.add_stream("output", TilStreamDirection::Output, dim_decl(StreamType::Json, "DIM", dim, 1));
            },
            JsonComponent::Record(_) => {},
            JsonComponent::Key(k) => {
                return k.get_streaming_interface(gen_params);
            },
            JsonComponent::Matcher(m) => {
                return m.get_streaming_interface(gen_params);
            },
        }
        assert(interface@.generics =~= shape_interface(self@, epc as nat, gen_params.int_width as nat).generics);
        assert(interface@.streams =~= shape_interface(self@, epc as nat, gen_params.int_width as nat).streams);
        interface
    }
}

/// A bound on every node of a tree of fields is a bound on each field.
pub proof fn lemma_all_levels_within(s: Seq<Shape>, m: nat)
    requires
        all_levels_within(s, m),
    ensures
        forall|i: int| 0 <= i < s.len() ==> levels_within(#[trigger] s[i], m),
    decreases s.len(),
{
    if s.len() > 0 {
        lemma_all_levels_within(s.drop_last(), m);
        assert forall|i: int| 0 <= i < s.len() implies levels_within(#[trigger] s[i], m) by {
            if i < s.len() - 1 {
                assert(s[i] == s.drop_last()[i]);
            }
        }
    }
}

pub proof fn lemma_keys_shape_len(s: Seq<Key>)
    ensures
        keys_shape(s).len() == s.len(),
        forall|i: int| 0 <= i < s.len() ==> #[trigger] keys_shape(s)[i] == key_shape(s[i]),
    decreases s.len(),
{
    if s.len() > 0 {
        lemma_keys_shape_len(s.drop_last());
    }
}


pub open spec fn json_type_name(t: JsonType) -> Seq<char> {
    match t {
        JsonType::String => "String"@,
        JsonType::Integer => "Integer"@,
        JsonType::Boolean => "Boolean"@,
    }
}

/// The label of a node in a drawing of the tree.
pub open spec fn graph_label(s: Shape) -> Seq<char> {
    match s {
        Shape::Value { data_type, outer } => json_type_name(data_type) + " parser\nO: "@ + dec(outer),
        Shape::Array { outer, inner, .. } => "Array parser\nO: "@ + dec(outer) + ", I: "@ + dec(inner),
        Shape::Record { outer, inner, .. } => "Record parser\nO: "@ + dec(outer) + ", I: "@ + dec(inner),
        Shape::Key { outer, .. } => "Key filter\nO: "@ + dec(outer),
        Shape::Matcher { pattern, .. } => "Regex matcher\n\""@ + pattern + "\""@,
    }
}

impl Key {
    /// The label of the key in a drawing of the tree.
    pub fn to_graph_node(&self) -> (r: String)
        ensures
            r@ == graph_label(key_shape(*self)),
    {
        let mut r = String::from_str("Key filter\nO: ");
        push_decimal(&mut r, self.outer_nested as u128);
        assert(r@ =~= graph_label(key_shape(*self)));
        r
    }
}

impl Matcher {
    /// The label of the matcher in a drawing of the tree.
    pub fn to_graph_node(&self) -> (r: String)
        ensures
            r@ == graph_label(self.shape()),
    {
        let mut r = String::from_str("Regex matcher\n\"");
        r.append(self.matcher.as_str());
        r.append("\"");
        assert(r@ =~= graph_label(self.shape()));
        r
    }
}

impl JsonComponent {
    /// The label of the component in a drawing of the tree.
    pub fn to_graph_node(&self) -> (r: String)
        ensures
            r@ == graph_label(self@),
    {
        match self {
            JsonComponent::Value(v) => {
                let mut r = match v.data_type {
                    JsonType::String => String::from_str("String"),
                    JsonType::Integer => String::from_str("Integer"),
                    JsonType::Boolean => String::from_str("Boolean"),
                };
                r.append(" parser\nO: ");
                push_decimal(&mut r, v.outer_nested as u128);
                assert(r@ =~= graph_label(self@));
                r
            },
            JsonComponent::Array(a) => {
                let mut r = String::from_str("Array parser\nO: ");
                push_decimal(&mut r, a.outer_nested as u128);
                r.append(", I: ");
                push_decimal(&mut r, a.inner_nested as u128);
                assert(r@ =~= graph_label(self@));
                r
            },
            JsonComponent::Record(rec) => {
                let mut r = String::from_str("Record parser\nO: ");
                push_decimal(&mut r, rec.outer_nested as u128);
                r.append(", I: ");
                push_decimal(&mut r, rec.inner_nested as u128);
                assert(r@ =~= graph_label(self@));
                r
            },
            JsonComponent::Key(k) => k.to_graph_node(),
            JsonComponent::Matcher(m) => m.to_graph_node(),
        }
    }
}

} // verus!
