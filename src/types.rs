//! Stream types, ports, generics, signals and streamlets of the emitted netlist.
use vstd::prelude::*;
use crate::text::{dec, signed_dec, push_decimal, push_signed_decimal};
use crate::params::GeneratorParams;

verus! {

/// The closed set of stream-type kinds a netlist declares.
#[derive(Clone, Copy, PartialEq, Eq, Structural, Debug)]
pub enum StreamType {
    Json,
    Int,
    Bool,
    Record,
    MatcherMatch,
    MatcherStr,
}

/// The declared name of each stream-type kind.
pub open spec fn stream_type_name(t: StreamType) -> Seq<char> {
    match t {
        StreamType::Json => "JSONStream"@,
        StreamType::Int => "IntParserStream"@,
        StreamType::Bool => "BoolParserStream"@,
        StreamType::Record => "RecordParserStream"@,
        StreamType::MatcherMatch => "MatcherMatchStream"@,
        StreamType::MatcherStr => "MatcherStrStream"@,
    }
}

impl StreamType {
    /// The declared name of this stream-type kind.
    pub fn get_name(&self) -> (r: &'static str)
        ensures
            r@ == stream_type_name(*self),
    {
        match self {
            StreamType::Json => "JSONStream",
            StreamType::Int => "IntParserStream",
            StreamType::Bool => "BoolParserStream",
            StreamType::Record => "RecordParserStream",
            StreamType::MatcherMatch => "MatcherMatchStream",
            StreamType::MatcherStr => "MatcherStrStream",
        }
    }
}

/// How a stream type's dimensionality is given.
#[derive(Clone, Copy, PartialEq, Eq, Structural, Debug)]
pub enum Dimensionality {
    Fixed(usize),
    Generic,
}

#[derive(Clone, Copy, PartialEq, Eq, Structural, Debug)]
pub enum Synchronicity {
    Sync,
    Flatten,
    Desync,
    FlatDesync,
}

/// The parameters a stream-type kind is declared with.
#[derive(Clone, Copy, PartialEq, Eq, Structural, Debug)]
pub struct StreamParams {
    pub data_bits: usize,
    pub throughput: usize,
    pub dimensionality: Dimensionality,
    pub synchronicity: Synchronicity,
    pub complexity: u8,
}

impl StreamParams {
    pub fn new(
        data_bits: usize,
        throughput: usize,
        dimensionality: Dimensionality,
        synchronicity: Synchronicity,
        complexity: u8,
    ) -> (r: StreamParams)
        ensures
            r == (StreamParams { data_bits, throughput, dimensionality, synchronicity, complexity }),
    {
        StreamParams { data_bits, throughput, dimensionality, synchronicity, complexity }
    }
}

/// The declaration parameters of each kind: element width, elements per
/// cycle, dimensionality, synchronicity and complexity.
pub open spec fn stream_params(t: StreamType, bit_width: nat, epc: nat, int_width: nat) -> StreamParams {
    match t {
        StreamType::Json => StreamParams {
            data_bits: bit_width as usize,
            throughput: epc as usize,
            dimensionality: Dimensionality::Generic,
            synchronicity: Synchronicity::Sync,
            complexity: 8,
        },
        StreamType::Int => StreamParams {
            data_bits: int_width as usize,
            throughput: 1,
            dimensionality: Dimensionality::Generic,
            synchronicity: Synchronicity::Sync,
            complexity: 2,
        },
        StreamType::Bool => StreamParams {
            data_bits: 1,
            throughput: 1,
            dimensionality: Dimensionality::Generic,
            synchronicity: Synchronicity::Sync,
            complexity: 2,
        },
        StreamType::Record => StreamParams {
            data_bits: (bit_width + 1) as usize,
            throughput: epc as usize,
            dimensionality: Dimensionality::Generic,
            synchronicity: Synchronicity::Sync,
            complexity: 8,
        },
        StreamType::MatcherMatch => StreamParams {
            data_bits: 1,
            throughput: epc as usize,
            dimensionality: Dimensionality::Fixed(1),
            synchronicity: Synchronicity::Sync,
            complexity: 8,
        },
        StreamType::MatcherStr => StreamParams {
            data_bits: bit_width as usize,
            throughput: epc as usize,
            dimensionality: Dimensionality::Fixed(1),
            synchronicity: Synchronicity::Sync,
            complexity: 8,
        },
    }
}

impl StreamType {
    /// The parameters this kind is declared with, given the global widths and
    /// throughput.
    pub fn get_type_params(&self, bit_width: usize, epc: usize, int_width: usize) -> (r: StreamParams)
        requires
            bit_width < usize::MAX,
        ensures
            r == stream_params(*self, bit_width as nat, epc as nat, int_width as nat),
    {
        match self {
            StreamType::Json => StreamParams::new(bit_width, epc, Dimensionality::Generic, Synchronicity::Sync, 8),
            StreamType::Int => StreamParams::new(int_width, 1, Dimensionality::Generic, Synchronicity::Sync, 2),
            StreamType::Bool => StreamParams::new(1, 1, Dimensionality::Generic, Synchronicity::Sync, 2),
            StreamType::Record => StreamParams::new(
                bit_width + 1,
                epc,
                Dimensionality::Generic,
                Synchronicity::Sync,
                8,
            ),
            StreamType::MatcherMatch => StreamParams::new(1, epc, Dimensionality::Fixed(1), Synchronicity::Sync, 8),
            StreamType::MatcherStr => StreamParams::new(
                bit_width,
                epc,
                Dimensionality::Fixed(1),
                Synchronicity::Sync,
                8,
            ),
        }
    }
}

pub open spec fn sync_text(s: Synchronicity) -> Seq<char> {
    match s {
        Synchronicity::Sync => "Sync"@,
        Synchronicity::Flatten => "Flatten"@,
        Synchronicity::Desync => "Desync"@,
        Synchronicity::FlatDesync => "FlatDesync"@,
    }
}

pub open spec fn dimensionality_text(d: Dimensionality) -> Seq<char> {
    match d {
        Dimensionality::Fixed(v) => dec(v as nat),
        Dimensionality::Generic => "d"@,
    }
}

/// The stream parameters in the netlist language.
pub open spec fn params_text(p: StreamParams) -> Seq<char> {
    "Stream (\n    data: Bits("@ + dec(p.data_bits as nat) + "),\n    throughput: "@ + dec(p.throughput as nat)
        + ",\n    dimensionality: "@ + dimensionality_text(p.dimensionality) + ",\n    synchronicity: "@
        + sync_text(p.synchronicity) + ",\n    complexity: "@ + dec(p.complexity as nat) + ",\n)"@
}

/// The stream parameters in the component description language.
pub open spec fn params_td(p: StreamParams) -> Seq<char> {
    "Stream(\n    Bit("@ + dec(p.data_bits as nat) + "),\n    throughput = "@ + dec(p.throughput as nat)
        + ".0,\n    dimension = "@ + dimensionality_text(p.dimensionality) + ",\n    synchronicity = \""@
        + sync_text(p.synchronicity) + "\",\n    complexity = "@ + dec(p.complexity as nat) + "\n)"@
}

fn append_sync(r: &mut String, s: Synchronicity)
    ensures
        final(r)@ == old(r)@ + sync_text(s),
{
    match s {
        Synchronicity::Sync => r.append("Sync"),
        Synchronicity::Flatten => r.append("Flatten"),
        Synchronicity::Desync => r.append("Desync"),
        Synchronicity::FlatDesync => r.append("FlatDesync"),
    }
}

fn append_dimensionality(r: &mut String, d: Dimensionality)
    ensures
        final(r)@ == old(r)@ + dimensionality_text(d),
{
    match d {
        Dimensionality::Fixed(v) => push_decimal(r, v as u128),
        Dimensionality::Generic => r.append("d"),
    }
}

impl StreamParams {
    /// The parameters in the netlist language (see `params_text`).
    pub fn to_text(&self) -> (r: String)
        ensures
            r@ == params_text(*self),
    {
        let mut r = String::from_str("Stream (\n    data: Bits(");
        push_decimal(&mut r, self.data_bits as u128);
        r.append("),\n    throughput: ");
        push_decimal(&mut r, self.throughput as u128);
        r.append(",\n    dimensionality: ");
        append_dimensionality(&mut r, self.dimensionality);
        r.append(",\n    synchronicity: ");
        append_sync(&mut r, self.synchronicity);
        r.append(",\n    complexity: ");
        push_decimal(&mut r, self.complexity as u128);
        r.append(",\n)");
        assert(r@ =~= params_text(*self));
        r
    }

    /// The parameters in the component description language (see `params_td`).
    pub fn td(&self) -> (r: String)
        ensures
            r@ == params_td(*self),
    {
        let mut r = String::from_str("Stream(\n    Bit(");
        push_decimal(&mut r, self.data_bits as u128);
        r.append("),\n    throughput = ");
        push_decimal(&mut r, self.throughput as u128);
        r.append(".0,\n    dimension = ");
        append_dimensionality(&mut r, self.dimensionality);
        r.append(",\n    synchronicity = \"");
        append_sync(&mut r, self.synchronicity);
        r.append("\",\n    complexity = ");
        push_decimal(&mut r, self.complexity as u128);
        r.append("\n)");
        assert(r@ =~= params_td(*self));
        r
    }
}

/// The declaration of a stream-type kind in the netlist language.
pub open spec fn type_def_text(t: StreamType, bit_width: nat, epc: nat, int_width: nat) -> Seq<char> {
    let p = stream_params(t, bit_width, epc, int_width);
    let generic = match p.dimensionality {
        Dimensionality::Generic => "<d: dimensionality = 2>"@,
        Dimensionality::Fixed(_) => Seq::empty(),
    };
    "type "@ + stream_type_name(t) + generic + " = "@ + params_text(p) + ";\n\n"@
}

/// The declaration of a stream-type kind in the component description language.
pub open spec fn type_def_td(t: StreamType, bit_width: nat, epc: nat, int_width: nat) -> Seq<char> {
    "\n"@ + stream_type_name(t) + " = "@ + params_td(stream_params(t, bit_width, epc, int_width)) + ";\n"@
}

impl StreamType {
    /// The declaration of this kind in the netlist language.
    pub fn get_type_def_string(&self, gen_params: &GeneratorParams) -> (r: String)
        requires
            gen_params.bit_width < usize::MAX,
        ensures
            r@ == type_def_text(*self, gen_params.bit_width as nat, gen_params.epc as nat, gen_params.int_width as nat),
    {
        let p = self.get_type_params(gen_params.bit_width, gen_params.epc, gen_params.int_width);
        let mut r = String::from_str("type ");
        r.append(self.get_name());
        match p.dimensionality {
            Dimensionality::Generic => r.append("<d: dimensionality = 2>"),
            Dimensionality::Fixed(_) => {},
        }
        r.append(" = ");
        let t = p.to_text();
        r.append(t.as_str());
        r.append(";\n\n");
        assert(r@ =~= type_def_text(*self, gen_params.bit_width as nat, gen_params.epc as nat, gen_params.int_width as nat));
        r
    }

    /// The declaration of this kind in the component description language.
    pub fn get_td_type_def_string(&self, gen_params: &GeneratorParams) -> (r: String)
        requires
            gen_params.bit_width < usize::MAX,
        ensures
            r@ == type_def_td(*self, gen_params.bit_width as nat, gen_params.epc as nat, gen_params.int_width as nat),
    {
        let p = self.get_type_params(gen_params.bit_width, gen_params.epc, gen_params.int_width);
        let mut r = String::from_str("\n");
        r.append(self.get_name());
        r.append(" = ");
        let t = p.td();
        r.append(t.as_str());
        r.append(";\n");
        assert(r@ =~= type_def_td(*self, gen_params.bit_width as nat, gen_params.epc as nat, gen_params.int_width as nat));
        r
    }
}

/// A dimensionality expression: an optional generic name plus an additive
/// offset, or a fixed value when no name is given.
pub struct DimModel {
    pub name: Option<Seq<char>>,
    pub value: nat,
    pub additive: int,
}

pub struct StreamDim {
    name: Option<String>,
    additive: isize,
    value: usize,
}

pub open spec fn opt_str_view(o: Option<String>) -> Option<Seq<char>> {
    match o {
        Some(s) => Some(s@),
        None => None,
    }
}

impl View for StreamDim {
    type V = DimModel;

    closed spec fn view(&self) -> DimModel {
        DimModel { name: opt_str_view(self.name), value: self.value as nat, additive: self.additive as int }
    }
}

/// The text of a dimensionality: `<NAME>`, `<NAME+k>` or `<NAME-k>` for a
/// named one, `<value>` for a fixed one.
pub open spec fn dim_text(d: DimModel) -> Seq<char> {
    match d.name {
        Some(n) => if d.additive > 0 {
            seq!['<'] + n + seq!['+'] + dec(d.additive as nat) + seq!['>']
        } else if d.additive < 0 {
            seq!['<'] + n + signed_dec(d.additive) + seq!['>']
        } else {
            seq!['<'] + n + seq!['>']
        },
        None => seq!['<'] + signed_dec(d.value + d.additive) + seq!['>'],
    }
}

impl StreamDim {
    /// The text of the dimensionality (see `dim_text`).
    pub fn to_text(&self) -> (r: String)
        ensures
            r@ == dim_text(self@),
    {
        proof {
            reveal_strlit("<");
            reveal_strlit(">");
            reveal_strlit("+");
        }
        let mut r = String::from_str("<");
        match &self.name {
            Some(n) => {
                r.append(n.as_str());
                if self.additive > 0 {
                    r.append("+");
                    push_decimal(&mut r, self.additive as u128);
                } else if self.additive < 0 {
                    push_signed_decimal(&mut r, self.additive as i128);
                }
            },
            None => {
                let v = self.value as i128 + self.additive as i128;
                push_signed_decimal(&mut r, v);
            },
        }
        r.append(">");
        assert(r@ =~= dim_text(self@));
        r
    }

    pub fn new(name: Option<String>, value: usize, additive: isize) -> (r: StreamDim)
        ensures
            r@ == (DimModel { name: opt_str_view(name), value: value as nat, additive: additive as int }),
    {
        StreamDim { name, additive, value }
    }

    /// A copy with the same dimensionality expression.
    pub fn duplicate(&self) -> (r: StreamDim)
        ensures
            r@ == self@,
    {
        let name = match &self.name {
            Some(n) => Some(n.clone()),
            None => None,
        };
        StreamDim { name, additive: self.additive, value: self.value }
    }

    pub fn get_name(&self) -> (r: &Option<String>)
        ensures
            opt_str_view(*r) == self@.name,
    {
        &self.name
    }

    pub fn get_additive(&self) -> (r: isize)
        ensures
            r as int == self@.additive,
    {
        self.additive
    }

    pub fn get_value(&self) -> (r: usize)
        ensures
            r as nat == self@.value,
    {
        self.value
    }

    /// The dimensionality once the offset is applied.
    pub fn get_true_value(&self) -> (r: usize)
        requires
            0 <= self@.value + self@.additive <= usize::MAX,
        ensures
            r as int == self@.value + self@.additive,
    {
        if self.additive >= 0 {
            self.value + (self.additive as usize)
        } else {
            let sub: usize = if self.additive == isize::MIN {
                (isize::MAX as usize) + 1
            } else {
                (-self.additive) as usize
            };
            self.value - sub
        }
    }
}

/// A stream-type kind instantiated with an optional dimensionality.
pub struct TypeDeclModel {
    pub stream_type: StreamType,
    pub dim: Option<DimModel>,
}

pub struct StreamTypeDecl {
    stream_type: StreamType,
    stream_dim: Option<StreamDim>,
}

pub open spec fn opt_dim_view(o: Option<StreamDim>) -> Option<DimModel> {
    match o {
        Some(d) => Some(d@),
        None => None,
    }
}

impl View for StreamTypeDecl {
    type V = TypeDeclModel;

    closed spec fn view(&self) -> TypeDeclModel {
        TypeDeclModel { stream_type: self.stream_type, dim: opt_dim_view(self.stream_dim) }
    }
}

impl StreamTypeDecl {
    pub fn new(stream_type: StreamType, stream_dim: Option<StreamDim>) -> (r: StreamTypeDecl)
        ensures
            r@ == (TypeDeclModel { stream_type, dim: opt_dim_view(stream_dim) }),
    {
        StreamTypeDecl { stream_type, stream_dim }
    }

    pub fn get_name(&self) -> (r: &'static str)
        ensures
            r@ == stream_type_name(self@.stream_type),
    {
        self.stream_type.get_name()
    }

    /// A copy with the same kind and dimensionality.
    pub fn duplicate(&self) -> (r: StreamTypeDecl)
        ensures
            r@ == self@,
    {
        let stream_dim = match &self.stream_dim {
            Some(d) => Some(d.duplicate()),
            None => None,
        };
        StreamTypeDecl { stream_type: self.stream_type, stream_dim }
    }

    pub fn get_stream_type(&self) -> (r: StreamType)
        ensures
            r == self@.stream_type,
    {
        self.stream_type
    }

    pub fn get_stream_dim(&self) -> (r: &Option<StreamDim>)
        ensures
            opt_dim_view(*r) == self@.dim,
    {
        &self.stream_dim
    }
}

#[derive(Clone, Copy, PartialEq, Eq, Structural, Debug)]
pub enum TilStreamDirection {
    Input,
    Output,
}

#[derive(Clone, Copy, PartialEq, Eq, Structural, Debug)]
pub enum GenericType {
    Integer(isize),
    Natural(usize),
    Positive(usize),
    Dimensionality(usize),
}

pub struct GenericModel {
    pub name: Seq<char>,
    pub generic_type: GenericType,
}

/// A named generic parameter of a streamlet.
pub struct Generic {
    name: String,
    generic_type: GenericType,
}

impl View for Generic {
    type V = GenericModel;

    closed spec fn view(&self) -> GenericModel {
        GenericModel { name: self.name@, generic_type: self.generic_type }
    }
}

impl Generic {
    pub fn new(name: &str, generic_type: GenericType) -> (r: Generic)
        ensures
            r@ == (GenericModel { name: name@, generic_type }),
    {
        Generic { name: String::from_str(name), generic_type }
    }

    pub fn get_name(&self) -> (r: &str)
        ensures
            r@ == self@.name,
    {
        self.name.as_str()
    }

    pub fn get_type(&self) -> (r: &GenericType)
        ensures
            *r == self@.generic_type,
    {
        &self.generic_type
    }
}

pub struct StreamModel {
    pub name: Seq<char>,
    pub direction: TilStreamDirection,
    pub stream_type: TypeDeclModel,
}

/// A named, directioned, typed port.
pub struct TilStream {
    name: String,
    direction: TilStreamDirection,
    stream_type: StreamTypeDecl,
}

impl View for TilStream {
    type V = StreamModel;

    closed spec fn view(&self) -> StreamModel {
        StreamModel { name: self.name@, direction: self.direction, stream_type: self.stream_type@ }
    }
}

impl TilStream {
    pub fn new(name: &str, direction: TilStreamDirection, stream_type: StreamTypeDecl) -> (r: TilStream)
        ensures
            r@ == (StreamModel { name: name@, direction, stream_type: stream_type@ }),
    {
        TilStream { name: String::from_str(name), direction, stream_type }
    }

    pub fn get_name(&self) -> (r: &str)
        ensures
            r@ == self@.name,
    {
        self.name.as_str()
    }

    pub fn get_direction(&self) -> (r: TilStreamDirection)
        ensures
            r == self@.direction,
    {
        self.direction
    }

    pub fn get_type(&self) -> (r: &StreamTypeDecl)
        ensures
            r@ == self@.stream_type,
    {
        &self.stream_type
    }
}

pub open spec fn direction_text(d: TilStreamDirection) -> Seq<char> {
    match d {
        TilStreamDirection::Input => "in"@,
        TilStreamDirection::Output => "out"@,
    }
}

/// A port as a line of the component description language:
/// `name: t<dim>.TypeName in;`.
pub open spec fn stream_td(s: StreamModel) -> Seq<char> {
    let dim = match s.stream_type.dim {
        Some(d) => dim_text(d),
        None => "<0>"@,
    };
    s.name + ": t"@ + dim + "."@ + stream_type_name(s.stream_type.stream_type) + " "@ + direction_text(s.direction)
        + ";"@
}

pub open spec fn generic_value(t: GenericType) -> int {
    match t {
        GenericType::Integer(v) => v as int,
        GenericType::Natural(v) => v as int,
        GenericType::Positive(v) => v as int,
        GenericType::Dimensionality(v) => v as int,
    }
}

/// A generic as an assignment line: `    NAME = value;` and a newline.
pub open spec fn generic_td(g: GenericModel) -> Seq<char> {
    "    "@ + g.name + " = "@ + signed_dec(generic_value(g.generic_type)) + ";\n"@
}

pub open spec fn generic_type_text(t: GenericType) -> Seq<char> {
    match t {
        GenericType::Integer(v) => "integer = "@ + signed_dec(v as int),
        GenericType::Natural(v) => "natural = "@ + dec(v as nat),
        GenericType::Positive(v) => "positive = "@ + dec(v as nat),
        GenericType::Dimensionality(v) => "dimensionality = "@ + dec(v as nat),
    }
}

/// A generic in the netlist language: `NAME: positive = 4`.
pub open spec fn generic_text(g: GenericModel) -> Seq<char> {
    g.name + ": "@ + generic_type_text(g.generic_type)
}

/// A port in the netlist language: `name: in TypeName<dim>`.
pub open spec fn stream_text(s: StreamModel) -> Seq<char> {
    let dim = match s.stream_type.dim {
        Some(d) => dim_text(d),
        None => Seq::empty(),
    };
    s.name + ": "@ + direction_text(s.direction) + " "@ + stream_type_name(s.stream_type.stream_type) + dim
}

impl Generic {
    /// The generic in the netlist language (see `generic_text`).
    pub fn to_text(&self) -> (r: String)
        ensures
            r@ == generic_text(self@),
    {
        let mut r = self.name.clone();
        r.append(": ");
        match self.generic_type {
            GenericType::Integer(v) => {
                r.append("integer = ");
                push_signed_decimal(&mut r, v as i128);
            },
            GenericType::Natural(v) => {
                r.append("natural = ");
                push_decimal(&mut r, v as u128);
            },
            GenericType::Positive(v) => {
                r.append("positive = ");
                push_decimal(&mut r, v as u128);
            },
            GenericType::Dimensionality(v) => {
                r.append("dimensionality = ");
                push_decimal(&mut r, v as u128);
            },
        }
        assert(r@ =~= generic_text(self@));
        r
    }
}

impl Generic {
    /// The generic as an assignment line (see `generic_td`).
    pub fn td(&self) -> (r: String)
        ensures
            r@ == generic_td(self@),
    {
        let mut r = String::from_str("    ");
        r.append(self.name.as_str());
        r.append(" = ");
        let v: i128 = match self.generic_type {
            GenericType::Integer(v) => v as i128,
            GenericType::Natural(v) => v as i128,
            GenericType::Positive(v) => v as i128,
            GenericType::Dimensionality(v) => v as i128,
        };
        push_signed_decimal(&mut r, v);
        r.append(";\n");
        assert(r@ =~= generic_td(self@));
        r
    }
}

impl TilStream {
    /// The port in the netlist language (see `stream_text`).
    pub fn to_text(&self) -> (r: String)
        ensures
            r@ == stream_text(self@),
    {
        let mut r = self.name.clone();
        r.append(": ");
        match self.direction {
            TilStreamDirection::Input => r.append("in"),
            TilStreamDirection::Output => r.append("out"),
        }
        r.append(" ");
        r.append(self.stream_type.get_name());
        match self.stream_type.get_stream_dim() {
            Some(d) => {
                let t = d.to_text();
                r.append(t.as_str());
            },
            None => {},
        }
        assert(r@ =~= stream_text(self@));
        r
    }

    /// The port as a line of the description language (see `stream_td`).
    pub fn td(&self) -> (r: String)
        ensures
            r@ == stream_td(self@),
    {
        let mut r = self.name.clone();
        r.append(": t");
        match self.stream_type.get_stream_dim() {
            Some(d) => {
                let t = d.to_text();
                r.append(t.as_str());
            },
            None => r.append("<0>"),
        }
        r.append(".");
        r.append(self.stream_type.get_name());
        r.append(" ");
        match self.direction {
            TilStreamDirection::Input => r.append("in"),
            TilStreamDirection::Output => r.append("out"),
        }
        r.append(";");
        assert(r@ =~= stream_td(self@));
        r
    }
}

pub open spec fn streams_view(s: Seq<TilStream>) -> Seq<StreamModel> {
    s.map_values(|t: TilStream| t@)
}

pub open spec fn generics_view(s: Seq<Generic>) -> Seq<GenericModel> {
    s.map_values(|g: Generic| g@)
}

/// The ports of `s` that point in direction `d`, in order.
pub open spec fn streams_in_direction(s: Seq<StreamModel>, d: TilStreamDirection) -> Seq<StreamModel>
    decreases s.len(),
{
    if s.len() == 0 {
        Seq::empty()
    } else if s.last().direction == d {
        streams_in_direction(s.drop_last(), d).push(s.last())
    } else {
        streams_in_direction(s.drop_last(), d)
    }
}

pub struct InterfaceModel {
    pub generics: Seq<GenericModel>,
    pub streams: Seq<StreamModel>,
}

/// The generics and ports a streamlet declares.
pub struct TilStreamingInterface {
    generics: Vec<Generic>,
    streams: Vec<TilStream>,
}

impl View for TilStreamingInterface {
    type V = InterfaceModel;

    closed spec fn view(&self) -> InterfaceModel {
        InterfaceModel { generics: generics_view(self.generics@), streams: streams_view(self.streams@) }
    }
}

impl TilStreamingInterface {
    pub fn new() -> (r: TilStreamingInterface)
        ensures
            r@ == (InterfaceModel { generics: Seq::empty(), streams: Seq::empty() }),
    {
        let r = TilStreamingInterface { generics: Vec::new(), streams: Vec::new() };
        assert(r@.generics =~= Seq::empty());
        assert(r@.streams =~= Seq::empty());
        r
    }

    pub fn add_stream(&mut self, stream_name: &str, direction: TilStreamDirection, stream_type: StreamTypeDecl)
        ensures
            final(self)@ == (InterfaceModel {
                generics: old(self)@.generics,
                streams: old(self)@.streams.push(
                    StreamModel { name: stream_name@, direction, stream_type: stream_type@ },
                ),
            }),
    {
        let s = TilStream::new(stream_name, direction, stream_type);
        self.add_til_stream(s);
    }

    pub fn add_til_stream(&mut self, stream: TilStream)
        ensures
            final(self)@ == (InterfaceModel {
                generics: old(self)@.generics,
                streams: old(self)@.streams.push(stream@),
            }),
    {
        self.streams.push(stream);
        assert(final(self)@.streams =~= old(self)@.streams.push(stream@));
    }

    pub fn add_generic(&mut self, generic: Generic)
        ensures
            final(self)@ == (InterfaceModel {
                generics: old(self)@.generics.push(generic@),
                streams: old(self)@.streams,
            }),
    {
        self.generics.push(generic);
        assert(final(self)@.generics =~= old(self)@.generics.push(generic@));
    }

    pub fn get_generics(&self) -> (r: &Vec<Generic>)
        ensures
            generics_view(r@) == self@.generics,
    {
        &self.generics
    }

    pub fn get_streams(&self) -> (r: &Vec<TilStream>)
        ensures
            streams_view(r@) == self@.streams,
    {
        &self.streams
    }

    fn streams_toward(&self, d: TilStreamDirection) -> (r: Vec<&TilStream>)
        ensures
            r@.map_values(|t: &TilStream| t@) == streams_in_direction(self@.streams, d),
    {
        let mut r: Vec<&TilStream> = Vec::new();
        let mut i: usize = 0;
        while i < self.streams.len()
            invariant
                0 <= i <= self.streams@.len(),
                r@.map_values(|t: &TilStream| t@)
                    == streams_in_direction(streams_view(self.streams@).subrange(0, i as int), d),
            decreases self.streams@.len() - i,
        {
            let ghost all = streams_view(self.streams@);
            assert(all.subrange(0, i + 1).drop_last() =~= all.subrange(0, i as int));
            let s = &self.streams[i];
            if s.direction == d {
                r.push(s);
            }
            i += 1;
            assert(r@.map_values(|t: &TilStream| t@) =~= streams_in_direction(all.subrange(0, i as int), d));
        }
        assert(streams_view(self.streams@).subrange(0, i as int) =~= streams_view(self.streams@));
        r
    }

    /// The input ports, in declaration order.
    pub fn get_input_streams(&self) -> (r: Vec<&TilStream>)
        ensures
            r@.map_values(|t: &TilStream| t@) == streams_in_direction(self@.streams, TilStreamDirection::Input),
    {
        self.streams_toward(TilStreamDirection::Input)
    }

    /// The output ports, in declaration order.
    pub fn get_output_streams(&self) -> (r: Vec<&TilStream>)
        ensures
            r@.map_values(|t: &TilStream| t@) == streams_in_direction(self@.streams, TilStreamDirection::Output),
    {
        self.streams_toward(TilStreamDirection::Output)
    }
}

} // verus!
