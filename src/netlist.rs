//! Signals, instances and streamlet declarations of the emitted netlist.
use vstd::prelude::*;
use crate::types::{
    TilStream, StreamModel, TilStreamingInterface, InterfaceModel, GenericModel, generic_text, stream_text, generic_td,
    stream_td, generics_view, streams_view,
};

verus! {

/// A connection between two ports.
pub enum TilSignal {
    /// From a port of the top component to an instance port.
    Input { source_stream_name: String, dest_inst_name: String, dest_stream_name: String },
    /// From one instance port to another.
    Intermediate {
        source_inst_name: String,
        source_stream_name: String,
        dest_inst_name: String,
        dest_stream_name: String,
    },
    /// From an instance port to a newly introduced port of the top component.
    Output {
        source_inst_name: String,
        source_stream_name: String,
        dest_stream_name: String,
        output_stream: TilStream,
    },
}

pub enum SignalModel {
    Input { source_stream: Seq<char>, dest_inst: Seq<char>, dest_stream: Seq<char> },
    Intermediate { source_inst: Seq<char>, source_stream: Seq<char>, dest_inst: Seq<char>, dest_stream: Seq<char> },
    Output { source_inst: Seq<char>, source_stream: Seq<char>, dest_stream: Seq<char>, output_stream: StreamModel },
}

impl View for TilSignal {
    type V = SignalModel;

    open spec fn view(&self) -> SignalModel {
        match self {
            TilSignal::Input { source_stream_name, dest_inst_name, dest_stream_name } => SignalModel::Input {
                source_stream: source_stream_name@,
                dest_inst: dest_inst_name@,
                dest_stream: dest_stream_name@,
            },
            TilSignal::Intermediate { source_inst_name, source_stream_name, dest_inst_name, dest_stream_name } =>
                SignalModel::Intermediate {
                source_inst: source_inst_name@,
                source_stream: source_stream_name@,
                dest_inst: dest_inst_name@,
                dest_stream: dest_stream_name@,
            },
            TilSignal::Output { source_inst_name, source_stream_name, dest_stream_name, output_stream } =>
                SignalModel::Output {
                source_inst: source_inst_name@,
                source_stream: source_stream_name@,
                dest_stream: dest_stream_name@,
                output_stream: output_stream@,
            },
        }
    }
}

pub open spec fn signals_view(s: Seq<TilSignal>) -> Seq<SignalModel> {
    s.map_values(|t: TilSignal| t@)
}

impl SignalModel {
    pub open spec fn source_inst(self) -> Option<Seq<char>> {
        match self {
            SignalModel::Input { .. } => None,
            SignalModel::Intermediate { source_inst, .. } => Some(source_inst),
            SignalModel::Output { source_inst, .. } => Some(source_inst),
        }
    }

    pub open spec fn source_stream(self) -> Seq<char> {
        match self {
            SignalModel::Input { source_stream, .. } => source_stream,
            SignalModel::Intermediate { source_stream, .. } => source_stream,
            SignalModel::Output { source_stream, .. } => source_stream,
        }
    }

    pub open spec fn dest_inst(self) -> Option<Seq<char>> {
        match self {
            SignalModel::Input { dest_inst, .. } => Some(dest_inst),
            SignalModel::Intermediate { dest_inst, .. } => Some(dest_inst),
            SignalModel::Output { .. } => None,
        }
    }

    pub open spec fn dest_stream(self) -> Seq<char> {
        match self {
            SignalModel::Input { dest_stream, .. } => dest_stream,
            SignalModel::Intermediate { dest_stream, .. } => dest_stream,
            SignalModel::Output { dest_stream, .. } => dest_stream,
        }
    }
}

impl TilSignal {
    /// The instance the signal leaves from; none for a top-level input.
    pub fn get_source_inst_name(&self) -> (r: Option<&String>)
        ensures
            match r {
                Some(s) => self@.source_inst() == Some(s@),
                None => self@.source_inst() is None,
            },
    {
        match self {
            TilSignal::Input { .. } => None,
            TilSignal::Intermediate { source_inst_name, .. } => Some(source_inst_name),
            TilSignal::Output { source_inst_name, .. } => Some(source_inst_name),
        }
    }

    pub fn get_source_stream_name(&self) -> (r: &String)
        ensures
            r@ == self@.source_stream(),
    {
        match self {
            TilSignal::Input { source_stream_name, .. } => source_stream_name,
            TilSignal::Intermediate { source_stream_name, .. } => source_stream_name,
            TilSignal::Output { source_stream_name, .. } => source_stream_name,
        }
    }

    /// The instance the signal arrives at; none for a top-level output.
    pub fn get_dest_inst_name(&self) -> (r: Option<&String>)
        ensures
            match r {
                Some(s) => self@.dest_inst() == Some(s@),
                None => self@.dest_inst() is None,
            },
    {
        match self {
            TilSignal::Input { dest_inst_name, .. } => Some(dest_inst_name),
            TilSignal::Intermediate { dest_inst_name, .. } => Some(dest_inst_name),
            TilSignal::Output { .. } => None,
        }
    }

    pub fn get_dest_stream_name(&self) -> (r: &String)
        ensures
            r@ == self@.dest_stream(),
    {
        match self {
            TilSignal::Input { dest_stream_name, .. } => dest_stream_name,
            TilSignal::Intermediate { dest_stream_name, .. } => dest_stream_name,
            TilSignal::Output { dest_stream_name, .. } => dest_stream_name,
        }
    }
}

/// A signal as a connection line: `    src.stream => dst.stream;`, with
/// `self.` standing for the top component's own ports.
pub open spec fn signal_td(s: SignalModel) -> Seq<char> {
    let src = match s.source_inst() {
        Some(i) => "    "@ + i + "."@,
        None => "self."@,
    };
    let dst = match s.dest_inst() {
        Some(i) => i + "."@,
        None => "self."@,
    };
    src + s.source_stream() + " => "@ + dst + s.dest_stream() + ";"@
}

impl TilSignal {
    /// The signal as a connection line (see `signal_td`).
    pub fn td(&self) -> (r: String)
        ensures
            r@ == signal_td(self@),
    {
        let mut r = String::new();
        match self.get_source_inst_name() {
            Some(i) => {
                r.append("    ");
                r.append(i.as_str());
                r.append(".");
            },
            None => r.append("self."),
        }
        r.append(self.get_source_stream_name().as_str());
        r.append(" => ");
        match self.get_dest_inst_name() {
            Some(i) => {
                r.append(i.as_str());
                r.append(".");
            },
            None => r.append("self."),
        }
        r.append(self.get_dest_stream_name().as_str());
        r.append(";");
        assert(r@ =~= signal_td(self@));
        r
    }
}

/// The instance name given to an instance of `component`.
pub open spec fn instance_name_of(component: Seq<char>) -> Seq<char> {
    component + "_inst"@
}

pub struct InstanceModel {
    pub component_name: Seq<char>,
    pub instance_name: Seq<char>,
}

/// One instance of a streamlet inside an inline implementation.
pub struct TilInstance {
    component_name: String,
    instance_name: String,
}

impl View for TilInstance {
    type V = InstanceModel;

    closed spec fn view(&self) -> InstanceModel {
        InstanceModel { component_name: self.component_name@, instance_name: self.instance_name@ }
    }
}

pub open spec fn instances_view(s: Seq<TilInstance>) -> Seq<InstanceModel> {
    s.map_values(|t: TilInstance| t@)
}

/// An instance as a line: `    instance inst(component_impl);`.
pub open spec fn instance_td(i: InstanceModel) -> Seq<char> {
    "    instance "@ + i.instance_name + "("@ + i.component_name + "_impl);"@
}

impl TilInstance {
    /// The instance as a line (see `instance_td`).
    pub fn td(&self) -> (r: String)
        ensures
            r@ == instance_td(self@),
    {
        let mut r = String::from_str("    instance ");
        r.append(self.instance_name.as_str());
        r.append("(");
        r.append(self.component_name.as_str());
        r.append("_impl);");
        assert(r@ =~= instance_td(self@));
        r
    }

    pub fn new(component_name: &str, instance_name: &str) -> (r: TilInstance)
        ensures
            r@ == (InstanceModel { component_name: component_name@, instance_name: instance_name@ }),
    {
        TilInstance { component_name: String::from_str(component_name), instance_name: String::from_str(instance_name) }
    }

    pub fn get_component_name(&self) -> (r: &str)
        ensures
            r@ == self@.component_name,
    {
        self.component_name.as_str()
    }

    pub fn get_instance_name(&self) -> (r: &str)
        ensures
            r@ == self@.instance_name,
    {
        self.instance_name.as_str()
    }
}

pub struct InlineModel {
    pub instances: Seq<InstanceModel>,
    pub signals: Seq<SignalModel>,
}

/// The body of a streamlet built from instances and the signals between them.
pub struct TilInlineImplementation {
    instances: Vec<TilInstance>,
    signals: Vec<TilSignal>,
}

impl View for TilInlineImplementation {
    type V = InlineModel;

    closed spec fn view(&self) -> InlineModel {
        InlineModel { instances: instances_view(self.instances@), signals: signals_view(self.signals@) }
    }
}

impl TilInlineImplementation {
    pub fn new() -> (r: TilInlineImplementation)
        ensures
            r@ == (InlineModel { instances: Seq::empty(), signals: Seq::empty() }),
    {
        let r = TilInlineImplementation { instances: Vec::new(), signals: Vec::new() };
        assert(r@.instances =~= Seq::empty());
        assert(r@.signals =~= Seq::empty());
        r
    }

    /// Adds an instance of `component_name` and returns its instance name,
    /// `"{component_name}_inst"`.
    pub fn add_instance(&mut self, component_name: String) -> (r: String)
        ensures
            r@ == instance_name_of(component_name@),
            final(self)@ == (InlineModel {
                instances: old(self)@.instances.push(
                    InstanceModel { component_name: component_name@, instance_name: r@ },
                ),
                signals: old(self)@.signals,
            }),
    {
        let mut instance_name = component_name.clone();
        instance_name.append("_inst");
        self.instances.push(TilInstance::new(component_name.as_str(), instance_name.as_str()));
        assert(final(self)@.instances =~= old(self)@.instances.push(
            InstanceModel { component_name: component_name@, instance_name: instance_name@ },
        ));
        instance_name
    }

    pub fn add_signal(&mut self, signal: TilSignal)
        ensures
            final(self)@ == (InlineModel {
                instances: old(self)@.instances,
                signals: old(self)@.signals.push(signal@),
            }),
    {
        self.signals.push(signal);
        assert(final(self)@.signals =~= old(self)@.signals.push(signal@));
    }

    pub fn add_multiple_signals(&mut self, signals: Vec<TilSignal>)
        ensures
            final(self)@ == (InlineModel {
                instances: old(self)@.instances,
                signals: old(self)@.signals + signals_view(signals@),
            }),
    {
        let ghost added = signals@;
        let mut signals = signals;
        self.signals.append(&mut signals);
        assert(final(self)@.signals =~= old(self)@.signals + signals_view(added));
    }

    pub fn get_instances(&self) -> (r: &Vec<TilInstance>)
        ensures
            instances_view(r@) == self@.instances,
    {
        &self.instances
    }

    pub fn get_signals(&self) -> (r: &Vec<TilSignal>)
        ensures
            signals_view(r@) == self@.signals,
    {
        &self.signals
    }
}

/// Where a streamlet's body comes from.
pub enum TilImplementationType {
    /// Defined outside the netlist, in the module files under this path.
    Path(String),
    /// Built from instances and signals.
    Inline(TilInlineImplementation),
}

pub enum ImplModel {
    Path(Seq<char>),
    Inline(InlineModel),
}

impl View for TilImplementationType {
    type V = ImplModel;

    open spec fn view(&self) -> ImplModel {
        match self {
            TilImplementationType::Path(p) => ImplModel::Path(p@),
            TilImplementationType::Inline(i) => ImplModel::Inline(i@),
        }
    }
}

/// Each instance line followed by a newline.
pub open spec fn instances_td(s: Seq<InstanceModel>) -> Seq<char>
    decreases s.len(),
{
    if s.len() == 0 {
        Seq::empty()
    } else {
        instances_td(s.drop_last()) + instance_td(s.last()) + "\n"@
    }
}

/// Each connection line followed by a newline.
pub open spec fn signals_td(s: Seq<SignalModel>) -> Seq<char>
    decreases s.len(),
{
    if s.len() == 0 {
        Seq::empty()
    } else {
        signals_td(s.drop_last()) + signal_td(s.last()) + "\n"@
    }
}

/// The implementation block of the streamlet `name`.
pub open spec fn impl_td(i: ImplModel, name: Seq<char>) -> Seq<char> {
    match i {
        ImplModel::Inline(b) => "\n\nimpl "@ + name + "_impl of "@ + name + " {\n"@ + instances_td(b.instances)
            + "\n    "@ + signals_td(b.signals) + "}"@,
        ImplModel::Path(_) => "\n\nimpl "@ + name + "_impl of "@ + name + " @External { }"@,
    }
}

impl TilImplementationType {
    /// The implementation block of the streamlet `name` (see `impl_td`).
    pub fn td(&self, name: String) -> (r: String)
        ensures
            r@ == impl_td(self@, name@),
    {
        let mut r = String::from_str("\n\nimpl ");
        r.append(name.as_str());
        r.append("_impl of ");
        r.append(name.as_str());
        match self {
            TilImplementationType::Inline(inline) => {
                r.append(" {\n");
                let instances = inline.get_instances();
                let mut i: usize = 0;
                let ghost start = r@;
                while i < instances.len()
                    invariant
                        i <= instances@.len(),
                        r@ == start + instances_td(instances_view(instances@).subrange(0, i as int)),
                    decreases instances@.len() - i,
                {
                    let ghost iv = instances_view(instances@);
                    assert(iv.subrange(0, i + 1).drop_last() =~= iv.subrange(0, i as int));
                    let t = instances[i].td();
                    r.append(t.as_str());
                    r.append("\n");
                    i += 1;
                    assert(r@ =~= start + instances_td(iv.subrange(0, i as int)));
                }
                assert(instances_view(instances@).subrange(0, i as int) =~= instances_view(instances@));
                r.append("\n    ");
                let signals = inline.get_signals();
                let mut j: usize = 0;
                let ghost start2 = r@;
                while j < signals.len()
                    invariant
                        j <= signals@.len(),
                        r@ == start2 + signals_td(signals_view(signals@).subrange(0, j as int)),
                    decreases signals@.len() - j,
                {
                    let ghost sv = signals_view(signals@);
                    assert(sv.subrange(0, j + 1).drop_last() =~= sv.subrange(0, j as int));
                    let t = signals[j].td();
                    r.append(t.as_str());
                    r.append("\n");
                    j += 1;
                    assert(r@ =~= start2 + signals_td(sv.subrange(0, j as int)));
                }
                assert(signals_view(signals@).subrange(0, j as int) =~= signals_view(signals@));
                r.append("}");
                assert(r@ =~= impl_td(self@, name@));
            },
            TilImplementationType::Path(_) => {
                r.append(" @External { }");
                assert(r@ =~= impl_td(self@, name@));
            },
        }
        r
    }
}

pub struct StreamletModel {
    pub name: Seq<char>,
    pub streams: InterfaceModel,
    pub implementation: Option<ImplModel>,
}

/// A streamlet declaration: a name, an interface, and optionally a body.
pub struct TilStreamlet {
    name: String,
    streams: TilStreamingInterface,
    implementation: Option<TilImplementationType>,
}

pub open spec fn opt_impl_view(o: Option<TilImplementationType>) -> Option<ImplModel> {
    match o {
        Some(i) => Some(i@),
        None => None,
    }
}

impl View for TilStreamlet {
    type V = StreamletModel;

    closed spec fn view(&self) -> StreamletModel {
        StreamletModel {
            name: self.name@,
            streams: self.streams@,
            implementation: opt_impl_view(self.implementation),
        }
    }
}

pub open spec fn streamlets_view(s: Seq<TilStreamlet>) -> Seq<StreamletModel> {
    s.map_values(|t: TilStreamlet| t@)
}

impl TilStreamlet {
    /// A streamlet with no generics, no ports and no body.
    pub fn new(name: &str) -> (r: TilStreamlet)
        ensures
            r@ == (StreamletModel {
                name: name@,
                streams: InterfaceModel { generics: Seq::empty(), streams: Seq::empty() },
                implementation: None,
            }),
    {
        TilStreamlet { name: String::from_str(name), streams: TilStreamingInterface::new(), implementation: None }
    }

    pub fn get_name(&self) -> (r: &str)
        ensures
            r@ == self@.name,
    {
        self.name.as_str()
    }

    pub fn set_implementation(&mut self, implementation: TilImplementationType)
        ensures
            final(self)@ == (StreamletModel { implementation: Some(implementation@), ..old(self)@ }),
    {
        self.implementation = Some(implementation);
    }

    pub fn set_streaming_interface(&mut self, stream_interface: TilStreamingInterface)
        ensures
            final(self)@ == (StreamletModel { streams: stream_interface@, ..old(self)@ }),
    {
        self.streams = stream_interface;
    }

    pub fn get_streams(&self) -> (r: &TilStreamingInterface)
        ensures
            r@ == self@.streams,
    {
        &self.streams
    }

    pub fn get_implementation(&self) -> (r: &Option<TilImplementationType>)
        ensures
            opt_impl_view(*r) == self@.implementation,
    {
        &self.implementation
    }
}

/// The signals of `s` of the given kind (`true`: between instances,
/// `false`: to a top-level output), in order.
pub open spec fn signals_of_kind(s: Seq<SignalModel>, intermediate: bool) -> Seq<SignalModel>
    decreases s.len(),
{
    if s.len() == 0 {
        Seq::empty()
    } else if (intermediate && s.last() is Intermediate) || (!intermediate && s.last() is Output) {
        signals_of_kind(s.drop_last(), intermediate).push(s.last())
    } else {
        signals_of_kind(s.drop_last(), intermediate)
    }
}

/// Sorts signals into those between instances and those that leave the top
/// component; signals from a top-level input are not kept.
pub struct SignalManager {
    intermediate_signals: Vec<TilSignal>,
    output_signals: Vec<TilSignal>,
}

impl SignalManager {
    pub closed spec fn intermediate(&self) -> Seq<SignalModel> {
        signals_view(self.intermediate_signals@)
    }

    pub closed spec fn outputs(&self) -> Seq<SignalModel> {
        signals_view(self.output_signals@)
    }

    pub fn new() -> (r: SignalManager)
        ensures
            r.intermediate() == Seq::<SignalModel>::empty(),
            r.outputs() == Seq::<SignalModel>::empty(),
    {
        let r = SignalManager { intermediate_signals: Vec::new(), output_signals: Vec::new() };
        assert(r.intermediate() =~= Seq::<SignalModel>::empty());
        assert(r.outputs() =~= Seq::<SignalModel>::empty());
        r
    }

    pub fn add_signal(&mut self, signal: TilSignal)
        ensures
            final(self).intermediate() == if signal@ is Intermediate {
                old(self).intermediate().push(signal@)
            } else {
                old(self).intermediate()
            },
            final(self).outputs() == if signal@ is Output {
                old(self).outputs().push(signal@)
            } else {
                old(self).outputs()
            },
    {
        let ghost v = signal@;
        match signal {
            TilSignal::Intermediate { .. } => {
                self.intermediate_signals.push(signal);
                assert(self.intermediate() =~= old(self).intermediate().push(v));
            },
            TilSignal::Output { .. } => {
                self.output_signals.push(signal);
                assert(self.outputs() =~= old(self).outputs().push(v));
            },
            _ => {},
        }
    }

    pub fn add_multiple_signals(&mut self, signals: Vec<TilSignal>)
        ensures
            final(self).intermediate() == old(self).intermediate() + signals_of_kind(signals_view(signals@), true),
            final(self).outputs() == old(self).outputs() + signals_of_kind(signals_view(signals@), false),
    {
        let ghost all = signals_view(signals@);
        let mut rest = signals;
        let n = rest.len();
        let mut i: usize = 0;
        while i < n
            invariant
                i <= n,
                n == all.len(),
                signals_view(rest@) == all.subrange(i as int, n as int),
                self.intermediate() == old(self).intermediate() + signals_of_kind(all.subrange(0, i as int), true),
                self.outputs() == old(self).outputs() + signals_of_kind(all.subrange(0, i as int), false),
            decreases n - i,
        {
            let ghost before = rest@;
            assert(signals_view(before).len() == before.len());
            assert(signals_view(before)[0] == all[i as int]);
            let x = rest.remove(0);
            assert(rest@ =~= before.subrange(1, before.len() as int));
            assert forall|k: int| 0 <= k < rest@.len() implies signals_view(rest@)[k] == all[i + 1 + k] by {
                assert(rest@[k] == before[k + 1]);
                assert(signals_view(before)[k + 1] == all.subrange(i as int, n as int)[k + 1]);
            }
            assert(signals_view(rest@) =~= all.subrange(i + 1, n as int));
            assert(all.subrange(0, i + 1).drop_last() =~= all.subrange(0, i as int));
            self.add_signal(x);
            i += 1;
            assert(self.intermediate() =~= old(self).intermediate() + signals_of_kind(all.subrange(0, i as int), true));
            assert(self.outputs() =~= old(self).outputs() + signals_of_kind(all.subrange(0, i as int), false));
        }
        assert(all.subrange(0, n as int) =~= all);
    }

    pub fn get_intermediate_signals(&self) -> (r: &Vec<TilSignal>)
        ensures
            signals_view(r@) == self.intermediate(),
    {
        &self.intermediate_signals
    }

    pub fn get_output_signals(&self) -> (r: &Vec<TilSignal>)
        ensures
            signals_view(r@) == self.outputs(),
    {
        &self.output_signals
    }
}


/// A signal in the netlist language: `src.stream -- dst.stream;`.
pub open spec fn signal_text(s: SignalModel) -> Seq<char> {
    let src = match s.source_inst() {
        Some(i) => i + "."@,
        None => Seq::empty(),
    };
    let dst = match s.dest_inst() {
        Some(i) => i + "."@,
        None => Seq::empty(),
    };
    src + s.source_stream() + " -- "@ + dst + s.dest_stream() + ";"@
}

/// An instance in the netlist language: `inst = component;`.
pub open spec fn instance_text(i: InstanceModel) -> Seq<char> {
    i.instance_name + " = "@ + i.component_name + ";"@
}

pub open spec fn instances_text(s: Seq<InstanceModel>) -> Seq<char>
    decreases s.len(),
{
    if s.len() == 0 {
        Seq::empty()
    } else {
        instances_text(s.drop_last()) + instance_text(s.last()) + "\n"@
    }
}

pub open spec fn signals_text(s: Seq<SignalModel>) -> Seq<char>
    decreases s.len(),
{
    if s.len() == 0 {
        Seq::empty()
    } else {
        signals_text(s.drop_last()) + signal_text(s.last()) + "\n"@
    }
}

pub open spec fn generics_text(s: Seq<GenericModel>) -> Seq<char>
    decreases s.len(),
{
    if s.len() == 0 {
        Seq::empty()
    } else {
        generics_text(s.drop_last()) + generic_text(s.last()) + ",\n"@
    }
}

pub open spec fn ports_text(s: Seq<StreamModel>) -> Seq<char>
    decreases s.len(),
{
    if s.len() == 0 {
        Seq::empty()
    } else {
        ports_text(s.drop_last()) + "    "@ + stream_text(s.last()) + ",\n"@
    }
}

pub open spec fn generics_td(s: Seq<GenericModel>) -> Seq<char>
    decreases s.len(),
{
    if s.len() == 0 {
        Seq::empty()
    } else {
        generics_td(s.drop_last()) + generic_td(s.last())
    }
}

pub open spec fn ports_td(s: Seq<StreamModel>) -> Seq<char>
    decreases s.len(),
{
    if s.len() == 0 {
        Seq::empty()
    } else {
        ports_td(s.drop_last()) + "    "@ + stream_td(s.last()) + "\n"@
    }
}

/// An implementation in the netlist language.
pub open spec fn impl_text(i: ImplModel) -> Seq<char> {
    match i {
        ImplModel::Path(p) => "{\n    impl: \""@ + p + "\"\n}"@,
        ImplModel::Inline(b) => "{\n    impl: {\n        "@ + instances_text(b.instances) + "\n"@ + signals_text(
            b.signals,
        ) + "\n    }\n}"@,
    }
}

/// A streamlet declaration in the netlist language.
pub open spec fn streamlet_text(m: StreamletModel) -> Seq<char> {
    let generics = if m.streams.generics.len() == 0 {
        Seq::empty()
    } else {
        "<\n"@ + generics_text(m.streams.generics) + "\n>"@
    };
    let body = match m.implementation {
        Some(i) => impl_text(i),
        None => Seq::empty(),
    };
    "streamlet "@ + m.name + " = "@ + generics + " (\n    "@ + ports_text(m.streams.streams) + "\n)"@ + body + ";"@
}

/// A streamlet declaration in the component description language.
pub open spec fn streamlet_td(m: StreamletModel) -> Seq<char> {
    let generics = if m.streams.generics.len() == 0 {
        Seq::empty()
    } else {
        "\n"@ + generics_td(m.streams.generics)
    };
    let body = match m.implementation {
        Some(i) => impl_td(i, m.name),
        None => Seq::empty(),
    };
    "streamlet "@ + m.name + " {"@ + generics + "\n"@ + ports_td(m.streams.streams) + "}"@ + body
}

impl TilSignal {
    /// The signal in the netlist language (see `signal_text`).
    pub fn to_text(&self) -> (r: String)
        ensures
            r@ == signal_text(self@),
    {
        let mut r = String::new();
        match self.get_source_inst_name() {
            Some(i) => {
                r.append(i.as_str());
                r.append(".");
            },
            None => {},
        }
        r.append(self.get_source_stream_name().as_str());
        r.append(" -- ");
        match self.get_dest_inst_name() {
            Some(i) => {
                r.append(i.as_str());
                r.append(".");
            },
            None => {},
        }
        r.append(self.get_dest_stream_name().as_str());
        r.append(";");
        assert(r@ =~= signal_text(self@));
        r
    }
}

impl TilInstance {
    /// The instance in the netlist language (see `instance_text`).
    pub fn to_text(&self) -> (r: String)
        ensures
            r@ == instance_text(self@),
    {
        let mut r = self.instance_name.clone();
        r.append(" = ");
        r.append(self.component_name.as_str());
        r.append(";");
        assert(r@ =~= instance_text(self@));
        r
    }
}

impl TilImplementationType {
    /// The implementation in the netlist language (see `impl_text`).
    pub fn to_text(&self) -> (r: String)
        ensures
            r@ == impl_text(self@),
    {
        match self {
            TilImplementationType::Path(p) => {
                let mut r = String::from_str("{\n    impl: \"");
                r.append(p.as_str());
                r.append("\"\n}");
                assert(r@ =~= impl_text(self@));
                r
            },
            TilImplementationType::Inline(inline) => {
                let mut r = String::from_str("{\n    impl: {\n        ");
                let instances = inline.get_instances();
                let mut i: usize = 0;
                let ghost start = r@;
                while i < instances.len()
                    invariant
                        i <= instances@.len(),
                        r@ == start + instances_text(instances_view(instances@).subrange(0, i as int)),
                    decreases instances@.len() - i,
                {
                    let ghost iv = instances_view(instances@);
                    assert(iv.subrange(0, i + 1).drop_last() =~= iv.subrange(0, i as int));
                    let t = instances[i].to_text();
                    r.append(t.as_str());
                    r.append("\n");
                    i += 1;
                    assert(r@ =~= start + instances_text(iv.subrange(0, i as int)));
                }
                assert(instances_view(instances@).subrange(0, i as int) =~= instances_view(instances@));
                r.append("\n");
                let signals = inline.get_signals();
                let mut j: usize = 0;
                let ghost start2 = r@;
                while j < signals.len()
                    invariant
                        j <= signals@.len(),
                        r@ == start2 + signals_text(signals_view(signals@).subrange(0, j as int)),
                    decreases signals@.len() - j,
                {
                    let ghost sv = signals_view(signals@);
                    assert(sv.subrange(0, j + 1).drop_last() =~= sv.subrange(0, j as int));
                    let t = signals[j].to_text();
                    r.append(t.as_str());
                    r.append("\n");
                    j += 1;
                    assert(r@ =~= start2 + signals_text(sv.subrange(0, j as int)));
                }
                assert(signals_view(signals@).subrange(0, j as int) =~= signals_view(signals@));
                r.append("\n    }\n}");
                assert(r@ =~= impl_text(self@));
                r
            },
        }
    }
}

impl TilStreamlet {
    /// The declaration in the netlist language (see `streamlet_text`).
    pub fn to_text(&self) -> (r: String)
        ensures
            r@ == streamlet_text(self@),
    {
        let mut r = String::from_str("streamlet ");
        r.append(self.name.as_str());
        r.append(" = ");
        let generics = self.streams.get_generics();
        if generics.len() > 0 {
            r.append("<\n");
            let mut i: usize = 0;
            let ghost start = r@;
            while i < generics.len()
                invariant
                    i <= generics@.len(),
                    r@ == start + generics_text(generics_view(generics@).subrange(0, i as int)),
                decreases generics@.len() - i,
            {
                let ghost gv = generics_view(generics@);
                assert(gv.subrange(0, i + 1).drop_last() =~= gv.subrange(0, i as int));
                let t = generics[i].to_text();
                r.append(t.as_str());
                r.append(",\n");
                i += 1;
                assert(r@ =~= start + generics_text(gv.subrange(0, i as int)));
            }
            assert(generics_view(generics@).subrange(0, i as int) =~= generics_view(generics@));
            r.append("\n>");
        }
        r.append(" (\n    ");
        let streams = self.streams.get_streams();
        let mut j: usize = 0;
        let ghost start2 = r@;
        while j < streams.len()
            invariant
                j <= streams@.len(),
                r@ == start2 + ports_text(streams_view(streams@).subrange(0, j as int)),
            decreases streams@.len() - j,
        {
            let ghost sv = streams_view(streams@);
            assert(sv.subrange(0, j + 1).drop_last() =~= sv.subrange(0, j as int));
            let t = streams[j].to_text();
            r.append("    ");
            r.append(t.as_str());
            r.append(",\n");
            j += 1;
            assert(r@ =~= start2 + ports_text(sv.subrange(0, j as int)));
        }
        assert(streams_view(streams@).subrange(0, j as int) =~= streams_view(streams@));
        r.append("\n)");
        match &self.implementation {
            Some(i) => {
                let t = i.to_text();
                r.append(t.as_str());
            },
            None => {},
        }
        r.append(";");
        assert(r@ =~= streamlet_text(self@));
        r
    }

    /// The declaration in the component description language (see `streamlet_td`).
    pub fn td(&self) -> (r: String)
        ensures
            r@ == streamlet_td(self@),
    {
        let mut r = String::from_str("streamlet ");
        r.append(self.name.as_str());
        r.append(" {");
        let generics = self.streams.get_generics();
        if generics.len() > 0 {
            r.append("\n");
            let mut i: usize = 0;
            let ghost start = r@;
            while i < generics.len()
                invariant
                    i <= generics@.len(),
                    r@ == start + generics_td(generics_view(generics@).subrange(0, i as int)),
                decreases generics@.len() - i,
            {
                let ghost gv = generics_view(generics@);
                assert(gv.subrange(0, i + 1).drop_last() =~= gv.subrange(0, i as int));
                let t = generics[i].td();
                r.append(t.as_str());
                i += 1;
                assert(r@ =~= start + generics_td(gv.subrange(0, i as int)));
            }
            assert(generics_view(generics@).subrange(0, i as int) =~= generics_view(generics@));
        }
        r.append("\n");
        let streams = self.streams.get_streams();
        let mut j: usize = 0;
        let ghost start2 = r@;
        while j < streams.len()
            invariant
                j <= streams@.len(),
                r@ == start2 + ports_td(streams_view(streams@).subrange(0, j as int)),
            decreases streams@.len() - j,
        {
            let ghost sv = streams_view(streams@);
            assert(sv.subrange(0, j + 1).drop_last() =~= sv.subrange(0, j as int));
            let t = streams[j].td();
            r.append("    ");
            r.append(t.as_str());
            r.append("\n");
            j += 1;
            assert(r@ =~= start2 + ports_td(sv.subrange(0, j as int)));
        }
        assert(streams_view(streams@).subrange(0, j as int) =~= streams_view(streams@));
        r.append("}");
        match &self.implementation {
            Some(i) => {
                let t = i.td(self.name.clone());
                r.append(t.as_str());
            },
            None => {},
        }
        assert(r@ =~= streamlet_td(self@));
        r
    }
}

} // verus!
