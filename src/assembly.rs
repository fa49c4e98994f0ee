//! Lowering of a component tree into one top-level streamlet: instances,
//! signals, promoted outputs, declared stream types and matcher requests.
use vstd::prelude::*;
use crate::components::{
    Shape, JsonComponent, Key, Matcher, shape_size, shapes_size, shape_level, shape_preferred_name, shape_num_outgoing,
    shape_stream_types, shape_interface, shape_output_type, levels_within, port, fixed_dim, component_shape,
    key_shape, keys_shape, lemma_keys_shape_len, lemma_all_levels_within, shape_template, TemplateType,
};
use crate::name_reg::{base_key, issued_name};
use crate::name_reg::NameReg;
use crate::netlist::{
    InstanceModel, SignalModel, StreamletModel, ImplModel, InlineModel, instance_name_of, TilSignal, TilStreamlet,
    TilImplementationType, TilInlineImplementation, streamlets_view,
};
use crate::types::{
    StreamType, StreamModel, TilStreamDirection, InterfaceModel, TilStream, TilStreamingInterface, StreamTypeDecl,
    opt_str_view, StreamDim,
};
use crate::type_reg::{TypeReg, declaration_order};
use crate::params::{GeneratorParams, GeneratorError};
use crate::analyzer::{JsonNode, analysis, field_analysis};
use crate::matcher_manager::{
    MatcherModel, MatcherManager, MatcherRequest, find_matcher, requests_view, lemma_find_matcher_none,
};

verus! {

/// The state the traversal threads through the tree.
pub struct AsmState {
    /// Per base key, how many names were handed out.
    pub names: Map<Seq<char>, nat>,
    /// The base key and counter value each instance's name was made from.
    pub name_keys: Seq<(Seq<char>, nat)>,
    pub types: Set<StreamType>,
    /// The streamlet declared for each instance.
    pub entities: Seq<StreamletModel>,
    pub instances: Seq<InstanceModel>,
    pub signals: Seq<SignalModel>,
    /// The ports of the top component: its input, then each promoted output.
    pub ports: Seq<StreamModel>,
    pub matchers: Seq<MatcherModel>,
    /// The module template of each declared streamlet.
    pub templates: Seq<TemplateType>,
}

pub open spec fn map_count(m: Map<Seq<char>, nat>, b: Seq<char>) -> nat {
    if m.contains_key(b) {
        m[b]
    } else {
        0
    }
}

/// The single input port of the top component.
pub open spec fn top_input_port() -> StreamModel {
    port("input"@, TilStreamDirection::Input, StreamType::Json, fixed_dim(2, 0))
}

pub open spec fn initial_state() -> AsmState {
    AsmState {
        names: Map::empty(),
        name_keys: Seq::empty(),
        types: Set::empty().insert(StreamType::Json),
        entities: Seq::empty(),
        instances: Seq::empty(),
        signals: Seq::empty(),
        ports: seq![top_input_port()],
        matchers: Seq::empty(),
        templates: Seq::empty(),
    }
}

/// Registers a name for `sh`, declares its streamlet and types, and adds its
/// instance; returns the instance name.
pub open spec fn instantiate(st: AsmState, sh: Shape, epc: nat, int_width: nat) -> (AsmState, Seq<char>) {
    let base = base_key(shape_preferred_name(sh), shape_level(sh));
    let c = map_count(st.names, base);
    let name = issued_name(base, c);
    let inst = instance_name_of(name);
    (
        AsmState {
            names: st.names.insert(base, c + 1),
            name_keys: st.name_keys.push((base, c)),
            types: st.types + shape_stream_types(sh).to_set(),
            entities: st.entities.push(
                StreamletModel {
                    name,
                    streams: shape_interface(sh, epc, int_width),
                    implementation: Some(ImplModel::Path("./vhdl_dir"@)),
                },
            ),
            instances: st.instances.push(InstanceModel { component_name: name, instance_name: inst }),
            templates: st.templates.push(shape_template(sh)),
            ..st
        },
        inst,
    )
}

/// The signal feeding an instance: from its parent's output, or from the top
/// component's input.
pub open spec fn input_signal(parent: Option<Seq<char>>, inst: Seq<char>) -> SignalModel {
    match parent {
        Some(p) => SignalModel::Intermediate {
            source_inst: p,
            source_stream: "output"@,
            dest_inst: inst,
            dest_stream: "input"@,
        },
        None => SignalModel::Input { source_stream: "input"@, dest_inst: inst, dest_stream: "input"@ },
    }
}

/// The name of the top-level port an instance's output is promoted to.
pub open spec fn output_port_name(inst: Seq<char>) -> Seq<char> {
    "output_"@ + inst
}

/// Exposes the instance's output on a new top-level port when no other
/// instance consumes it.
pub open spec fn promote(st: AsmState, sh: Shape, inst: Seq<char>) -> AsmState {
    if shape_num_outgoing(sh) == 0 {
        let p = StreamModel {
            name: output_port_name(inst),
            direction: TilStreamDirection::Output,
            stream_type: shape_output_type(sh),
        };
        AsmState {
            ports: st.ports.push(p),
            signals: st.signals.push(
                SignalModel::Output {
                    source_inst: inst,
                    source_stream: "output"@,
                    dest_stream: output_port_name(inst),
                    output_stream: p,
                },
            ),
            ..st
        }
    } else {
        st
    }
}

/// Instantiates a generatable node, wires its input and promotes its output
/// when nothing consumes it.
pub open spec fn process_node(st: AsmState, sh: Shape, parent: Option<Seq<char>>, epc: nat, int_width: nat) -> (
    AsmState,
    Seq<char>,
) {
    let (st1, inst) = instantiate(st, sh, epc, int_width);
    let st2 = AsmState { signals: st1.signals.push(input_signal(parent, inst)), ..st1 };
    (promote(st2, sh, inst), inst)
}

/// Connects the key instance `holder` to the matcher for `pattern`, creating
/// and requesting that matcher on the first use of the literal.
pub open spec fn process_matcher(
    st: AsmState,
    pattern: Seq<char>,
    outer: nat,
    holder: Seq<char>,
    epc: nat,
    int_width: nat,
) -> AsmState {
    let (st1, minst) = match find_matcher(st.matchers, pattern) {
        Some(i) => (st, instance_name_of(st.matchers[i as int].component_name)),
        None => {
            let (s, inst) = instantiate(st, Shape::Matcher { pattern, outer }, epc, int_width);
            (
                AsmState {
                    matchers: s.matchers.push(
                        MatcherModel { pattern, component_name: s.instances.last().component_name, holder_name: holder },
                    ),
                    ..s
                },
                inst,
            )
        },
    };
    AsmState {
        signals: st1.signals.push(
            SignalModel::Intermediate {
                source_inst: holder,
                source_stream: "matcher_str"@,
                dest_inst: minst,
                dest_stream: "input"@,
            },
        ).push(
            SignalModel::Intermediate {
                source_inst: minst,
                source_stream: "output"@,
                dest_inst: holder,
                dest_stream: "matcher_match"@,
            },
        ),
        ..st1
    }
}

/// Depth-first, document-order lowering of the tree `sh` whose parent
/// instance is `parent`.
pub open spec fn visit(sh: Shape, parent: Option<Seq<char>>, st: AsmState, epc: nat, int_width: nat) -> AsmState
    decreases sh,
{
    match sh {
        Shape::Record { fields, .. } => visit_all(fields, parent, st, epc, int_width),
        Shape::Matcher { pattern, outer } => match parent {
            Some(h) => process_matcher(st, pattern, outer, h, epc, int_width),
            None => process_node(st, sh, parent, epc, int_width).0,
        },
        Shape::Array { element, .. } => {
            let (st1, me) = process_node(st, sh, parent, epc, int_width);
            match element {
                Some(e) => visit(*e, Some(me), st1, epc, int_width),
                None => st1,
            }
        },
        Shape::Key { pattern, matcher_outer, value, .. } => {
            let (st1, me) = process_node(st, sh, parent, epc, int_width);
            let st2 = process_matcher(st1, pattern, matcher_outer, me, epc, int_width);
            match value {
                Some(v) => visit(*v, Some(me), st2, epc, int_width),
                None => st2,
            }
        },
        Shape::Value { .. } => process_node(st, sh, parent, epc, int_width).0,
    }
}

/// Lowers the fields of a record, first to last.
pub open spec fn visit_all(s: Seq<Shape>, parent: Option<Seq<char>>, st: AsmState, epc: nat, int_width: nat) -> AsmState
    decreases s,
{
    if s.len() == 0 {
        st
    } else {
        visit_all(s.subrange(1, s.len() as int), parent, visit(s[0], parent, st, epc, int_width), epc, int_width)
    }
}

/// The result of assembling the tree `root`.
pub open spec fn assembled(root: Shape, epc: nat, int_width: nat) -> AsmState {
    visit(root, None, initial_state(), epc, int_width)
}

/// The top component of an assembly.
pub open spec fn top_model(st: AsmState) -> StreamletModel {
    StreamletModel {
        name: "top"@,
        streams: InterfaceModel { generics: Seq::empty(), streams: st.ports },
        implementation: Some(ImplModel::Inline(InlineModel { instances: st.instances, signals: st.signals })),
    }
}

pub type Task = (Option<Seq<char>>, Shape);

/// What is left to do with a stack of pending nodes, the top last.
pub open spec fn run_stack(stack: Seq<Task>, st: AsmState, epc: nat, int_width: nat) -> AsmState
    decreases stack.len(),
{
    if stack.len() == 0 {
        st
    } else {
        run_stack(stack.drop_last(), visit(stack.last().1, stack.last().0, st, epc, int_width), epc, int_width)
    }
}

/// The tasks for the fields `s`, pushed so that the first field is on top.
pub open spec fn rev_tasks(s: Seq<Shape>, parent: Option<Seq<char>>) -> Seq<Task>
    decreases s.len(),
{
    if s.len() == 0 {
        Seq::empty()
    } else {
        rev_tasks(s.subrange(1, s.len() as int), parent).push((parent, s[0]))
    }
}

pub open spec fn tasks_size(s: Seq<Task>) -> nat
    decreases s.len(),
{
    if s.len() == 0 {
        0
    } else {
        tasks_size(s.drop_last()) + shape_size(s.last().1)
    }
}

proof fn lemma_run_fields(rest: Seq<Task>, s: Seq<Shape>, parent: Option<Seq<char>>, st: AsmState, epc: nat, int_width: nat)
    ensures
        run_stack(rest + rev_tasks(s, parent), st, epc, int_width) == run_stack(
            rest,
            visit_all(s, parent, st, epc, int_width),
            epc,
            int_width,
        ),
    decreases s.len(),
{
    if s.len() == 0 {
        assert(rest + rev_tasks(s, parent) =~= rest);
    } else {
        let tail = s.subrange(1, s.len() as int);
        let whole = rest + rev_tasks(s, parent);
        assert(whole.drop_last() =~= rest + rev_tasks(tail, parent));
        assert(whole.last() == (parent, s[0]));
        lemma_run_fields(rest, tail, parent, visit(s[0], parent, st, epc, int_width), epc, int_width);
    }
}

proof fn lemma_tasks_size_append(a: Seq<Task>, b: Seq<Task>)
    ensures
        tasks_size(a + b) == tasks_size(a) + tasks_size(b),
    decreases b.len(),
{
    if b.len() == 0 {
        assert(a + b =~= a);
    } else {
        assert((a + b).drop_last() =~= a + b.drop_last());
        lemma_tasks_size_append(a, b.drop_last());
    }
}

proof fn lemma_rev_tasks_size(s: Seq<Shape>, parent: Option<Seq<char>>)
    ensures
        tasks_size(rev_tasks(s, parent)) == shapes_size(s),
        rev_tasks(s, parent).len() == s.len(),
    decreases s.len(),
{
    if s.len() > 0 {
        let tail = s.subrange(1, s.len() as int);
        lemma_rev_tasks_size(tail, parent);
        assert(rev_tasks(s, parent).drop_last() =~= rev_tasks(tail, parent));
    }
}


/// A pending node: a component, or a field of a record.
enum Node<'a> {
    Comp(&'a JsonComponent),
    Field(&'a Key),
}

spec fn node_shape(n: Node) -> Shape {
    match n {
        Node::Comp(c) => component_shape(*c),
        Node::Field(k) => key_shape(*k),
    }
}

spec fn task_of(p: (Option<String>, Node)) -> Task {
    (opt_str_view(p.0), node_shape(p.1))
}

spec fn tasks_view(s: Seq<(Option<String>, Node)>) -> Seq<Task> {
    s.map_values(|p: (Option<String>, Node)| task_of(p))
}

/// The outcome of an assembly.
pub struct Assembly {
    /// The synthesized top component with its inline implementation.
    pub top: TilStreamlet,
    /// The streamlet declared for each instance, in instantiation order.
    pub entities: Vec<TilStreamlet>,
    /// The stream-type kinds to declare, in declaration order.
    pub stream_types: Vec<StreamType>,
    /// One matcher request per distinct literal, in first-use order.
    pub matchers: Vec<MatcherRequest>,
    /// The module template of each entity.
    pub templates: Vec<TemplateType>,
}

struct Builder {
    names: NameReg,
    types: TypeReg,
    entities: Vec<TilStreamlet>,
    implementation: TilInlineImplementation,
    ports: TilStreamingInterface,
    matchers: MatcherManager,
    templates: Vec<TemplateType>,
}

impl Builder {
    spec fn matches(&self, st: AsmState) -> bool {
        &&& self.names.wf()
        &&& forall|b: Seq<char>| #[trigger] self.names.count(b) == map_count(st.names, b)
        &&& self.types@ == st.types
        &&& streamlets_view(self.entities@) == st.entities
        &&& self.implementation@ == (InlineModel { instances: st.instances, signals: st.signals })
        &&& self.ports@ == (InterfaceModel { generics: Seq::empty(), streams: st.ports })
        &&& self.matchers@ == st.matchers
        &&& self.templates@ == st.templates
    }

    fn instantiate(
        &mut self,
        preferred: String,
        level: usize,
        types: Vec<StreamType>,
        interface: TilStreamingInterface,
        template: TemplateType,
        Ghost(sh): Ghost<Shape>,
        Ghost(st): Ghost<AsmState>,
        Ghost(epc): Ghost<nat>,
        Ghost(int_width): Ghost<nat>,
    ) -> (r: (String, String))
        requires
            old(self).matches(st),
            template == shape_template(sh),
            preferred@ == shape_preferred_name(sh),
            level as nat == shape_level(sh),
            types@ == shape_stream_types(sh),
            interface@ == shape_interface(sh, epc, int_width),
            map_count(st.names, base_key(shape_preferred_name(sh), shape_level(sh))) < usize::MAX,
        ensures
            final(self).matches(instantiate(st, sh, epc, int_width).0),
            r.1@ == instantiate(st, sh, epc, int_width).1,
            r.0@ == instantiate(st, sh, epc, int_width).0.instances.last().component_name,
    {
        let ghost base = base_key(shape_preferred_name(sh), shape_level(sh));
        let name = self.names.register(preferred.as_str(), level);
        self.types.register_all(&types);
        let mut entity = TilStreamlet::new(name.as_str());
        entity.set_streaming_interface(interface);
        entity.set_implementation(TilImplementationType::Path(String::from_str("./vhdl_dir")));
        let ghost old_entities = self.entities@;
        self.entities.push(entity);
        assert(streamlets_view(self.entities@) =~= streamlets_view(old_entities).push(entity@));
        let inst = self.implementation.add_instance(name.clone());
        self.templates.push(template);
        proof {
            let st2 = instantiate(st, sh, epc, int_width).0;
            assert forall|b: Seq<char>| #[trigger] self.names.count(b) == map_count(st2.names, b) by {}
        }
        (name, inst)
    }

    fn wire_input(&mut self, parent: &Option<String>, inst: &String, Ghost(st): Ghost<AsmState>)
        requires
            old(self).matches(st),
        ensures
            final(self).matches(AsmState { signals: st.signals.push(input_signal(opt_str_view(*parent), inst@)), ..st }),
    {
        let signal = match parent {
            Some(p) => TilSignal::Intermediate {
                source_inst_name: p.clone(),
                source_stream_name: String::from_str("output"),
                dest_inst_name: inst.clone(),
                dest_stream_name: String::from_str("input"),
            },
            None => TilSignal::Input {
                source_stream_name: String::from_str("input"),
                dest_inst_name: inst.clone(),
                dest_stream_name: String::from_str("input"),
            },
        };
        self.implementation.add_signal(signal);
    }

    fn promote(&mut self, out_type: StreamTypeDecl, inst: &String, Ghost(sh): Ghost<Shape>, Ghost(st): Ghost<AsmState>)
        requires
            old(self).matches(st),
            shape_num_outgoing(sh) == 0,
            out_type@ == shape_output_type(sh),
        ensures
            final(self).matches(promote(st, sh, inst@)),
    {
        let mut name = String::from_str("output_");
        name.append(inst.as_str());
        proof {
            reveal_strlit("output_");
        }
        let stream = TilStream::new(name.as_str(), TilStreamDirection::Output, out_type);
        let port_copy = TilStream::new(name.as_str(), TilStreamDirection::Output, stream.get_type().duplicate());
        self.ports.add_til_stream(port_copy);
        self.implementation.add_signal(
            TilSignal::Output {
                source_inst_name: inst.clone(),
                source_stream_name: String::from_str("output"),
                dest_stream_name: name,
                output_stream: stream,
            },
        );
    }

    /// Instantiates a generatable node and wires its input; promotes its output
    /// when `promoted` carries the port type.
    fn process_node(
        &mut self,
        preferred: String,
        level: usize,
        types: Vec<StreamType>,
        interface: TilStreamingInterface,
        template: TemplateType,
        promoted: Option<StreamTypeDecl>,
        parent: &Option<String>,
        Ghost(sh): Ghost<Shape>,
        Ghost(st): Ghost<AsmState>,
        Ghost(epc): Ghost<nat>,
        Ghost(int_width): Ghost<nat>,
    ) -> (inst: String)
        requires
            old(self).matches(st),
            template == shape_template(sh),
            preferred@ == shape_preferred_name(sh),
            level as nat == shape_level(sh),
            types@ == shape_stream_types(sh),
            interface@ == shape_interface(sh, epc, int_width),
            promoted is Some <==> shape_num_outgoing(sh) == 0,
            promoted is Some ==> promoted->0@ == shape_output_type(sh),
            map_count(st.names, base_key(shape_preferred_name(sh), shape_level(sh))) < usize::MAX,
        ensures
            final(self).matches(process_node(st, sh, opt_str_view(*parent), epc, int_width).0),
            inst@ == process_node(st, sh, opt_str_view(*parent), epc, int_width).1,
    {
        let (_, inst) = self.instantiate(
            preferred,
            level,
            types,
            interface,
            template,
            Ghost(sh),
            Ghost(st),
            Ghost(epc),
            Ghost(int_width),
        );
        let ghost st1 = instantiate(st, sh, epc, int_width).0;
        self.wire_input(parent, &inst, Ghost(st1));
        let ghost st2 = AsmState { signals: st1.signals.push(input_signal(opt_str_view(*parent), inst@)), ..st1 };
        match promoted {
            Some(t) => self.promote(t, &inst, Ghost(sh), Ghost(st2)),
            None => {},
        }
        inst
    }

    /// Connects the key instance `holder` to the matcher of `m`'s literal,
    /// creating and requesting that matcher on first use.
    fn process_matcher(
        &mut self,
        m: &Matcher,
        holder: &String,
        gen_params: &GeneratorParams,
        Ghost(st): Ghost<AsmState>,
    ) -> (r: bool)
        requires
            old(self).matches(st),
            map_count(st.names, base_key(shape_preferred_name(m.shape()), m.outer_nested as nat)) < usize::MAX,
        ensures
            final(self).matches(
                process_matcher(st, m.matcher@, m.outer_nested as nat, holder@, gen_params.epc as nat, gen_params.int_width as nat),
            ),
            r == (find_matcher(st.matchers, m.matcher@) is None),
    {
        let ghost epc = gen_params.epc as nat;
        let ghost iw = gen_params.int_width as nat;
        let found: Option<String> = match self.matchers.find(&m.matcher) {
            Some(n) => Some(n.clone()),
            None => None,
        };
        let ghost st1;
        let added;
        let minst = match found {
            Some(name) => {
                proof {
                    st1 = st;
                }
                added = false;
                let mut inst = name;
                inst.append("_inst");
                inst
            },
            None => {
                let (name, inst) = self.instantiate(
                    m.get_preferred_name(),
                    m.outer_nested,
                    m.get_streaming_types(),
                    m.get_streaming_interface(gen_params),
                    TemplateType::Matcher,
                    Ghost(m.shape()),
                    Ghost(st),
                    Ghost(epc),
                    Ghost(iw),
                );
                let ghost s = instantiate(st, m.shape(), epc, iw).0;
                self.matchers.add_matcher(m.matcher.clone(), name, holder.clone());
                proof {
                    st1 = AsmState {
                        matchers: s.matchers.push(
                            MatcherModel {
                                pattern: m.matcher@,
                                component_name: s.instances.last().component_name,
                                holder_name: holder@,
                            },
                        ),
                        ..s
                    };
                }
                added = true;
                inst
            },
        };
        self.implementation.add_signal(
            TilSignal::Intermediate {
                source_inst_name: holder.clone(),
                source_stream_name: String::from_str("matcher_str"),
                dest_inst_name: minst.clone(),
                dest_stream_name: String::from_str("input"),
            },
        );
        self.implementation.add_signal(
            TilSignal::Intermediate {
                source_inst_name: minst,
                source_stream_name: String::from_str("output"),
                dest_inst_name: holder.clone(),
                dest_stream_name: String::from_str("matcher_match"),
            },
        );
        added
    }
}


proof fn lemma_instantiate_counts(st: AsmState, sh: Shape, epc: nat, int_width: nat)
    requires
        forall|b: Seq<char>| #[trigger] map_count(st.names, b) <= st.instances.len(),
    ensures
        ({
            let st2 = instantiate(st, sh, epc, int_width).0;
            &&& forall|b: Seq<char>| #[trigger] map_count(st2.names, b) <= st2.instances.len()
            &&& st2.instances.len() == st.instances.len() + 1
            &&& st2.matchers == st.matchers
        }),
{
    let st2 = instantiate(st, sh, epc, int_width).0;
    assert forall|b: Seq<char>| #[trigger] map_count(st2.names, b) <= st2.instances.len() by {
        assert(map_count(st.names, b) <= st.instances.len());
    }
}

proof fn lemma_process_node_counts(st: AsmState, sh: Shape, parent: Option<Seq<char>>, epc: nat, int_width: nat)
    requires
        forall|b: Seq<char>| #[trigger] map_count(st.names, b) <= st.instances.len(),
    ensures
        ({
            let st2 = process_node(st, sh, parent, epc, int_width).0;
            &&& forall|b: Seq<char>| #[trigger] map_count(st2.names, b) <= st2.instances.len()
            &&& st2.instances.len() == st.instances.len() + 1
        }),
{
    lemma_instantiate_counts(st, sh, epc, int_width);
}

proof fn lemma_process_matcher_counts(
    st: AsmState,
    pattern: Seq<char>,
    outer: nat,
    holder: Seq<char>,
    epc: nat,
    int_width: nat,
)
    requires
        forall|b: Seq<char>| #[trigger] map_count(st.names, b) <= st.instances.len(),
    ensures
        ({
            let st2 = process_matcher(st, pattern, outer, holder, epc, int_width);
            &&& forall|b: Seq<char>| #[trigger] map_count(st2.names, b) <= st2.instances.len()
            &&& st2.instances.len() <= st.instances.len() + 1
        }),
{
    lemma_instantiate_counts(st, Shape::Matcher { pattern, outer }, epc, int_width);
}

fn copy_parent(p: &Option<String>) -> (r: Option<String>)
    ensures
        opt_str_view(r) == opt_str_view(*p),
{
    match p {
        Some(s) => Some(s.clone()),
        None => None,
    }
}

proof fn lemma_size_positive(sh: Shape)
    ensures
        shape_size(sh) >= 1,
{
}

proof fn lemma_rev_tasks_index(s: Seq<Shape>, parent: Option<Seq<char>>, i: int)
    requires
        0 <= i < s.len(),
    ensures
        rev_tasks(s, parent).len() == s.len(),
        rev_tasks(s, parent)[i] == (parent, s[s.len() - 1 - i]),
    decreases s.len(),
{
    let tail = s.subrange(1, s.len() as int);
    lemma_rev_tasks_size(s, parent);
    if i < s.len() - 1 {
        lemma_rev_tasks_index(tail, parent, i);
        lemma_rev_tasks_size(tail, parent);
    }
}

/// Lowers one key: instantiates it, wires it to its matcher, and pushes its
/// value, if any, as the next node.
fn process_key<'a>(
    b: &mut Builder,
    k: &'a Key,
    parent: &Option<String>,
    gen_params: &GeneratorParams,
    stack: &mut Vec<(Option<String>, Node<'a>)>,
    Ghost(st): Ghost<AsmState>,
    Ghost(rest): Ghost<Seq<Task>>,
) -> (r: Ghost<AsmState>)
    requires
        old(b).matches(st),
        tasks_view(old(stack)@) == rest,
        levels_within(key_shape(*k), (usize::MAX - 1) as nat),
        forall|i: int| 0 <= i < rest.len() ==> levels_within(#[trigger] rest[i].1, (usize::MAX - 1) as nat),
        forall|x: Seq<char>| #[trigger] map_count(st.names, x) <= st.instances.len(),
        st.instances.len() + tasks_size(rest) + shape_size(key_shape(*k)) < usize::MAX,
    ensures
        final(b).matches(r@),
        run_stack(tasks_view(final(stack)@), r@, gen_params.epc as nat, gen_params.int_width as nat) == run_stack(
            rest,
            visit(key_shape(*k), opt_str_view(*parent), st, gen_params.epc as nat, gen_params.int_width as nat),
            gen_params.epc as nat,
            gen_params.int_width as nat,
        ),
        forall|i: int|
            0 <= i < final(stack)@.len() ==> levels_within(
                #[trigger] tasks_view(final(stack)@)[i].1,
                (usize::MAX - 1) as nat,
            ),
        forall|x: Seq<char>| #[trigger] map_count(r@.names, x) <= r@.instances.len(),
        r@.instances.len() + tasks_size(tasks_view(final(stack)@)) <= st.instances.len() + tasks_size(rest)
            + shape_size(key_shape(*k)),
        tasks_size(tasks_view(final(stack)@)) < tasks_size(rest) + shape_size(key_shape(*k)),
{
    let ghost epc = gen_params.epc as nat;
    let ghost iw = gen_params.int_width as nat;
    let ghost sh = key_shape(*k);
    let ghost p = opt_str_view(*parent);
    proof {
        lemma_process_node_counts(st, sh, p, epc, iw);
    }
    let me = b.process_node(
        String::from_str("key_parser"),
        k.outer_nested,
        k.get_streaming_types(),
        k.get_streaming_interface(gen_params),
        TemplateType::Key,
        None,
        parent,
        Ghost(sh),
        Ghost(st),
        Ghost(epc),
        Ghost(iw),
    );
    let ghost st1 = process_node(st, sh, p, epc, iw).0;
    proof {
        lemma_process_matcher_counts(st1, k.matcher.matcher@, k.matcher.outer_nested as nat, me@, epc, iw);
    }
    b.process_matcher(&k.matcher, &me, gen_params, Ghost(st1));
    let ghost st2 = process_matcher(st1, k.matcher.matcher@, k.matcher.outer_nested as nat, me@, epc, iw);
    match &k.value {
        Some(v) => {
            let ghost prev = stack@;
            stack.push((Some(me), Node::Comp(&**v)));
            proof {
                assert(tasks_view(stack@) =~= tasks_view(prev).push((Some(me@), component_shape(**v))));
                assert(tasks_view(stack@).drop_last() =~= rest);
                assert forall|i: int| 0 <= i < stack@.len() implies levels_within(
                    #[trigger] tasks_view(stack@)[i].1,
                    (usize::MAX - 1) as nat,
                ) by {
                    if i < rest.len() {
                        assert(tasks_view(stack@)[i] == rest[i]);
                    }
                }
            }
        },
        None => {},
    }
    Ghost(st2)
}

/// Lowers the tree `root` into one top component by an explicit-stack,
/// depth-first traversal in document order.
pub fn assemble(root: &JsonComponent, gen_params: &GeneratorParams) -> (r: Assembly)
    requires
        levels_within(root@, (usize::MAX - 1) as nat),
        shape_size(root@) < usize::MAX,
    ensures
        r.top@ == top_model(assembled(root@, gen_params.epc as nat, gen_params.int_width as nat)),
        streamlets_view(r.entities@) == assembled(root@, gen_params.epc as nat, gen_params.int_width as nat).entities,
        r.stream_types@ == declaration_order(
            assembled(root@, gen_params.epc as nat, gen_params.int_width as nat).types,
        ),
        requests_view(r.matchers@) == assembled(root@, gen_params.epc as nat, gen_params.int_width as nat).matchers,
        r.templates@ == assembled(root@, gen_params.epc as nat, gen_params.int_width as nat).templates,
{
    let ghost epc = gen_params.epc as nat;
    let ghost iw = gen_params.int_width as nat;
    let ghost fin = assembled(root@, epc, iw);
    let mut types = TypeReg::new();
    types.register(StreamType::Json);
    let mut ports = TilStreamingInterface::new();
    ports.add_stream(
        "input",
        TilStreamDirection::Input,
        StreamTypeDecl::new(StreamType::Json, Some(StreamDim::new(None, 2, 0))),
    );
    let mut b = Builder {
        names: NameReg::new(),
        types,
        entities: Vec::new(),
        implementation: TilInlineImplementation::new(),
        ports,
        matchers: MatcherManager::new(),
        templates: Vec::new(),
    };
    let ghost mut st = initial_state();
    proof {
        assert(b.types@ =~= st.types);
        assert(streamlets_view(b.entities@) =~= st.entities);
        assert(b.ports@.streams =~= st.ports);
        assert(b.templates@ =~= st.templates);
        assert forall|x: Seq<char>| #[trigger] b.names.count(x) == map_count(st.names, x) by {}
    }
    let mut stack: Vec<(Option<String>, Node)> = Vec::new();
    stack.push((None, Node::Comp(root)));
    proof {
        assert(tasks_view(stack@) =~= seq![(None::<Seq<char>>, root@)]);
        assert(tasks_view(stack@).drop_last() =~= Seq::<Task>::empty());
        assert(tasks_view(stack@).last() == (None::<Seq<char>>, root@));
        assert(run_stack(Seq::<Task>::empty(), visit(root@, None, st, epc, iw), epc, iw) == fin);
        assert(run_stack(tasks_view(stack@), st, epc, iw) == fin);
        assert(tasks_size(tasks_view(stack@)) == shape_size(root@)) by {
            assert(tasks_size(Seq::<Task>::empty()) == 0);
        }
    }
    while stack.len() > 0
        invariant
            b.matches(st),
            epc == gen_params.epc as nat,
            iw == gen_params.int_width as nat,
            fin == assembled(root@, epc, iw),
            run_stack(tasks_view(stack@), st, epc, iw) == fin,
            forall|i: int| 0 <= i < stack@.len() ==> levels_within(#[trigger] tasks_view(stack@)[i].1, (usize::MAX - 1) as nat),
            forall|x: Seq<char>| #[trigger] map_count(st.names, x) <= st.instances.len(),
            st.instances.len() + tasks_size(tasks_view(stack@)) <= shape_size(root@),
            shape_size(root@) < usize::MAX,
        decreases tasks_size(tasks_view(stack@)),
    {
        let ghost before = tasks_view(stack@);
        let (parent, node) = stack.pop().unwrap();
        let ghost rest = tasks_view(stack@);
        let ghost p = opt_str_view(parent);
        let ghost sh = node_shape(node);
        proof {
            assert(rest =~= before.drop_last());
            assert(before.last() == (p, sh));
            assert(levels_within(before[before.len() - 1].1, (usize::MAX - 1) as nat));
            assert(tasks_size(before) == tasks_size(rest) + shape_size(sh));
            lemma_size_positive(sh);
        }
        match node {
            Node::Field(k) => {
                let new_st = process_key(&mut b, k, &parent, gen_params, &mut stack, Ghost(st), Ghost(rest));
                proof {
                    st = new_st@;
                }
            },
            Node::Comp(c) => {
                match c {
                    JsonComponent::Key(k) => {
                        let new_st = process_key(&mut b, k, &parent, gen_params, &mut stack, Ghost(st), Ghost(rest));
                        proof {
                            st = new_st@;
                        }
                    },
                    JsonComponent::Record(r) => {
                        let ghost fields = keys_shape(r.keys@);
                        proof {
                            lemma_keys_shape_len(r.keys@);
                            lemma_all_levels_within(fields, (usize::MAX - 1) as nat);
                        }
                        let n = r.keys.len();
                        let mut j = n;
                        assert(fields.subrange(n as int, n as int) =~= Seq::<Shape>::empty());
                        assert(tasks_view(stack@) =~= rest + rev_tasks(fields.subrange(j as int, n as int), p));
                        while j > 0
                            invariant
                                j <= n,
                                n == r.keys@.len(),
                                fields == keys_shape(r.keys@),
                                fields.len() == n,
                                forall|i: int| 0 <= i < n ==> #[trigger] fields[i] == key_shape(r.keys@[i]),
                                forall|i: int| 0 <= i < n ==> levels_within(#[trigger] fields[i], (usize::MAX - 1) as nat),
                                opt_str_view(parent) == p,
                                tasks_view(stack@) == rest + rev_tasks(fields.subrange(j as int, n as int), p),
                            decreases j,
                        {
                            j -= 1;
                            let ghost prev = stack@;
                            stack.push((copy_parent(&parent), Node::Field(&r.keys[j])));
                            proof {
                                let sub = fields.subrange(j as int, n as int);
                                assert(sub.subrange(1, sub.len() as int) =~= fields.subrange(j + 1, n as int));
                                assert(sub[0] == fields[j as int]);
                                assert(tasks_view(stack@) =~= tasks_view(prev).push((p, fields[j as int])));
                            }
                        }
                        proof {
                            assert(fields.subrange(0, n as int) =~= fields);
                            lemma_run_fields(rest, fields, p, st, epc, iw);
                            lemma_rev_tasks_size(fields, p);
                            lemma_tasks_size_append(rest, rev_tasks(fields, p));
                            assert forall|i: int| 0 <= i < stack@.len() implies levels_within(
                                #[trigger] tasks_view(stack@)[i].1,
                                (usize::MAX - 1) as nat,
                            ) by {
                                if i >= rest.len() {
                                    lemma_rev_tasks_index(fields, p, i - rest.len());
                                } else {
                                    assert(tasks_view(stack@)[i] == before[i]);
                                }
                            }
                        }
                    },
                    JsonComponent::Matcher(m) => {
                        match &parent {
                            Some(h) => {
                                proof {
                                    lemma_process_matcher_counts(st, m.matcher@, m.outer_nested as nat, h@, epc, iw);
                                }
                                b.process_matcher(m, h, gen_params, Ghost(st));
                                proof {
                                    st = process_matcher(st, m.matcher@, m.outer_nested as nat, h@, epc, iw);
                                }
                            },
                            None => {
                                proof {
                                    lemma_process_node_counts(st, sh, p, epc, iw);
                                }
                                b.process_node(
                                    c.get_preferred_name(),
                                    c.get_nesting_level(),
                                    c.get_streaming_types(),
                                    c.get_streaming_interface(gen_params),
                                    c.get_file_type(),
                                    None,
                                    &parent,
                                    Ghost(sh),
                                    Ghost(st),
                                    Ghost(epc),
                                    Ghost(iw),
                                );
                                proof {
                                    st = process_node(st, sh, p, epc, iw).0;
                                }
                            },
                        }
                    },
                    JsonComponent::Value(_) => {
                        proof {
                            lemma_process_node_counts(st, sh, p, epc, iw);
                        }
                        b.process_node(
                            c.get_preferred_name(),
                            c.get_nesting_level(),
                            c.get_streaming_types(),
                            c.get_streaming_interface(gen_params),
                            c.get_file_type(),
                            Some(c.get_output_type()),
                            &parent,
                            Ghost(sh),
                            Ghost(st),
                            Ghost(epc),
                            Ghost(iw),
                        );
                        proof {
                            st = process_node(st, sh, p, epc, iw).0;
                        }
                    },
                    JsonComponent::Array(a) => {
                        let promoted = if a.value.is_some() {
                            None
                        } else {
                            Some(c.get_output_type())
                        };
                        proof {
                            lemma_process_node_counts(st, sh, p, epc, iw);
                        }
                        let me = b.process_node(
                            c.get_preferred_name(),
                            c.get_nesting_level(),
                            c.get_streaming_types(),
                            c.get_streaming_interface(gen_params),
                            c.get_file_type(),
                            promoted,
                            &parent,
                            Ghost(sh),
                            Ghost(st),
                            Ghost(epc),
                            Ghost(iw),
                        );
                        proof {
                            st = process_node(st, sh, p, epc, iw).0;
                        }
                        match &a.value {
                            Some(e) => {
                                let ghost prev = stack@;
                                stack.push((Some(me), Node::Comp(&**e)));
                                proof {
                                    assert(tasks_view(stack@) =~= tasks_view(prev).push((Some(me@), component_shape(**e))));
                                    assert(tasks_view(stack@).drop_last() =~= rest);
                                }
                            },
                            None => {},
                        }
                    },
                }
            },
        }
    }
    let mut top = TilStreamlet::new("top");
    top.set_streaming_interface(b.ports);
    top.set_implementation(TilImplementationType::Inline(b.implementation));
    let stream_types = b.types.get_stream_types();
    Assembly { top, entities: b.entities, stream_types, matchers: b.matchers.into_requests(), templates: b.templates }
}


/// Every instance's name was issued from a base key and a counter value
/// below that key's current count, and the names are pairwise distinct.
pub open spec fn names_consistent(st: AsmState) -> bool {
    &&& st.instances.len() == st.name_keys.len()
    &&& forall|i: int|
        0 <= i < st.instances.len() ==> {
            let (b, k) = #[trigger] st.name_keys[i];
            &&& st.instances[i].component_name == issued_name(b, k)
            &&& st.instances[i].instance_name == instance_name_of(st.instances[i].component_name)
            &&& k < map_count(st.names, b)
            &&& b.len() > 0 && b.last() == '_'
        }
    &&& forall|i: int, j: int|
        0 <= i < j < st.instances.len() ==> st.instances[i].component_name != st.instances[j].component_name
}

proof fn lemma_instantiate_names(st: AsmState, sh: Shape, epc: nat, int_width: nat)
    requires
        names_consistent(st),
    ensures
        names_consistent(instantiate(st, sh, epc, int_width).0),
{
    let base = base_key(shape_preferred_name(sh), shape_level(sh));
    let c = map_count(st.names, base);
    let st2 = instantiate(st, sh, epc, int_width).0;
    let n = st.instances.len() as int;
    assert(base.last() == '_');
    assert forall|i: int| 0 <= i < st2.instances.len() implies {
        let (b, k) = #[trigger] st2.name_keys[i];
        &&& st2.instances[i].component_name == issued_name(b, k)
        &&& st2.instances[i].instance_name == instance_name_of(st2.instances[i].component_name)
        &&& k < map_count(st2.names, b)
        &&& b.len() > 0 && b.last() == '_'
    } by {
        if i < n {
            assert(st2.name_keys[i] == st.name_keys[i]);
            assert(st2.instances[i] == st.instances[i]);
            let (b, k) = st.name_keys[i];
            assert(k < map_count(st.names, b));
        }
    }
    assert forall|i: int, j: int| 0 <= i < j < st2.instances.len() implies st2.instances[i].component_name
        != st2.instances[j].component_name by {
        if j == n {
            let (b, k) = st.name_keys[i];
            assert(st2.instances[i] == st.instances[i]);
            if st.instances[i].component_name == issued_name(base, c) {
                crate::name_reg::lemma_issued_name_injective(b, k, base, c);
            }
        } else {
            assert(st2.instances[i] == st.instances[i]);
            assert(st2.instances[j] == st.instances[j]);
        }
    }
}

proof fn lemma_process_node_names(st: AsmState, sh: Shape, parent: Option<Seq<char>>, epc: nat, int_width: nat)
    requires
        names_consistent(st),
    ensures
        names_consistent(process_node(st, sh, parent, epc, int_width).0),
{
    lemma_instantiate_names(st, sh, epc, int_width);
}

proof fn lemma_process_matcher_names(
    st: AsmState,
    pattern: Seq<char>,
    outer: nat,
    holder: Seq<char>,
    epc: nat,
    int_width: nat,
)
    requires
        names_consistent(st),
    ensures
        names_consistent(process_matcher(st, pattern, outer, holder, epc, int_width)),
{
    lemma_instantiate_names(st, Shape::Matcher { pattern, outer }, epc, int_width);
}

proof fn lemma_visit_names(sh: Shape, parent: Option<Seq<char>>, st: AsmState, epc: nat, int_width: nat)
    requires
        names_consistent(st),
    ensures
        names_consistent(visit(sh, parent, st, epc, int_width)),
    decreases sh,
{
    match sh {
        Shape::Record { fields, .. } => {
            lemma_visit_all_names(fields, parent, st, epc, int_width);
        },
        Shape::Matcher { pattern, outer } => {
            match parent {
                Some(h) => lemma_process_matcher_names(st, pattern, outer, h, epc, int_width),
                None => lemma_process_node_names(st, sh, parent, epc, int_width),
            }
        },
        Shape::Array { element, .. } => {
            lemma_process_node_names(st, sh, parent, epc, int_width);
            let (st1, me) = process_node(st, sh, parent, epc, int_width);
            match element {
                Some(e) => lemma_visit_names(*e, Some(me), st1, epc, int_width),
                None => {},
            }
        },
        Shape::Key { pattern, matcher_outer, value, .. } => {
            lemma_process_node_names(st, sh, parent, epc, int_width);
            let (st1, me) = process_node(st, sh, parent, epc, int_width);
            lemma_process_matcher_names(st1, pattern, matcher_outer, me, epc, int_width);
            let st2 = process_matcher(st1, pattern, matcher_outer, me, epc, int_width);
            match value {
                Some(v) => lemma_visit_names(*v, Some(me), st2, epc, int_width),
                None => {},
            }
        },
        Shape::Value { .. } => {
            lemma_process_node_names(st, sh, parent, epc, int_width);
        },
    }
}

proof fn lemma_visit_all_names(s: Seq<Shape>, parent: Option<Seq<char>>, st: AsmState, epc: nat, int_width: nat)
    requires
        names_consistent(st),
    ensures
        names_consistent(visit_all(s, parent, st, epc, int_width)),
    decreases s,
{
    if s.len() > 0 {
        lemma_visit_names(s[0], parent, st, epc, int_width);
        lemma_visit_all_names(
            s.subrange(1, s.len() as int),
            parent,
            visit(s[0], parent, st, epc, int_width),
            epc,
            int_width,
        );
    }
}

/// Distinct instances of one assembly have distinct component names and
/// distinct instance names.
pub proof fn lemma_instance_names_unique(root: Shape, epc: nat, int_width: nat)
    ensures
        ({
            let inst = assembled(root, epc, int_width).instances;
            forall|i: int, j: int|
                0 <= i < inst.len() && 0 <= j < inst.len() && i != j ==> {
                    &&& inst[i].component_name != inst[j].component_name
                    &&& inst[i].instance_name != inst[j].instance_name
                }
        }),
{
    let init = initial_state();
    assert(names_consistent(init));
    lemma_visit_names(root, None, init, epc, int_width);
    let st = assembled(root, epc, int_width);
    let inst = st.instances;
    assert forall|i: int, j: int| 0 <= i < inst.len() && 0 <= j < inst.len() && i != j implies {
        &&& inst[i].component_name != inst[j].component_name
        &&& inst[i].instance_name != inst[j].instance_name
    } by {
        let a = inst[i].component_name;
        let b = inst[j].component_name;
        let _ki = st.name_keys[i];
        let _kj = st.name_keys[j];
        reveal_strlit("_inst");
        if i < j {
            assert(a != b);
        } else {
            assert(b != a);
        }
        if instance_name_of(a) == instance_name_of(b) {
            assert(a =~= instance_name_of(a).subrange(0, a.len() as int));
            assert(b =~= instance_name_of(b).subrange(0, b.len() as int));
        }
    }
}


/// A field whose value yields no component (a `null` or an empty array) gets a
/// key without a value; its only outgoing signal goes to its matcher, and it
/// is never promoted to a top-level output.
pub proof fn lemma_null_field_erased(
    key: String,
    value: JsonNode,
    outer: nat,
    inner: nat,
    parent: Option<Seq<char>>,
    st: AsmState,
    epc: nat,
    int_width: nat,
)
    requires
        analysis(value, outer + 1, inner).0 is None,
    ensures
        field_analysis((key, value), outer, inner)->Key_value is None,
        field_analysis((key, value), outer, inner)->Key_pattern == key@,
        value is Null ==> analysis(value, outer + 1, inner).1 == inner,
        shape_num_outgoing(field_analysis((key, value), outer, inner)) == 1,
        visit(field_analysis((key, value), outer, inner), parent, st, epc, int_width).ports == st.ports,
{
    let sh = field_analysis((key, value), outer, inner);
    let (st1, me) = process_node(st, sh, parent, epc, int_width);
    assert(st1.ports == st.ports);
    let m = sh->Key_pattern;
    let mo = sh->Key_matcher_outer;
    let st2 = process_matcher(st1, m, mo, me, epc, int_width);
    assert(st2.ports == st1.ports);
}

/// Assembling the analyses of one document twice, with the same parameters,
/// gives the same instances, signals, ports, declarations and requests.
pub proof fn lemma_deterministic(doc: JsonNode, first: JsonComponent, second: JsonComponent, epc: nat, int_width: nat)
    requires
        analysis(doc, 0, 0).0 == Some(first@),
        analysis(doc, 0, 0).0 == Some(second@),
    ensures
        assembled(first@, epc, int_width) == assembled(second@, epc, int_width),
        top_model(assembled(first@, epc, int_width)) == top_model(assembled(second@, epc, int_width)),
{
}

/// Assembles the analyzed root; fails when there is none.
pub fn assemble_top_component(root: &Option<JsonComponent>, gen_params: &GeneratorParams) -> (r: Result<
    Assembly,
    GeneratorError,
>)
    requires
        root is Some ==> levels_within(root->0@, (usize::MAX - 1) as nat) && shape_size(root->0@) < usize::MAX,
    ensures
        root is None <==> r is Err,
        r is Err ==> r == Err::<Assembly, GeneratorError>(GeneratorError::NoRoot),
        r is Ok ==> {
            let a = r->Ok_0;
            let fin = assembled(root->0@, gen_params.epc as nat, gen_params.int_width as nat);
            &&& a.top@ == top_model(fin)
            &&& streamlets_view(a.entities@) == fin.entities
            &&& a.stream_types@ == declaration_order(fin.types)
            &&& requests_view(a.matchers@) == fin.matchers
            &&& a.templates@ == fin.templates
        },
{
    match root {
        Some(c) => Ok(assemble(c, gen_params)),
        None => Err(GeneratorError::NoRoot),
    }
}

proof fn lemma_shapes_size_push(s: Seq<Shape>, x: Shape)
    ensures
        shapes_size(s.push(x)) == shapes_size(s) + shape_size(x),
    decreases s.len(),
{
    if s.len() > 0 {
        assert(s.push(x).subrange(1, s.len() as int + 1) =~= s.subrange(1, s.len() as int).push(x));
        lemma_shapes_size_push(s.subrange(1, s.len() as int), x);
        assert(s.push(x)[0] == s[0]);
    } else {
        assert(s.push(x).subrange(1, 1) =~= Seq::<Shape>::empty());
        assert(shapes_size(Seq::<Shape>::empty()) == 0);
        assert(s.push(x)[0] == x);
    }
}

/// The number of nodes of the tree, or `None` when it does not fit below `usize::MAX`.
pub fn component_size(c: &JsonComponent) -> (r: Option<usize>)
    ensures
        match r {
            Some(n) => n as nat == shape_size(c@) && n < usize::MAX,
            None => shape_size(c@) >= usize::MAX,
        },
    decreases c, 1nat,
{
    match c {
        JsonComponent::Value(_) => Some(1),
        JsonComponent::Matcher(_) => Some(1),
        JsonComponent::Key(k) => key_size(k),
        JsonComponent::Array(a) => match &a.value {
            Some(e) => match component_size(e) {
                Some(n) => if n < usize::MAX - 1 {
                    Some(n + 1)
                } else {
                    None
                },
                None => None,
            },
            None => Some(1),
        },
        JsonComponent::Record(r) => {
            let ghost fields = keys_shape(r.keys@);
            proof {
                lemma_keys_shape_len(r.keys@);
            }
            let mut total: usize = 1;
            let mut i: usize = 0;
            assert(fields.subrange(0, 0) =~= Seq::<Shape>::empty());
            while i < r.keys.len()
                invariant
                    *c == JsonComponent::Record(*r),
                    fields == keys_shape(r.keys@),
                    fields.len() == r.keys@.len(),
                    forall|j: int| 0 <= j < fields.len() ==> #[trigger] fields[j] == key_shape(r.keys@[j]),
                    i <= r.keys@.len(),
                    total as nat == 1 + shapes_size(fields.subrange(0, i as int)),
                    total < usize::MAX,
                decreases r.keys@.len() - i,
            {
                proof {
                    assert(decreases_to!(*c => (*c)->Record_0));
                    assert(decreases_to!(r.keys => r.keys@));
                    assert(decreases_to!(r.keys@ => r.keys@[i as int]));
                }
                match key_size(&r.keys[i]) {
                    Some(n) => {
                        proof {
                            assert(fields.subrange(0, i + 1) =~= fields.subrange(0, i as int).push(fields[i as int]));
                            lemma_shapes_size_push(fields.subrange(0, i as int), fields[i as int]);
                        }
                        if n < usize::MAX - total {
                            total = total + n;
                        } else {
                            proof {
                                lemma_shapes_size_prefix(fields, i + 1);
                            }
                            return None;
                        }
                    },
                    None => {
                        proof {
                            assert(fields.subrange(0, i + 1) =~= fields.subrange(0, i as int).push(fields[i as int]));
                            lemma_shapes_size_push(fields.subrange(0, i as int), fields[i as int]);
                            lemma_shapes_size_prefix(fields, i + 1);
                        }
                        return None;
                    },
                }
                i += 1;
            }
            assert(fields.subrange(0, i as int) =~= fields);
            Some(total)
        },
    }
}

proof fn lemma_shapes_size_prefix(s: Seq<Shape>, i: int)
    requires
        0 <= i <= s.len(),
    ensures
        shapes_size(s.subrange(0, i)) <= shapes_size(s),
    decreases s.len() - i,
{
    if i < s.len() {
        lemma_shapes_size_prefix(s, i + 1);
        assert(s.subrange(0, i + 1) =~= s.subrange(0, i).push(s[i]));
        lemma_shapes_size_push(s.subrange(0, i), s[i]);
    } else {
        assert(s.subrange(0, i) =~= s);
    }
}

fn key_size(k: &Key) -> (r: Option<usize>)
    ensures
        match r {
            Some(n) => n as nat == shape_size(key_shape(*k)) && n < usize::MAX,
            None => shape_size(key_shape(*k)) >= usize::MAX,
        },
    decreases k, 0nat,
{
    match &k.value {
        Some(v) => match component_size(v) {
            Some(n) => if n < usize::MAX - 2 {
                Some(n + 2)
            } else {
                None
            },
            None => None,
        },
        None => Some(2),
    }
}


/// No two matcher requests share a literal.
pub open spec fn patterns_distinct(ms: Seq<MatcherModel>) -> bool {
    forall|i: int, j: int| 0 <= i < j < ms.len() ==> ms[i].pattern != ms[j].pattern
}

proof fn lemma_process_node_matchers(st: AsmState, sh: Shape, parent: Option<Seq<char>>, epc: nat, int_width: nat)
    ensures
        process_node(st, sh, parent, epc, int_width).0.matchers == st.matchers,
{
}

proof fn lemma_process_matcher_matchers(
    st: AsmState,
    pattern: Seq<char>,
    outer: nat,
    holder: Seq<char>,
    epc: nat,
    int_width: nat,
)
    requires
        patterns_distinct(st.matchers),
    ensures
        patterns_distinct(process_matcher(st, pattern, outer, holder, epc, int_width).matchers),
{
    if find_matcher(st.matchers, pattern) is None {
        lemma_find_matcher_none(st.matchers, pattern);
        let ms = process_matcher(st, pattern, outer, holder, epc, int_width).matchers;
        assert forall|i: int, j: int| 0 <= i < j < ms.len() implies ms[i].pattern != ms[j].pattern by {
            if j == ms.len() - 1 {
                assert(ms[i] == st.matchers[i]);
            } else {
                assert(ms[i] == st.matchers[i]);
                assert(ms[j] == st.matchers[j]);
            }
        }
    }
}

proof fn lemma_visit_matchers(sh: Shape, parent: Option<Seq<char>>, st: AsmState, epc: nat, int_width: nat)
    requires
        patterns_distinct(st.matchers),
    ensures
        patterns_distinct(visit(sh, parent, st, epc, int_width).matchers),
    decreases sh,
{
    match sh {
        Shape::Record { fields, .. } => {
            lemma_visit_all_matchers(fields, parent, st, epc, int_width);
        },
        Shape::Matcher { pattern, outer } => {
            match parent {
                Some(h) => lemma_process_matcher_matchers(st, pattern, outer, h, epc, int_width),
                None => lemma_process_node_matchers(st, sh, parent, epc, int_width),
            }
        },
        Shape::Array { element, .. } => {
            lemma_process_node_matchers(st, sh, parent, epc, int_width);
            let (st1, me) = process_node(st, sh, parent, epc, int_width);
            match element {
                Some(e) => lemma_visit_matchers(*e, Some(me), st1, epc, int_width),
                None => {},
            }
        },
        Shape::Key { pattern, matcher_outer, value, .. } => {
            lemma_process_node_matchers(st, sh, parent, epc, int_width);
            let (st1, me) = process_node(st, sh, parent, epc, int_width);
            lemma_process_matcher_matchers(st1, pattern, matcher_outer, me, epc, int_width);
            let st2 = process_matcher(st1, pattern, matcher_outer, me, epc, int_width);
            match value {
                Some(v) => lemma_visit_matchers(*v, Some(me), st2, epc, int_width),
                None => {},
            }
        },
        Shape::Value { .. } => {
            lemma_process_node_matchers(st, sh, parent, epc, int_width);
        },
    }
}

proof fn lemma_visit_all_matchers(s: Seq<Shape>, parent: Option<Seq<char>>, st: AsmState, epc: nat, int_width: nat)
    requires
        patterns_distinct(st.matchers),
    ensures
        patterns_distinct(visit_all(s, parent, st, epc, int_width).matchers),
    decreases s,
{
    if s.len() > 0 {
        lemma_visit_matchers(s[0], parent, st, epc, int_width);
        lemma_visit_all_matchers(
            s.subrange(1, s.len() as int),
            parent,
            visit(s[0], parent, st, epc, int_width),
            epc,
            int_width,
        );
    }
}

/// An assembly requests at most one matcher per literal, however many fields
/// share that name.
pub proof fn lemma_matcher_requests_unique(root: Shape, epc: nat, int_width: nat)
    ensures
        patterns_distinct(assembled(root, epc, int_width).matchers),
{
    lemma_visit_matchers(root, None, initial_state(), epc, int_width);
}

} // verus!
