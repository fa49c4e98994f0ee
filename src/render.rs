//! The netlist text of a whole compilation.
use vstd::prelude::*;
use crate::assembly::Assembly;
use crate::netlist::{streamlet_text, streamlets_view, StreamletModel};
use crate::params::GeneratorParams;
use crate::types::{StreamType, type_def_text};

verus! {

/// The opening of the namespace block.
pub open spec fn namespace_open(ns: Seq<char>) -> Seq<char> {
    "namespace "@ + ns + " {\n    "@
}

pub open spec fn type_defs_text(s: Seq<StreamType>, bit_width: nat, epc: nat, int_width: nat) -> Seq<char>
    decreases s.len(),
{
    if s.len() == 0 {
        Seq::empty()
    } else {
        type_defs_text(s.drop_last(), bit_width, epc, int_width) + type_def_text(s.last(), bit_width, epc, int_width)
    }
}

pub open spec fn entities_text(s: Seq<StreamletModel>) -> Seq<char>
    decreases s.len(),
{
    if s.len() == 0 {
        Seq::empty()
    } else {
        entities_text(s.drop_last()) + streamlet_text(s.last()) + "\n\n"@
    }
}

/// The namespace block holding the type declarations, every entity, and the
/// top streamlet last.
pub open spec fn til_text(
    ns: Seq<char>,
    types: Seq<StreamType>,
    entities: Seq<StreamletModel>,
    top: StreamletModel,
    bit_width: nat,
    epc: nat,
    int_width: nat,
) -> Seq<char> {
    namespace_open(ns) + type_defs_text(types, bit_width, epc, int_width) + entities_text(entities) + streamlet_text(
        top,
    ) + "\n}"@
}

pub fn generate_namespace_def(namespace: &str) -> (r: String)
    ensures
        r@ == namespace_open(namespace@),
{
    let mut r = String::from_str("namespace ");
    r.append(namespace);
    r.append(" {\n    ");
    assert(r@ =~= namespace_open(namespace@));
    r
}

pub fn generate_close_namespace() -> (r: String)
    ensures
        r@ == "\n}"@,
{
    String::from_str("\n}")
}

/// The netlist text of an assembly.
pub fn generate_til(gen_params: &GeneratorParams, assembly: &Assembly) -> (r: String)
    requires
        gen_params.bit_width < usize::MAX,
    ensures
        r@ == til_text(
            gen_params.namespace@,
            assembly.stream_types@,
            streamlets_view(assembly.entities@),
            assembly.top@,
            gen_params.bit_width as nat,
            gen_params.epc as nat,
            gen_params.int_width as nat,
        ),
{
    let ghost bw = gen_params.bit_width as nat;
    let ghost epc = gen_params.epc as nat;
    let ghost iw = gen_params.int_width as nat;
    let mut til = generate_namespace_def(gen_params.namespace.as_str());
    let types = &assembly.stream_types;
    let mut i: usize = 0;
    let ghost start = til@;
    while i < types.len()
        invariant
            i <= types@.len(),
            gen_params.bit_width < usize::MAX,
            bw == gen_params.bit_width as nat,
            epc == gen_params.epc as nat,
            iw == gen_params.int_width as nat,
            til@ == start + type_defs_text(types@.subrange(0, i as int), bw, epc, iw),
        decreases types@.len() - i,
    {
        assert(types@.subrange(0, i + 1).drop_last() =~= types@.subrange(0, i as int));
        let t = types[i].get_type_def_string(gen_params);
        til.append(t.as_str());
        i += 1;
        assert(til@ =~= start + type_defs_text(types@.subrange(0, i as int), bw, epc, iw));
    }
    assert(types@.subrange(0, i as int) =~= types@);
    let entities = &assembly.entities;
    let mut j: usize = 0;
    let ghost start2 = til@;
    while j < entities.len()
        invariant
            j <= entities@.len(),
            til@ == start2 + entities_text(streamlets_view(entities@).subrange(0, j as int)),
        decreases entities@.len() - j,
    {
        let ghost ev = streamlets_view(entities@);
        assert(ev.subrange(0, j + 1).drop_last() =~= ev.subrange(0, j as int));
        let t = entities[j].to_text();
        til.append(t.as_str());
        til.append("\n\n");
        j += 1;
        assert(til@ =~= start2 + entities_text(ev.subrange(0, j as int)));
    }
    assert(streamlets_view(entities@).subrange(0, j as int) =~= streamlets_view(entities@));
    let top = assembly.top.to_text();
    til.append(top.as_str());
    let close = generate_close_namespace();
    til.append(close.as_str());
    assert(til@ =~= til_text(
        gen_params.namespace@,
        assembly.stream_types@,
        streamlets_view(assembly.entities@),
        assembly.top@,
        bw,
        epc,
        iw,
    ));
    til
}

} // verus!
