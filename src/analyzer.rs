//! Structural analysis of a JSON document into a component tree.
use vstd::prelude::*;
use crate::components::{
    JsonComponent, JsonType, Value, Array, Record, Key, Matcher, Shape, component_shape, key_shape,
    keys_shape, levels_within, all_levels_within, lemma_keys_shape_len, shape_level,
};

verus! {

/// A parsed JSON value, holding what the analysis reads: the kind of each
/// scalar, the items of each array and the fields of each object, in order.
pub enum JsonNode {
    Null,
    Str,
    Number,
    Boolean,
    Array(Vec<JsonNode>),
    Object(Vec<(String, JsonNode)>),
}

/// Nesting depth along the path the analysis reads: the first item of each
/// array and every field of each object.
pub open spec fn depth(v: JsonNode) -> nat
    decreases v,
{
    match v {
        JsonNode::Array(a) => if a@.len() == 0 { 1 } else { 1 + depth(a@[0]) },
        JsonNode::Object(es) => 1 + fields_depth(es@),
        _ => 0,
    }
}

pub open spec fn fields_depth(s: Seq<(String, JsonNode)>) -> nat
    decreases s,
{
    if s.len() == 0 {
        0
    } else {
        let a = fields_depth(s.drop_last());
        let b = depth(s.last().1);
        if a >= b { a } else { b }
    }
}

pub open spec fn boxed(o: Option<Shape>) -> Option<Box<Shape>> {
    match o {
        Some(s) => Some(Box::new(s)),
        None => None,
    }
}

/// The component a value analyzes to at the given counters, and the inner
/// nesting (dimensionality) handed back to the caller.
pub open spec fn analysis(v: JsonNode, outer: nat, inner: nat) -> (Option<Shape>, nat)
    decreases v,
{
    match v {
        JsonNode::Str => (Some(Shape::Value { data_type: JsonType::String, outer }), inner),
        JsonNode::Number => (Some(Shape::Value { data_type: JsonType::Integer, outer: outer + 1 }), inner),
        JsonNode::Boolean => (Some(Shape::Value { data_type: JsonType::Boolean, outer: outer + 1 }), inner),
        JsonNode::Null => (None, inner),
        JsonNode::Array(a) => if a@.len() == 0 {
            (None, inner + 1)
        } else {
            let c = analysis(a@[0], outer + 1, inner);
            (Some(Shape::Array { outer: outer + 1, inner: c.1, element: boxed(c.0) }), c.1 + 1)
        },
        JsonNode::Object(es) => {
            let m = fields_inner(es@, outer, inner);
            (Some(Shape::Record { outer: outer + 1, inner: m, fields: fields_analysis(es@, outer, inner) }), m + 1)
        },
    }
}

/// The key each field of an object analyzes to.
pub open spec fn field_analysis(f: (String, JsonNode), outer: nat, inner: nat) -> Shape
    decreases f,
{
    Shape::Key {
        pattern: f.0@,
        matcher_outer: outer + 2,
        outer: outer + 2,
        value: boxed(analysis(f.1, outer + 1, inner).0),
    }
}

pub open spec fn fields_analysis(s: Seq<(String, JsonNode)>, outer: nat, inner: nat) -> Seq<Shape>
    decreases s,
{
    if s.len() == 0 {
        Seq::empty()
    } else {
        fields_analysis(s.drop_last(), outer, inner).push(field_analysis(s.last(), outer, inner))
    }
}

/// The largest inner nesting among the fields, or `inner` for no fields.
pub open spec fn fields_inner(s: Seq<(String, JsonNode)>, outer: nat, inner: nat) -> nat
    decreases s,
{
    if s.len() == 0 {
        inner
    } else {
        let a = fields_inner(s.drop_last(), outer, inner);
        let b = analysis(s.last().1, outer + 1, inner).1;
        if a >= b { a } else { b }
    }
}

pub open spec fn opt_component_shape(o: Option<JsonComponent>) -> Option<Shape> {
    match o {
        Some(c) => Some(component_shape(c)),
        None => None,
    }
}

pub open spec fn opt_levels_within(o: Option<Shape>, m: nat) -> bool {
    match o {
        Some(s) => levels_within(s, m),
        None => true,
    }
}

proof fn lemma_field_depth(s: Seq<(String, JsonNode)>, i: int)
    requires
        0 <= i < s.len(),
    ensures
        depth(s[i].1) <= fields_depth(s),
    decreases s.len(),
{
    if i < s.len() - 1 {
        lemma_field_depth(s.drop_last(), i);
    }
}

fn analyze_record(key: &String, element: &JsonNode, outer: usize, inner: usize, Ghost(m): Ghost<nat>) -> (r: (
    Key,
    usize,
))
    requires
        outer + inner + 2 * depth(*element) + 3 <= m <= usize::MAX,
    ensures
        key_shape(r.0) == field_analysis((*key, *element), outer as nat, inner as nat),
        r.1 == analysis(*element, outer as nat + 1, inner as nat).1,
        r.1 <= inner + depth(*element),
        levels_within(key_shape(r.0), m),
    decreases element, 1nat,
{
    let (child, new_inner) = analyze_worker(element, outer + 1, inner, Ghost(m));
    let value = match child {
        Some(c) => Some(Box::new(c)),
        None => None,
    };
    let matcher = Matcher::new(key.clone(), outer + 2);
    (Key::new(matcher, outer + 2, value), new_inner)
}

fn analyze_worker(element: &JsonNode, outer: usize, inner: usize, Ghost(m): Ghost<nat>) -> (r: (
    Option<JsonComponent>,
    usize,
))
    requires
        outer + inner + 2 * depth(*element) + 2 <= m <= usize::MAX,
    ensures
        opt_component_shape(r.0) == analysis(*element, outer as nat, inner as nat).0,
        r.1 == analysis(*element, outer as nat, inner as nat).1,
        r.1 <= inner + depth(*element),
        opt_levels_within(opt_component_shape(r.0), m),
    decreases element, 0nat,
{
    match element {
        JsonNode::Str => (Some(JsonComponent::Value(Value::new(JsonType::String, outer))), inner),
        JsonNode::Number => (Some(JsonComponent::Value(Value::new(JsonType::Integer, outer + 1))), inner),
        JsonNode::Boolean => (Some(JsonComponent::Value(Value::new(JsonType::Boolean, outer + 1))), inner),
        JsonNode::Null => (None, inner),
        JsonNode::Array(arr) => {
            if arr.len() == 0 {
                return (None, inner + 1);
            }
            let (child, new_inner) = analyze_worker(&arr[0], outer + 1, inner, Ghost(m));
            let value = match child {
                Some(c) => Some(Box::new(c)),
                None => None,
            };
            (Some(JsonComponent::Array(Array::new(outer + 1, new_inner, value))), new_inner + 1)
        },
        JsonNode::Object(entries) => {
            let ghost es = entries@;
            let mut keys: Vec<Key> = Vec::new();
            let mut max_inner: usize = inner;
            let n = entries.len();
            let mut i: usize = 0;
            assert(es.subrange(0, 0) =~= Seq::<(String, JsonNode)>::empty());
            while i < n
                invariant
                    n == es.len(),
                    es == entries@,
                    *element == JsonNode::Object(*entries),
                    i <= n,
                    depth(*element) == 1 + fields_depth(es),
                    outer + inner + 2 * depth(*element) + 2 <= m <= usize::MAX,
                    keys_shape(keys@) == fields_analysis(es.subrange(0, i as int), outer as nat, inner as nat),
                    max_inner == fields_inner(es.subrange(0, i as int), outer as nat, inner as nat),
                    inner <= max_inner <= inner + fields_depth(es),
                    all_levels_within(keys_shape(keys@), m),
                decreases n - i,
            {
                let ghost pre = es.subrange(0, i as int);
                let ghost next = es.subrange(0, i + 1);
                assert(next.drop_last() =~= pre);
                assert(next.last() == es[i as int]);
                proof {
                    lemma_field_depth(es, i as int);
                    assert(decreases_to!(*element => (*element)->Object_0));
                    assert((*element)->Object_0 == *entries);
                    assert(decreases_to!(*entries => entries@));
                    assert(decreases_to!(entries@ => entries@[i as int]));
                    assert(decreases_to!(entries@[i as int] => entries@[i as int].1));
                    assert(decreases_to!(*element => entries@[i as int].1));
                }
                let (key, ret_inner) = analyze_record(&entries[i].0, &entries[i].1, outer, inner, Ghost(m));
                let ghost old_keys = keys@;
                keys.push(key);
                assert(keys@.drop_last() =~= old_keys);
                assert(keys_shape(keys@).drop_last() =~= keys_shape(old_keys));
                assert(keys_shape(keys@).last() == key_shape(key));
                if ret_inner > max_inner {
                    max_inner = ret_inner;
                }
                i += 1;
            }
            assert(es.subrange(0, n as int) =~= es);
            proof {
                lemma_keys_shape_len(keys@);
            }
            (Some(JsonComponent::Record(Record::new(outer + 1, max_inner, keys))), max_inner + 1)
        },
    }
}

/// Analyzes one value at the given outer and inner nesting counters; returns
/// its component (none for `null` and for an empty array) and the inner
/// nesting handed back to the caller.
pub fn analyze_element(element: &JsonNode, outer_nesting: usize, inner_nesting: usize) -> (r: (
    Option<JsonComponent>,
    usize,
))
    requires
        outer_nesting + inner_nesting + 2 * depth(*element) + 2 <= usize::MAX,
    ensures
        opt_component_shape(r.0) == analysis(*element, outer_nesting as nat, inner_nesting as nat).0,
        r.1 == analysis(*element, outer_nesting as nat, inner_nesting as nat).1,
        opt_levels_within(
            opt_component_shape(r.0),
            (outer_nesting + inner_nesting + 2 * depth(*element) + 2) as nat,
        ),
{
    analyze_worker(
        element,
        outer_nesting,
        inner_nesting,
        Ghost((outer_nesting + inner_nesting + 2 * depth(*element) + 2) as nat),
    )
}

/// Analyzes a whole document; `None` when its root yields no component.
pub fn analyze(root: &JsonNode) -> (r: Option<JsonComponent>)
    requires
        2 * depth(*root) + 3 <= usize::MAX,
    ensures
        opt_component_shape(r) == analysis(*root, 0, 0).0,
        opt_levels_within(opt_component_shape(r), (usize::MAX - 1) as nat),
{
    let (r, _) = analyze_worker(root, 0, 0, Ghost((usize::MAX - 1) as nat));
    r
}


/// The outer nesting never decreases from an array to its element, and each
/// field of a record sits exactly one level below the record.
pub open spec fn nesting_ok(s: Shape) -> bool
    decreases s,
{
    match s {
        Shape::Array { outer, element, .. } => match element {
            Some(e) => shape_level(*e) >= outer && nesting_ok(*e),
            None => true,
        },
        Shape::Record { outer, fields, .. } => forall|i: int|
            0 <= i < fields.len() ==> shape_level(#[trigger] fields[i]) == outer + 1 && nesting_ok(fields[i]),
        Shape::Key { value, .. } => match value {
            Some(v) => nesting_ok(*v),
            None => true,
        },
        _ => true,
    }
}

/// Every tree the analysis builds keeps the nesting rules, and its root sits at
/// or below the level it was analyzed at.
pub proof fn lemma_analysis_nesting(v: JsonNode, outer: nat, inner: nat)
    ensures
        match analysis(v, outer, inner).0 {
            Some(s) => nesting_ok(s) && shape_level(s) >= outer,
            None => true,
        },
    decreases v, 0nat,
{
    match v {
        JsonNode::Array(a) => {
            if a@.len() > 0 {
                assert(decreases_to!(v => a));
                lemma_analysis_nesting(a@[0], outer + 1, inner);
            }
        },
        JsonNode::Object(es) => {
            lemma_fields_nesting(es@, outer, inner);
        },
        _ => {},
    }
}

proof fn lemma_fields_nesting(s: Seq<(String, JsonNode)>, outer: nat, inner: nat)
    ensures
        ({
            let f = fields_analysis(s, outer, inner);
            &&& f.len() == s.len()
            &&& forall|i: int| 0 <= i < f.len() ==> shape_level(#[trigger] f[i]) == outer + 2 && nesting_ok(f[i])
        }),
    decreases s, 1nat,
{
    if s.len() > 0 {
        lemma_fields_nesting(s.drop_last(), outer, inner);
        lemma_analysis_nesting(s.last().1, outer + 1, inner);
        let f = fields_analysis(s, outer, inner);
        assert forall|i: int| 0 <= i < f.len() implies shape_level(#[trigger] f[i]) == outer + 2 && nesting_ok(f[i]) by {
            if i < f.len() - 1 {
                assert(f[i] == fields_analysis(s.drop_last(), outer, inner)[i]);
            } else {
                let a = analysis(s.last().1, outer + 1, inner).0;
                assert(f[i] == field_analysis(s.last(), outer, inner));
                match a {
                    Some(x) => {
                        assert(boxed(a) == Some(Box::new(x)));
                        assert(nesting_ok(x));
                    },
                    None => {},
                }
            }
        }
    }
}

/// An empty array yields no component and one more level of inner nesting; a
/// non-empty one yields an array whose inner nesting is its first item's, and
/// hands back one more.
pub proof fn lemma_array_dimensionality(v: JsonNode, outer: nat, inner: nat)
    requires
        v is Array,
    ensures
        v->Array_0@.len() == 0 ==> analysis(v, outer, inner) == (None::<Shape>, inner + 1),
        v->Array_0@.len() > 0 ==> {
            let e = analysis(v->Array_0@[0], outer + 1, inner);
            &&& analysis(v, outer, inner).0 == Some(
                Shape::Array { outer: outer + 1, inner: e.1, element: boxed(e.0) },
            )
            &&& analysis(v, outer, inner).1 == e.1 + 1
        },
{
}


/// The depth the analysis descends to, or `None` when it reaches `usize::MAX`.
pub fn document_depth(v: &JsonNode) -> (r: Option<usize>)
    ensures
        match r {
            Some(n) => n as nat == depth(*v) && n < usize::MAX,
            None => depth(*v) >= usize::MAX,
        },
    decreases v,
{
    match v {
        JsonNode::Array(a) => {
            if a.len() == 0 {
                return Some(1);
            }
            match document_depth(&a[0]) {
                Some(d) => if d < usize::MAX - 1 {
                    Some(d + 1)
                } else {
                    None
                },
                None => None,
            }
        },
        JsonNode::Object(es) => {
            let mut best: usize = 0;
            let mut i: usize = 0;
            assert(es@.subrange(0, 0) =~= Seq::<(String, JsonNode)>::empty());
            while i < es.len()
                invariant
                    *v == JsonNode::Object(*es),
                    i <= es@.len(),
                    best as nat == fields_depth(es@.subrange(0, i as int)),
                    best < usize::MAX,
                decreases es@.len() - i,
            {
                proof {
                    assert(decreases_to!(*v => (*v)->Object_0));
                    assert(decreases_to!(*es => es@));
                    assert(decreases_to!(es@ => es@[i as int]));
                    assert(decreases_to!(es@[i as int] => es@[i as int].1));
                    assert(es@.subrange(0, i + 1).drop_last() =~= es@.subrange(0, i as int));
                    assert(es@.subrange(0, i + 1).last() == es@[i as int]);
                }
                match document_depth(&es[i].1) {
                    Some(d) => {
                        if d > best {
                            best = d;
                        }
                    },
                    None => {
                        proof {
                            lemma_field_depth(es@, i as int);
                        }
                        return None;
                    },
                }
                i += 1;
            }
            assert(es@.subrange(0, i as int) =~= es@);
            if best < usize::MAX - 1 {
                Some(best + 1)
            } else {
                None
            }
        },
        _ => Some(0),
    }
}

} // verus!
