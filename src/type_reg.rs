//! Registry of the stream-type kinds a netlist has to declare.
use vstd::prelude::*;
use crate::types::StreamType;

verus! {

pub open spec fn kind_if(s: Set<StreamType>, t: StreamType) -> Seq<StreamType> {
    if s.contains(t) {
        seq![t]
    } else {
        Seq::empty()
    }
}

/// The kinds of `s` in their fixed declaration order.
pub open spec fn declaration_order(s: Set<StreamType>) -> Seq<StreamType> {
    kind_if(s, StreamType::Json) + kind_if(s, StreamType::Int) + kind_if(s, StreamType::Bool) + kind_if(
        s,
        StreamType::Record,
    ) + kind_if(s, StreamType::MatcherMatch) + kind_if(s, StreamType::MatcherStr)
}

/// The set after registering `t` into `s` `n` times.
pub open spec fn registered_times(s: Set<StreamType>, t: StreamType, n: nat) -> Set<StreamType>
    decreases n,
{
    if n == 0 {
        s
    } else {
        registered_times(s, t, (n - 1) as nat).insert(t)
    }
}

/// Registering one kind any positive number of times has the effect of
/// registering it once, and the declaration list then holds that kind exactly once.
pub proof fn lemma_register_idempotent(s: Set<StreamType>, t: StreamType, n: nat)
    requires
        n >= 1,
    ensures
        registered_times(s, t, n) == s.insert(t),
        declaration_order(registered_times(s, t, n)).contains(t),
        declaration_order(registered_times(s, t, n)).no_duplicates(),
    decreases n,
{
    if n > 1 {
        lemma_register_idempotent(s, t, (n - 1) as nat);
        assert(s.insert(t).insert(t) =~= s.insert(t));
    } else {
        assert(registered_times(s, t, 0) == s);
    }
    assert(registered_times(s, t, n) == s.insert(t));
    let r = s.insert(t);
    lemma_declaration_order(r);
}

/// The declaration list holds exactly the registered kinds, each once.
pub proof fn lemma_declaration_order(s: Set<StreamType>)
    ensures
        forall|t: StreamType| declaration_order(s).contains(t) <==> s.contains(t),
        declaration_order(s).no_duplicates(),
{
    let d = declaration_order(s);
    assert forall|t: StreamType| d.contains(t) <==> s.contains(t) by {
        if s.contains(t) {
            let k1 = kind_if(s, StreamType::Json).len();
            let k2 = k1 + kind_if(s, StreamType::Int).len();
            let k3 = k2 + kind_if(s, StreamType::Bool).len();
            let k4 = k3 + kind_if(s, StreamType::Record).len();
            let k5 = k4 + kind_if(s, StreamType::MatcherMatch).len();
            match t {
                StreamType::Json => assert(d[0] == t),
                StreamType::Int => assert(d[k1 as int] == t),
                StreamType::Bool => assert(d[k2 as int] == t),
                StreamType::Record => assert(d[k3 as int] == t),
                StreamType::MatcherMatch => assert(d[k4 as int] == t),
                StreamType::MatcherStr => assert(d[k5 as int] == t),
            }
        }
    }
    assert forall|i: int, j: int| 0 <= i < d.len() && 0 <= j < d.len() && i != j implies d[i] != d[j] by {
        let k1 = kind_if(s, StreamType::Json).len();
        let k2 = k1 + kind_if(s, StreamType::Int).len();
        let k3 = k2 + kind_if(s, StreamType::Bool).len();
        let k4 = k3 + kind_if(s, StreamType::Record).len();
        let k5 = k4 + kind_if(s, StreamType::MatcherMatch).len();
        assert(i < k1 ==> d[i] == StreamType::Json);
        assert(k1 <= i < k2 ==> d[i] == StreamType::Int);
        assert(k2 <= i < k3 ==> d[i] == StreamType::Bool);
        assert(k3 <= i < k4 ==> d[i] == StreamType::Record);
        assert(k4 <= i < k5 ==> d[i] == StreamType::MatcherMatch);
        assert(k5 <= i ==> d[i] == StreamType::MatcherStr);
        assert(j < k1 ==> d[j] == StreamType::Json);
        assert(k1 <= j < k2 ==> d[j] == StreamType::Int);
        assert(k2 <= j < k3 ==> d[j] == StreamType::Bool);
        assert(k3 <= j < k4 ==> d[j] == StreamType::Record);
        assert(k4 <= j < k5 ==> d[j] == StreamType::MatcherMatch);
        assert(k5 <= j ==> d[j] == StreamType::MatcherStr);
    }
}

/// The set of stream-type kinds registered so far.
pub struct TypeReg {
    json: bool,
    int: bool,
    boolean: bool,
    record: bool,
    matcher_match: bool,
    matcher_str: bool,
}

impl View for TypeReg {
    type V = Set<StreamType>;

    closed spec fn view(&self) -> Set<StreamType> {
        Set::new(
            |t: StreamType|
                match t {
                    StreamType::Json => self.json,
                    StreamType::Int => self.int,
                    StreamType::Bool => self.boolean,
                    StreamType::Record => self.record,
                    StreamType::MatcherMatch => self.matcher_match,
                    StreamType::MatcherStr => self.matcher_str,
                },
        )
    }
}

impl TypeReg {
    pub fn new() -> (r: TypeReg)
        ensures
            r@ == Set::<StreamType>::empty(),
    {
        let r = TypeReg {
            json: false,
            int: false,
            boolean: false,
            record: false,
            matcher_match: false,
            matcher_str: false,
        };
        assert(r@ =~= Set::<StreamType>::empty());
        r
    }

    /// Registers `stream_type`; returns whether it was registered before.
    pub fn register(&mut self, stream_type: StreamType) -> (r: bool)
        ensures
            r == old(self)@.contains(stream_type),
            final(self)@ == old(self)@.insert(stream_type),
    {
        let r = match stream_type {
            StreamType::Json => {
                let r = self.json;
                self.json = true;
                r
            },
            StreamType::Int => {
                let r = self.int;
                self.int = true;
                r
            },
            StreamType::Bool => {
                let r = self.boolean;
                self.boolean = true;
                r
            },
            StreamType::Record => {
                let r = self.record;
                self.record = true;
                r
            },
            StreamType::MatcherMatch => {
                let r = self.matcher_match;
                self.matcher_match = true;
                r
            },
            StreamType::MatcherStr => {
                let r = self.matcher_str;
                self.matcher_str = true;
                r
            },
        };
        assert(final(self)@ =~= old(self)@.insert(stream_type));
        r
    }

    /// Registers every kind of `types`, in order.
    pub fn register_all(&mut self, types: &Vec<StreamType>)
        ensures
            final(self)@ == old(self)@ + types@.to_set(),
    {
        let mut i: usize = 0;
        while i < types.len()
            invariant
                i <= types@.len(),
                self@ == old(self)@ + types@.subrange(0, i as int).to_set(),
            decreases types@.len() - i,
        {
            self.register(types[i]);
            i += 1;
            assert(self@ =~= old(self)@ + types@.subrange(0, i as int).to_set()) by {
                assert(types@.subrange(0, i as int) =~= types@.subrange(0, i - 1).push(types@[i - 1]));
                types@.subrange(0, i - 1).lemma_push_to_set_commute(types@[i - 1]);
            }
        }
        assert(types@.subrange(0, i as int) =~= types@);
    }

    /// The registered kinds, each once, in the fixed declaration order.
    pub fn get_stream_types(&self) -> (r: Vec<StreamType>)
        ensures
            r@ == declaration_order(self@),
    {
        let mut r: Vec<StreamType> = Vec::new();
        if self.json {
            r.push(StreamType::Json);
        }
        if self.int {
            r.push(StreamType::Int);
        }
        if self.boolean {
            r.push(StreamType::Bool);
        }
        if self.record {
            r.push(StreamType::Record);
        }
        if self.matcher_match {
            r.push(StreamType::MatcherMatch);
        }
        if self.matcher_str {
            r.push(StreamType::MatcherStr);
        }
        assert(r@ =~= declaration_order(self@));
        r
    }
}

} // verus!
