//! Registry that hands out globally unique, deterministic instance names.
use vstd::prelude::*;
use crate::text::{dec, pad2, is_digit, lemma_pad2, push_decimal, push_padded2};

verus! {

/// The key under which names with one preferred name and nesting level are counted:
/// `"{preferred}_L{level}_"`.
pub open spec fn base_key(preferred: Seq<char>, level: nat) -> Seq<char> {
    preferred + seq!['_', 'L'] + dec(level) + seq!['_']
}

/// The name handed out for the `index`-th registration under `base`.
pub open spec fn issued_name(base: Seq<char>, index: nat) -> Seq<char> {
    base + pad2(index)
}

/// Two issued names are equal only when they come from the same base key and
/// the same counter value.
pub proof fn lemma_issued_name_injective(b1: Seq<char>, i1: nat, b2: Seq<char>, i2: nat)
    requires
        b1.len() > 0 && b1.last() == '_',
        b2.len() > 0 && b2.last() == '_',
        issued_name(b1, i1) == issued_name(b2, i2),
    ensures
        b1 == b2,
        i1 == i2,
{
    lemma_pad2(i1, i2);
    lemma_pad2(i2, i1);
    let p1 = pad2(i1);
    let p2 = pad2(i2);
    let s = b1 + p1;
    assert(s == b2 + p2);
    assert(s.len() == b1.len() + p1.len());
    assert(s.len() == b2.len() + p2.len());
    if b1.len() < b2.len() {
        let k = b2.len() - 1;
        assert(s[k] == b2.last());
        assert(s[k] == p1[k - b1.len()]);
        assert(is_digit(p1[k - b1.len()]));
    } else if b2.len() < b1.len() {
        let k = b1.len() - 1;
        assert(s[k] == b1.last());
        assert(s[k] == p2[k - b2.len()]);
        assert(is_digit(p2[k - b2.len()]));
    } else {
        assert(b1 =~= s.subrange(0, b1.len() as int));
        assert(b2 =~= s.subrange(0, b2.len() as int));
        assert(p1 =~= s.subrange(b1.len() as int, s.len() as int));
        assert(p2 =~= s.subrange(b2.len() as int, s.len() as int));
    }
}

/// Counts, per base key, how many names were handed out.
pub struct NameReg {
    keys: Vec<String>,
    counts: Vec<usize>,
}

impl NameReg {
    /// Internal consistency: one counter per key, keys pairwise distinct.
    pub closed spec fn wf(&self) -> bool {
        &&& self.keys@.len() == self.counts@.len()
        &&& forall|i: int, j: int|
            0 <= i < j < self.keys@.len() ==> self.keys@[i]@ != self.keys@[j]@
    }

    /// How many names were handed out under `base`.
    pub closed spec fn count(&self, base: Seq<char>) -> nat {
        if exists|i: int| 0 <= i < self.keys@.len() && self.keys@[i]@ == base {
            self.counts@[choose|i: int| 0 <= i < self.keys@.len() && self.keys@[i]@ == base] as nat
        } else {
            0
        }
    }

    /// An empty registry.
    pub fn new() -> (r: NameReg)
        ensures
            r.wf(),
            forall|b: Seq<char>| r.count(b) == 0,
    {
        NameReg { keys: Vec::new(), counts: Vec::new() }
    }

    /// Whether `name` was handed out already: it is some base key followed by a
    /// counter value below that key's count.
    pub open spec fn issued(&self, name: Seq<char>) -> bool {
        exists|b: Seq<char>, k: nat|
            #![trigger issued_name(b, k), self.count(b)]
            b.len() > 0 && b.last() == '_' && k < self.count(b) && name == issued_name(b, k)
    }

    /// Registers `name` at `nesting_level` and returns a name never returned
    /// before (see `register_counted`).
    pub fn register(&mut self, name: &str, nesting_level: usize) -> (r: String)
        requires
            old(self).wf(),
            old(self).count(base_key(name@, nesting_level as nat)) < usize::MAX,
        ensures
            final(self).wf(),
            r@ == issued_name(
                base_key(name@, nesting_level as nat),
                old(self).count(base_key(name@, nesting_level as nat)),
            ),
            forall|b: Seq<char>|
                #![trigger final(self).count(b)]
                final(self).count(b) == if b == base_key(name@, nesting_level as nat) {
                    old(self).count(b) + 1
                } else {
                    old(self).count(b)
                },
            !old(self).issued(r@),
            final(self).issued(r@),
            forall|x: Seq<char>| old(self).issued(x) ==> final(self).issued(x),
    {
        let ghost prev = *self;
        let r = self.register_counted(name, nesting_level);
        proof {
            let base = base_key(name@, nesting_level as nat);
            let c = prev.count(base);
            assert(base.last() == '_');
            if prev.issued(r@) {
                let (b, k) = choose|b: Seq<char>, k: nat|
                    #![trigger issued_name(b, k), prev.count(b)]
                    b.len() > 0 && b.last() == '_' && k < prev.count(b) && r@ == issued_name(b, k);
                lemma_issued_name_injective(b, k, base, c);
            }
            assert(self.count(base) == c + 1);
            assert(issued_name(base, c) == r@);
            assert forall|x: Seq<char>| prev.issued(x) implies self.issued(x) by {
                let (b, k) = choose|b: Seq<char>, k: nat|
                    #![trigger issued_name(b, k), prev.count(b)]
                    b.len() > 0 && b.last() == '_' && k < prev.count(b) && x == issued_name(b, k);
                assert(self.count(b) >= prev.count(b));
            }
        }
        r
    }

    /// Registers `name` at `nesting_level` and returns
    /// `"{name}_L{nesting_level}_NN"`, where `NN` is the zero-padded number of
    /// earlier registrations under the same name and level.
    #[verifier::spinoff_prover]
    fn register_counted(&mut self, name: &str, nesting_level: usize) -> (r: String)
        requires
            old(self).wf(),
            old(self).count(base_key(name@, nesting_level as nat)) < usize::MAX,
        ensures
            final(self).wf(),
            r@ == issued_name(
                base_key(name@, nesting_level as nat),
                old(self).count(base_key(name@, nesting_level as nat)),
            ),
            forall|b: Seq<char>|
                #![trigger final(self).count(b)]
                final(self).count(b) == if b == base_key(name@, nesting_level as nat) {
                    old(self).count(b) + 1
                } else {
                    old(self).count(b)
                },
    {
        let ghost base_spec = base_key(name@, nesting_level as nat);
        let ghost orig = *self;
        assert(orig.count(base_spec) < usize::MAX);
        let mut base = String::from_str(name);
        proof {
            reveal_strlit("_L");
            reveal_strlit("_");
        }
        base.append("_L");
        push_decimal(&mut base, nesting_level as u128);
        base.append("_");
        assert(base@ =~= base_spec);

        let n = self.keys.len();
        let mut i: usize = 0;
        while i < n
            invariant
                *self == orig,
                *old(self) == orig,
                orig.count(base_spec) < usize::MAX,
                base_spec == base_key(name@, nesting_level as nat),
                self.wf(),
                n == self.keys@.len(),
                i <= n,
                base@ == base_spec,
                forall|j: int| 0 <= j < i ==> self.keys@[j]@ != base_spec,
            decreases n - i,
        {
            if self.keys[i] == base {
                let c = self.counts[i];
                proof {
                    assert(self.count(base_spec) == c) by {
                        assert(self.keys@[i as int]@ == base_spec);
                        let k = choose|k: int| 0 <= k < self.keys@.len() && self.keys@[k]@ == base_spec;
                        assert(k == i);
                    }
                }
                assert(orig.count(base_spec) == c);
                let ghost prev = *self;
                let mut r = base;
                push_padded2(&mut r, c);
                self.counts.set(i, c + 1);
                proof {
                    assert forall|b: Seq<char>| #![trigger self.count(b)]
                        self.count(b) == if b == base_spec { prev.count(b) + 1 } else { prev.count(b) } by {
                        if exists|k: int| 0 <= k < self.keys@.len() && self.keys@[k]@ == b {
                            let k = choose|k: int| 0 <= k < self.keys@.len() && self.keys@[k]@ == b;
                            let k2 = choose|k: int| 0 <= k < prev.keys@.len() && prev.keys@[k]@ == b;
                            assert(k == k2);
                        }
                    }
                }
                return r;
            }
            i += 1;
        }
        assert(self.count(base_spec) == 0);
        let ghost prev = *self;
        let mut r = base.clone();
        push_padded2(&mut r, 0);
        self.keys.push(base);
        self.counts.push(1);
        proof {
            assert forall|b: Seq<char>| #![trigger self.count(b)]
                self.count(b) == if b == base_spec { prev.count(b) + 1 } else { prev.count(b) } by {
                if b == base_spec {
                    assert(self.keys@[n as int]@ == b);
                    let k = choose|k: int| 0 <= k < self.keys@.len() && self.keys@[k]@ == b;
                    assert(k == n);
                } else if exists|k: int| 0 <= k < self.keys@.len() && self.keys@[k]@ == b {
                    let k = choose|k: int| 0 <= k < self.keys@.len() && self.keys@[k]@ == b;
                    assert(k < n);
                    assert(prev.keys@[k]@ == b);
                    let k2 = choose|k: int| 0 <= k < prev.keys@.len() && prev.keys@[k]@ == b;
                    assert(k == k2);
                } else {
                    if exists|k: int| 0 <= k < prev.keys@.len() && prev.keys@[k]@ == b {
                        let k = choose|k: int| 0 <= k < prev.keys@.len() && prev.keys@[k]@ == b;
                        assert(self.keys@[k]@ == b);
                    }
                }
            }
        }
        r
    }
}

} // verus!
