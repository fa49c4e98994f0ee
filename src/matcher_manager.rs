//! Deduplicated requests for matcher circuits, one per distinct literal.
use vstd::prelude::*;
use crate::params::GeneratorError;

verus! {

pub struct MatcherModel {
    pub pattern: Seq<char>,
    pub component_name: Seq<char>,
    pub holder_name: Seq<char>,
}

/// A request to generate the circuit matching one literal field name.
pub struct MatcherRequest {
    pub pattern: String,
    pub component_name: String,
    pub holder_name: String,
}

impl View for MatcherRequest {
    type V = MatcherModel;

    open spec fn view(&self) -> MatcherModel {
        MatcherModel {
            pattern: self.pattern@,
            component_name: self.component_name@,
            holder_name: self.holder_name@,
        }
    }
}

pub open spec fn requests_view(s: Seq<MatcherRequest>) -> Seq<MatcherModel> {
    s.map_values(|r: MatcherRequest| r@)
}

/// The position of the latest request for `pattern`, if any.
pub open spec fn find_matcher(s: Seq<MatcherModel>, pattern: Seq<char>) -> Option<nat>
    decreases s.len(),
{
    if s.len() == 0 {
        None
    } else if s.last().pattern == pattern {
        Some((s.len() - 1) as nat)
    } else {
        find_matcher(s.drop_last(), pattern)
    }
}

/// When no request for `pattern` is found, none has that pattern.
pub proof fn lemma_find_matcher_none(s: Seq<MatcherModel>, pattern: Seq<char>)
    requires
        find_matcher(s, pattern) is None,
    ensures
        forall|k: int| 0 <= k < s.len() ==> s[k].pattern != pattern,
    decreases s.len(),
{
    if s.len() > 0 {
        lemma_find_matcher_none(s.drop_last(), pattern);
        assert forall|k: int| 0 <= k < s.len() - 1 implies s[k] == s.drop_last()[k] by {}
    }
}

/// The matcher requests issued so far, at most one per literal.
pub struct MatcherManager {
    matchers: Vec<MatcherRequest>,
}

impl View for MatcherManager {
    type V = Seq<MatcherModel>;

    closed spec fn view(&self) -> Seq<MatcherModel> {
        requests_view(self.matchers@)
    }
}

impl MatcherManager {
    pub fn new() -> (r: MatcherManager)
        ensures
            r@ == Seq::<MatcherModel>::empty(),
    {
        let r = MatcherManager { matchers: Vec::new() };
        assert(r@ =~= Seq::<MatcherModel>::empty());
        r
    }

    /// The component name of the matcher already requested for `pattern`.
    pub fn find(&self, pattern: &String) -> (r: Option<&String>)
        ensures
            match find_matcher(self@, pattern@) {
                Some(i) => r is Some && r->0@ == self@[i as int].component_name,
                None => r is None,
            },
    {
        let mut i = self.matchers.len();
        assert(self@.subrange(0, i as int) =~= self@);
        while i > 0
            invariant
                i <= self.matchers@.len(),
                find_matcher(self@, pattern@) == find_matcher(self@.subrange(0, i as int), pattern@),
            decreases i,
        {
            let ghost pre = self@.subrange(0, i as int);
            assert(pre.drop_last() =~= self@.subrange(0, i - 1));
            assert(pre.last() == self.matchers@[i - 1]@);
            if self.matchers[i - 1].pattern == *pattern {
                return Some(&self.matchers[i - 1].component_name);
            }
            i -= 1;
        }
        None
    }

    /// Requests a matcher for `pattern` unless one was requested already;
    /// returns whether the request was added.
    pub fn add_matcher(&mut self, pattern: String, component_name: String, holder_name: String) -> (r: bool)
        ensures
            r == (find_matcher(old(self)@, pattern@) is None),
            final(self)@ == if r {
                old(self)@.push(
                    MatcherModel { pattern: pattern@, component_name: component_name@, holder_name: holder_name@ },
                )
            } else {
                old(self)@
            },
    {
        if self.find(&pattern).is_some() {
            return false;
        }
        let req = MatcherRequest { pattern, component_name, holder_name };
        self.matchers.push(req);
        assert(self@ =~= old(self)@.push(req@));
        true
    }

    /// The requests, in the order they were added.
    pub fn into_requests(self) -> (r: Vec<MatcherRequest>)
        ensures
            requests_view(r@) == self@,
    {
        self.matchers
    }

    pub fn get_matchers(&self) -> (r: &Vec<MatcherRequest>)
        ensures
            requests_view(r@) == self@,
    {
        &self.matchers
    }
}


/// The collaborator that compiles one literal field name into the module text
/// of a streaming matcher, or explains why it cannot.
pub trait MatcherCompiler {
    fn compile_matcher(&mut self, component_name: &str, holder_name: &str, pattern: &str) -> Result<String, String>;
}

/// Compiles every requested matcher, in order; the first failure fails the
/// whole compilation. On success, each module text is paired with the
/// component name it belongs to.
pub fn generate_matchers<C: MatcherCompiler>(compiler: &mut C, requests: &Vec<MatcherRequest>) -> (r: Result<
    Vec<(String, String)>,
    GeneratorError,
>)
    ensures
        requests@.len() == 0 ==> r is Ok && r->Ok_0@.len() == 0,
        r is Err ==> r == Err::<Vec<(String, String)>, GeneratorError>(GeneratorError::MatcherGenerationFailed),
        r is Ok ==> {
            let v = r->Ok_0@;
            &&& v.len() == requests@.len()
            &&& forall|i: int| 0 <= i < v.len() ==> #[trigger] v[i].0@ == requests@[i].component_name@
        },
{
    let mut out: Vec<(String, String)> = Vec::new();
    let mut i: usize = 0;
    while i < requests.len()
        invariant
            i <= requests@.len(),
            out@.len() == i,
            forall|k: int| 0 <= k < i ==> #[trigger] out@[k].0@ == requests@[k].component_name@,
        decreases requests@.len() - i,
    {
        let req = &requests[i];
        match compiler.compile_matcher(req.component_name.as_str(), req.holder_name.as_str(), req.pattern.as_str()) {
            Ok(text) => {
                out.push((req.component_name.clone(), text));
            },
            Err(_) => {
                return Err(GeneratorError::MatcherGenerationFailed);
            },
        }
        i += 1;
    }
    Ok(out)
}

} // verus!
