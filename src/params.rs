//! Global generator parameters and project-name rules.
use vstd::prelude::*;

verus! {

/// Errors of the compilation as a whole.
#[derive(Clone, Copy, PartialEq, Eq, Structural, Debug)]
pub enum GeneratorError {
    /// The document analyzes to no component at all (a null root).
    NoRoot,
    /// The project name breaks a naming rule.
    InvalidProjectName,
    /// The schema document could not be read.
    InputError,
    /// The schema document is not well-formed JSON.
    SchemaParseError,
    /// The matcher collaborator could not compile a literal.
    MatcherGenerationFailed,
}

/// The characters `char::is_whitespace` accepts: the Unicode `White_Space` set.
pub open spec fn whitespace_char(c: char) -> bool {
    ('\t' <= c && c <= '\r') || c == ' ' || c == '\u{85}' || c == '\u{a0}' || c == '\u{1680}' || ('\u{2000}'
        <= c && c <= '\u{200a}') || c == '\u{2028}' || c == '\u{2029}' || c == '\u{202f}' || c == '\u{205f}' || c
        == '\u{3000}'
}

/// Characters a project name may not hold: whitespace and the listed punctuation.
pub open spec fn forbidden_char(c: char) -> bool {
    whitespace_char(c) || c == '\\' || c == '/' || c == ':' || c == '*' || c == '?' || c == '"' || c == '<'
        || c == '>' || c == '|' || c == ',' || c == '.' || c == ';' || c == '\'' || c == '!' || c == '@' || c
        == '#' || c == '$' || c == '%' || c == '^' || c == '&' || c == '(' || c == ')' || c == '-' || c == '+'
        || c == '=' || c == '[' || c == ']' || c == '{' || c == '}' || c == '`' || c == '~'
}

/// A project name is non-empty, holds no forbidden character and no doubled
/// underscore, and does not start with an underscore or a digit.
pub open spec fn valid_project_name(s: Seq<char>) -> bool {
    &&& s.len() > 0
    &&& forall|i: int| 0 <= i < s.len() ==> !forbidden_char(#[trigger] s[i])
    &&& forall|i: int| 0 <= i < s.len() - 1 ==> !(#[trigger] s[i] == '_' && s[i + 1] == '_')
    &&& s[0] != '_' && !('0' <= s[0] <= '9')
}

fn is_forbidden(c: char) -> (r: bool)
    ensures
        r == forbidden_char(c),
{
    let whitespace = ('\t' <= c && c <= '\r') || c == ' ' || c == '\u{85}' || c == '\u{a0}' || c == '\u{1680}'
        || ('\u{2000}' <= c && c <= '\u{200a}') || c == '\u{2028}' || c == '\u{2029}' || c == '\u{202f}' || c
        == '\u{205f}' || c == '\u{3000}';
    whitespace || c == '\\' || c == '/' || c == ':' || c == '*' || c == '?' || c == '"' || c == '<' || c == '>'
        || c == '|' || c == ',' || c == '.' || c == ';' || c == '\'' || c == '!' || c == '@' || c == '#' || c
        == '$' || c == '%' || c == '^' || c == '&' || c == '(' || c == ')' || c == '-' || c == '+' || c == '='
        || c == '[' || c == ']' || c == '{' || c == '}' || c == '`' || c == '~'
}

/// Returns the name unchanged when it is a valid project name.
pub fn validate_project_name(project_name: &str) -> (r: Result<String, GeneratorError>)
    ensures
        valid_project_name(project_name@) ==> r is Ok && r->Ok_0@ == project_name@,
        !valid_project_name(project_name@) ==> r == Err::<String, GeneratorError>(
            GeneratorError::InvalidProjectName,
        ),
{
    let n = project_name.unicode_len();
    if n == 0 {
        return Err(GeneratorError::InvalidProjectName);
    }
    let mut i: usize = 0;
    while i < n
        invariant
            n == project_name@.len(),
            i <= n,
            forall|k: int| 0 <= k < i ==> !forbidden_char(#[trigger] project_name@[k]),
            forall|k: int| 0 <= k < i as int - 1 ==> !(#[trigger] project_name@[k] == '_' && project_name@[k + 1] == '_'),
        decreases n - i,
    {
        let c = project_name.get_char(i);
        if is_forbidden(c) {
            return Err(GeneratorError::InvalidProjectName);
        }
        if i > 0 && c == '_' && project_name.get_char(i - 1) == '_' {
            assert(project_name@[i - 1] == '_' && project_name@[(i - 1) + 1] == '_');
            return Err(GeneratorError::InvalidProjectName);
        }
        i += 1;
    }
    let first = project_name.get_char(0);
    if first == '_' || ('0' <= first && first <= '9') {
        return Err(GeneratorError::InvalidProjectName);
    }
    Ok(String::from_str(project_name))
}

/// The namespace path: every underscore becomes `::`.
pub open spec fn til_namespace(s: Seq<char>) -> Seq<char>
    decreases s.len(),
{
    if s.len() == 0 {
        Seq::empty()
    } else if s.last() == '_' {
        til_namespace(s.drop_last()) + seq![':', ':']
    } else {
        til_namespace(s.drop_last()).push(s.last())
    }
}

/// The component-file prefix: every underscore becomes `_0_`.
pub open spec fn comp_namespace(s: Seq<char>) -> Seq<char>
    decreases s.len(),
{
    if s.len() == 0 {
        Seq::empty()
    } else if s.last() == '_' {
        comp_namespace(s.drop_last()) + seq!['_', '0', '_']
    } else {
        comp_namespace(s.drop_last()).push(s.last())
    }
}

/// The namespace path and the component-file prefix derived from a project name.
pub fn namespace_from_project_name(project_name: &str) -> (r: (String, String))
    ensures
        r.0@ == til_namespace(project_name@),
        r.1@ == comp_namespace(project_name@),
{
    let mut til = String::new();
    let mut comp = String::new();
    let n = project_name.unicode_len();
    let mut i: usize = 0;
    proof {
        reveal_strlit("::");
        reveal_strlit("_0_");
    }
    assert(project_name@.subrange(0, 0) =~= Seq::<char>::empty());
    while i < n
        invariant
            n == project_name@.len(),
            i <= n,
            til@ == til_namespace(project_name@.subrange(0, i as int)),
            comp@ == comp_namespace(project_name@.subrange(0, i as int)),
        decreases n - i,
    {
        let ghost pre = project_name@.subrange(0, i as int);
        let ghost next = project_name@.subrange(0, i + 1);
        assert(next.drop_last() =~= pre);
        let c = project_name.get_char(i);
        assert(next.last() == c);
        proof {
            reveal_strlit("::");
            reveal_strlit("_0_");
        }
        if c == '_' {
            til.append("::");
            comp.append("_0_");
        } else {
            let piece = project_name.substring_char(i, i + 1);
            til.append(piece);
            comp.append(piece);
            assert(piece@ =~= seq![c]);
        }
        assert(til@ =~= til_namespace(next));
        assert(comp@ =~= comp_namespace(next));
        i += 1;
    }
    assert(project_name@.subrange(0, n as int) =~= project_name@);
    (til, comp)
}

/// Parameters shared by the whole compilation.
pub struct GeneratorParams {
    pub epc: usize,
    pub bit_width: usize,
    pub int_width: usize,
    pub output_dir: String,
    pub project_name: String,
    pub namespace: String,
    pub comp_namespace: String,
}

impl GeneratorParams {
    /// Parameters for a project; fails on an invalid project name.
    pub fn new(epc: usize, bit_width: usize, int_width: usize, output_dir: &str, project_name: &str) -> (r:
        Result<GeneratorParams, GeneratorError>)
        ensures
            valid_project_name(project_name@) <==> r is Ok,
            !valid_project_name(project_name@) ==> r == Err::<GeneratorParams, GeneratorError>(
                GeneratorError::InvalidProjectName,
            ),
            r is Ok ==> {
                let p = r->Ok_0;
                &&& p.epc == epc
                &&& p.bit_width == bit_width
                &&& p.int_width == int_width
                &&& p.output_dir@ == output_dir@
                &&& p.project_name@ == project_name@
                &&& p.namespace@ == til_namespace(project_name@)
                &&& p.comp_namespace@ == comp_namespace(project_name@)
            },
    {
        match validate_project_name(project_name) {
            Ok(name) => {
                let (til_ns, comp_ns) = namespace_from_project_name(project_name);
                Ok(GeneratorParams {
                    epc,
                    bit_width,
                    int_width,
                    output_dir: String::from_str(output_dir),
                    project_name: name,
                    namespace: til_ns,
                    comp_namespace: comp_ns,
                })
            },
            Err(e) => Err(e),
        }
    }
}

} // verus!
