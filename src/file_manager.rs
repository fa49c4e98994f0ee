//! Module files generated from templates: which template each kind of
//! streamlet uses, how a template is filled in, and where the file goes.
use vstd::prelude::*;
use crate::components::TemplateType;
use crate::params::GeneratorParams;
use crate::text::{dec, push_decimal};

verus! {

/// The text `text_template` produces from `template` with the placeholders
/// `comp_name`, `bit_width`, `namespace` and `project_name` set to the given values.
pub uninterp spec fn filled_template(
    template: Seq<char>,
    comp_name: Seq<char>,
    bit_width: Seq<char>,
    namespace: Seq<char>,
    project_name: Seq<char>,
) -> Seq<char>;

/// Whether `s` opens a placeholder (`${`) anywhere.
pub open spec fn has_placeholder(s: Seq<char>) -> bool {
    exists|i: int| 0 <= i < s.len() - 1 && #[trigger] s[i] == '$' && s[i + 1] == '{'
}

/// Every character of `s` is ASCII.
pub open spec fn ascii_text(s: Seq<char>) -> bool {
    forall|i: int| 0 <= i < s.len() ==> (#[trigger] s[i] as u32) < 128
}

/// Whether every character of `s` is ASCII.
pub fn is_ascii_text(s: &str) -> (r: bool)
    ensures
        r == ascii_text(s@),
{
    let n = s.unicode_len();
    let mut i: usize = 0;
    while i < n
        invariant
            n == s@.len(),
            i <= n,
            forall|k: int| 0 <= k < i ==> (#[trigger] s@[k] as u32) < 128,
        decreases n - i,
    {
        if (s.get_char(i) as u32) >= 128 {
            return false;
        }
        i += 1;
    }
    true
}

/// Relies on `text_template::Template::from` and `Template::fill_in`: the text
/// depends on the template and the four values alone, and a template that
/// opens no placeholder comes back unchanged. The template is ASCII: the
/// crate's placeholder parsing slices by character count, which panics inside
/// a multi-byte whitespace character.
#[verifier::external_body]
fn fill_template(template: &str, comp_name: &str, bit_width: &str, namespace: &str, project_name: &str) -> (r: String)
    requires
        ascii_text(template@),
    ensures
        r@ == filled_template(template@, comp_name@, bit_width@, namespace@, project_name@),
        !has_placeholder(template@) ==> r@ == template@,
{
    let parsed = text_template::Template::from(template);
    let mut values: std::collections::HashMap<&str, &str> = std::collections::HashMap::new();
    values.insert("comp_name", comp_name);
    values.insert("bit_width", bit_width);
    values.insert("namespace", namespace);
    values.insert("project_name", project_name);
    parsed.fill_in(&values).to_string()
}

/// The template file a kind of streamlet is generated from; matchers are
/// generated per literal instead, and the scalar string and boolean kinds have none.
pub open spec fn template_file(t: TemplateType) -> Option<Seq<char>> {
    match t {
        TemplateType::Array => Some("array_parser.vhd"@),
        TemplateType::Int => Some("int_parser.vhd"@),
        TemplateType::Record => Some("record_parser.vhd"@),
        TemplateType::Key => Some("key_parser.vhd"@),
        _ => None,
    }
}

impl TemplateType {
    /// The template file of this kind (see `template_file`).
    pub fn template_file_name(&self) -> (r: Option<&'static str>)
        ensures
            match r {
                Some(s) => template_file(*self) == Some(s@),
                None => template_file(*self) is None,
            },
    {
        match self {
            TemplateType::Array => Some("array_parser.vhd"),
            TemplateType::Int => Some("int_parser.vhd"),
            TemplateType::Record => Some("record_parser.vhd"),
            TemplateType::Key => Some("key_parser.vhd"),
            _ => None,
        }
    }
}

/// The module text of the streamlet `component_name`, from the ASCII template text.
pub fn file_from_template(template: &str, component_name: &str, gen_params: &GeneratorParams) -> (r: String)
    requires
        ascii_text(template@),
    ensures
        r@ == filled_template(
            template@,
            component_name@,
            dec(gen_params.bit_width as nat),
            gen_params.comp_namespace@,
            gen_params.project_name@,
        ),
{
    let mut bit_width = String::new();
    push_decimal(&mut bit_width, gen_params.bit_width as u128);
    assert(bit_width@ =~= dec(gen_params.bit_width as nat));
    fill_template(
        template,
        component_name,
        bit_width.as_str(),
        gen_params.comp_namespace.as_str(),
        gen_params.project_name.as_str(),
    )
}

/// The name of the module file of `component_name`: `{prefix}_0_{name}.vhd`.
pub open spec fn module_file(comp_namespace: Seq<char>, component_name: Seq<char>) -> Seq<char> {
    comp_namespace + "_0_"@ + component_name + ".vhd"@
}

pub fn module_file_name(comp_namespace: &str, component_name: &str) -> (r: String)
    ensures
        r@ == module_file(comp_namespace@, component_name@),
{
    let mut r = String::from_str(comp_namespace);
    r.append("_0_");
    r.append(component_name);
    r.append(".vhd");
    assert(r@ =~= module_file(comp_namespace@, component_name@));
    r
}

} // verus!
