//! Resource templates: URIs with `{name}` placeholders and the parameters
//! that fill them.

use vstd::prelude::*;
use crate::keyed::{has_name, KeyedList};
use crate::text::{chars_of, concat2, owned, push_all, replace_all, replace_all_exec, str_eq, string_of};

verus! {

/// The placeholder for the parameter named `k`: `{k}`.
pub open spec fn uri_placeholder(k: Seq<char>) -> Seq<char> {
    seq!['{'] + k + seq!['}']
}

/// `s` with the placeholder of each entry replaced by its value, entry by
/// entry in order.
pub open spec fn fill_uri(s: Seq<char>, entries: Seq<(String, String)>) -> Seq<char>
    decreases entries.len(),
{
    if entries.len() == 0 {
        s
    } else {
        replace_all(fill_uri(s, entries.drop_last()), uri_placeholder(entries.last().0@), entries.last().1@)
    }
}

/// A parameter of a resource template.
#[derive(Debug)]
pub struct TemplateParameter {
    /// The parameter's name.
    pub name: String,
    /// A human-readable name.
    pub display_name: Option<String>,
    /// What the parameter means.
    pub description: Option<String>,
    /// Whether the parameter must be supplied.
    pub required: bool,
    /// The value used when none is supplied.
    pub default_value: Option<String>,
    /// Example values, for completion.
    pub examples: Vec<String>,
}

impl TemplateParameter {
    /// An optional parameter with nothing but a name.
    pub fn new(name: &str) -> (r: TemplateParameter)
        ensures
            r.name@ == name@,
            r.display_name is None && r.description is None && !r.required,
            r.default_value is None && r.examples@.len() == 0,
    {
        TemplateParameter {
            name: owned(name),
            display_name: None,
            description: None,
            required: false,
            default_value: None,
            examples: Vec::new(),
        }
    }

    /// The parameter with the given display name.
    pub fn with_display_name(self, display_name: &str) -> (r: TemplateParameter)
        ensures
            r.display_name matches Some(d) && d@ == display_name@,
            r.name == self.name && r.description == self.description && r.required == self.required,
            r.default_value == self.default_value && r.examples == self.examples,
    {
        let mut s = self;
        s.display_name = Some(owned(display_name));
        s
    }

    /// The parameter with the given description.
    pub fn with_description(self, description: &str) -> (r: TemplateParameter)
        ensures
            r.description matches Some(d) && d@ == description@,
            r.name == self.name && r.display_name == self.display_name && r.required == self.required,
            r.default_value == self.default_value && r.examples == self.examples,
    {
        let mut s = self;
        s.description = Some(owned(description));
        s
    }

    /// The parameter, required or not.
    pub fn with_required(self, required: bool) -> (r: TemplateParameter)
        ensures
            r.required == required,
            r.name == self.name && r.display_name == self.display_name && r.description == self.description,
            r.default_value == self.default_value && r.examples == self.examples,
    {
        let mut s = self;
        s.required = required;
        s
    }

    /// The parameter with the given default value.
    pub fn with_default(self, default_value: &str) -> (r: TemplateParameter)
        ensures
            r.default_value matches Some(d) && d@ == default_value@,
            r.name == self.name && r.display_name == self.display_name && r.description == self.description,
            r.required == self.required && r.examples == self.examples,
    {
        let mut s = self;
        s.default_value = Some(owned(default_value));
        s
    }

    /// The parameter with one more example value.
    pub fn with_example(self, example: &str) -> (r: TemplateParameter)
        ensures
            r.examples@.len() == self.examples@.len() + 1,
            r.examples@.drop_last() == self.examples@,
            r.examples@.last()@ == example@,
            r.name == self.name && r.display_name == self.display_name && r.description == self.description,
            r.required == self.required && r.default_value == self.default_value,
    {
        let mut s = self;
        s.examples.push(owned(example));
        assert(s.examples@.drop_last() =~= self.examples@);
        s
    }
}

/// A template for parameterized resources.
#[derive(Debug)]
pub struct ResourceTemplate {
    /// The URI, with `{name}` placeholders.
    pub uri_template: String,
    /// A human-readable name.
    pub name: String,
    /// What the resources are.
    pub description: Option<String>,
    /// The MIME type of the resources.
    pub mime_type: Option<String>,
    /// The parameters the placeholders stand for.
    pub parameters: Vec<TemplateParameter>,
}

/// The outcome of checking supplied values against a template's parameters:
/// the first required parameter not supplied, else the first supplied name that
/// is no parameter's.
pub open spec fn template_validation(ps: Seq<TemplateParameter>, supplied: Seq<(String, String)>) -> Result<(), Seq<char>> {
    if exists|i: int| 0 <= i < ps.len() && (#[trigger] ps[i]).required && !has_name(supplied, ps[i].name@) {
        let i = choose|i: int| 0 <= i < ps.len() && (#[trigger] ps[i]).required && !has_name(supplied, ps[i].name@)
            && forall|j: int| 0 <= j < i ==> !((#[trigger] ps[j]).required && !has_name(supplied, ps[j].name@));
        Err("Missing required parameter: "@ + ps[i].name@)
    } else if exists|i: int| 0 <= i < supplied.len() && !is_param_name(ps, (#[trigger] supplied[i]).0@) {
        let i = choose|i: int| 0 <= i < supplied.len() && !is_param_name(ps, (#[trigger] supplied[i]).0@)
            && forall|j: int| 0 <= j < i ==> is_param_name(ps, (#[trigger] supplied[j]).0@);
        Err("Unknown parameter: "@ + supplied[i].0@)
    } else {
        Ok(())
    }
}

/// Some parameter of `ps` is named `k`.
pub open spec fn is_param_name(ps: Seq<TemplateParameter>, k: Seq<char>) -> bool {
    exists|i: int| 0 <= i < ps.len() && (#[trigger] ps[i]).name@ == k
}

impl ResourceTemplate {
    /// A template without description, MIME type or parameters.
    pub fn new(uri_template: &str, name: &str) -> (r: ResourceTemplate)
        ensures
            r.uri_template@ == uri_template@,
            r.name@ == name@,
            r.description is None && r.mime_type is None && r.parameters@.len() == 0,
    {
        ResourceTemplate {
            uri_template: owned(uri_template),
            name: owned(name),
            description: None,
            mime_type: None,
            parameters: Vec::new(),
        }
    }

    /// The template with the given description.
    pub fn with_description(self, description: &str) -> (r: ResourceTemplate)
        ensures
            r.description matches Some(d) && d@ == description@,
            r.uri_template == self.uri_template && r.name == self.name,
            r.mime_type == self.mime_type && r.parameters == self.parameters,
    {
        let mut s = self;
        s.description = Some(owned(description));
        s
    }

    /// The template with the given MIME type.
    pub fn with_mime_type(self, mime_type: &str) -> (r: ResourceTemplate)
        ensures
            r.mime_type matches Some(m) && m@ == mime_type@,
            r.uri_template == self.uri_template && r.name == self.name,
            r.description == self.description && r.parameters == self.parameters,
    {
        let mut s = self;
        s.mime_type = Some(owned(mime_type));
        s
    }

    /// The template with one more parameter.
    pub fn with_parameter(self, parameter: TemplateParameter) -> (r: ResourceTemplate)
        ensures
            r.parameters@ == self.parameters@.push(parameter),
            r.uri_template == self.uri_template && r.name == self.name,
            r.description == self.description && r.mime_type == self.mime_type,
    {
        let mut s = self;
        s.parameters.push(parameter);
        s
    }

    /// The URI with each `{name}` replaced by the value supplied for `name`.
    pub fn apply(&self, params: &KeyedList<String>) -> (r: String)
        ensures
            r@ == fill_uri(self.uri_template@, params.entries()),
    {
        let mut text = chars_of(self.uri_template.as_str());
        let total = params.len();
        let mut m: usize = 0;
        assert(params.entries().subrange(0, 0) =~= Seq::<(String, String)>::empty());
        while m < total
            invariant
                m <= total,
                total == params.entries().len(),
                text@ == fill_uri(self.uri_template@, params.entries().subrange(0, m as int)),
            decreases total - m,
        {
            let (k, v) = params.entry_at(m);
            let mut ph: Vec<char> = Vec::new();
            ph.push('{');
            push_all(&mut ph, &chars_of(k.as_str()));
            ph.push('}');
            assert(ph@ =~= uri_placeholder(k@));
            text = replace_all_exec(&text, &ph, &chars_of(v.as_str()));
            assert(params.entries().subrange(0, m + 1).drop_last() =~= params.entries().subrange(0, m as int));
            m = m + 1;
        }
        assert(params.entries().subrange(0, total as int) =~= params.entries());
        string_of(text.as_slice())
    }

    /// Checks the supplied values: every required parameter is supplied and
    /// every supplied name is a parameter's.
    pub fn validate_params(&self, params: &KeyedList<String>) -> (r: Result<(), String>)
        ensures
            match template_validation(self.parameters@, params.entries()) {
                Ok(()) => r is Ok,
                Err(m) => r matches Err(s) && s@ == m,
            },
    {
        let ps = &self.parameters;
        let mut i: usize = 0;
        while i < ps.len()
            invariant
                i <= ps@.len(),
                ps@ == self.parameters@,
                forall|j: int| 0 <= j < i ==> !((#[trigger] ps@[j]).required && !has_name(params.entries(), ps@[j].name@)),
            decreases ps.len() - i,
        {
            if ps[i].required && !params.contains_key(ps[i].name.as_str()) {
                proof {
                    let c = choose|c: int| 0 <= c < ps@.len() && (#[trigger] ps@[c]).required && !has_name(params.entries(), ps@[c].name@)
                        && forall|j: int| 0 <= j < c ==> !((#[trigger] ps@[j]).required && !has_name(params.entries(), ps@[j].name@));
                    assert(has_name(params.entries(), ps@[i as int].name@) == params.spec_get(ps@[i as int].name@) is Some);
                    if c > i { assert(!((ps@[i as int]).required && !has_name(params.entries(), ps@[i as int].name@))); }
                    assert(c == i);
                }
                return Err(concat2("Missing required parameter: ", ps[i].name.as_str()));
            }
            i = i + 1;
        }
        let n = params.len();
        let mut j: usize = 0;
        while j < n
            invariant
                j <= n,
                n == params.entries().len(),
                ps@ == self.parameters@,
                forall|a: int| 0 <= a < ps@.len() ==> !((#[trigger] ps@[a]).required && !has_name(params.entries(), ps@[a].name@)),
                forall|a: int| 0 <= a < j ==> is_param_name(ps@, (#[trigger] params.entries()[a]).0@),
            decreases n - j,
        {
            let (k, _v) = params.entry_at(j);
            let mut found = false;
            let mut q: usize = 0;
            while q < ps.len()
                invariant
                    q <= ps@.len(),
                    found ==> is_param_name(ps@, k@),
                    !found ==> forall|b: int| 0 <= b < q ==> (#[trigger] ps@[b]).name@ != k@,
                decreases ps.len() - q,
            {
                if str_eq(ps[q].name.as_str(), k.as_str()) {
                    found = true;
                }
                q = q + 1;
            }
            if !found {
                proof {
                    let c = choose|c: int| 0 <= c < params.entries().len() && !is_param_name(ps@, (#[trigger] params.entries()[c]).0@)
                        && forall|a: int| 0 <= a < c ==> is_param_name(ps@, (#[trigger] params.entries()[a]).0@);
                    assert(!is_param_name(ps@, params.entries()[j as int].0@));
                    if c > j { assert(is_param_name(ps@, params.entries()[j as int].0@)); }
                    assert(c == j);
                }
                return Err(concat2("Unknown parameter: ", k.as_str()));
            }
            j = j + 1;
        }
        Ok(())
    }
}

/// The templates a server offers.
#[derive(Debug)]
pub struct ResourceTemplateListResponse {
    /// The templates.
    pub resource_templates: Vec<ResourceTemplate>,
}

} // verus!
