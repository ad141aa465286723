//! Prompt templates: text with `{{name}}` placeholders, the parameters that
//! fill them, and the rules for checking and rendering.

use vstd::prelude::*;
use crate::clock::now_millis;
use crate::keyed::{insert_all, insert_entry, KeyedList};
use crate::mcp::prompts::types::{
    PromptCategory, PromptId, PromptParameter, PromptParameters, PromptVersion, RenderedPrompt,
};
use crate::text::{
    chars_of, concat2, debug_list, debug_list_text, find_from, find_from_exec, lemma_find_from_some,
    owned, push_all, replace_all, replace_all_exec, str_eq, string_of, strings_view, trim, trim_exec,
};
use crate::utils::error::{McpError, McpResult};

verus! {

/// `{{`, which opens a placeholder.
pub open spec fn open_marker() -> Seq<char> {
    seq!['{', '{']
}

/// `}}`, which closes a placeholder.
pub open spec fn close_marker() -> Seq<char> {
    seq!['}', '}']
}

/// The placeholder for the parameter named `k`: `{{k}}`.
pub open spec fn placeholder(k: Seq<char>) -> Seq<char> {
    open_marker() + k + close_marker()
}

/// The parameter names in `s` from index `i` on: for each `{{` the text up to
/// the next `}}`, trimmed; scanning stops at a `{{` with no `}}` after it.
pub open spec fn extract_from(s: Seq<char>, i: int) -> Seq<Seq<char>>
    decreases s.len() + 1 - i,
{
    if i < 0 || i > s.len() {
        Seq::empty()
    } else {
        match find_from(s, open_marker(), i) {
            None => Seq::empty(),
            Some(st) => match find_from(s, close_marker(), st) {
                None => Seq::empty(),
                Some(e) => {
                    proof {
                        lemma_find_from_some(s, open_marker(), i);
                        lemma_find_from_some(s, close_marker(), st);
                    }
                    seq![trim(s.subrange(st + 2, e))] + extract_from(s, e + 2)
                },
            },
        }
    }
}

/// `s` with the placeholder of each entry replaced by its value, entry by
/// entry in order.
pub open spec fn fill_all(s: Seq<char>, entries: Seq<(String, String)>) -> Seq<char>
    decreases entries.len(),
{
    if entries.len() == 0 {
        s
    } else {
        replace_all(fill_all(s, entries.drop_last()), placeholder(entries.last().0@), entries.last().1@)
    }
}

/// The (name, default) pairs of the parameters that have a default, in order.
pub open spec fn defaults_of(ps: Seq<PromptParameter>) -> Seq<(String, String)>
    decreases ps.len(),
{
    if ps.len() == 0 {
        Seq::empty()
    } else {
        let rest = defaults_of(ps.drop_last());
        match ps.last().default_value {
            Some(d) => rest.push((ps.last().name, d)),
            None => rest,
        }
    }
}

/// The values a template is rendered with: the defaults, then the supplied
/// values over them.
pub open spec fn render_values(ps: Seq<PromptParameter>, supplied: Seq<(String, String)>) -> Seq<(String, String)> {
    insert_all(insert_all(Seq::empty(), defaults_of(ps)), supplied)
}

/// Parameter `p` is required, not supplied, and has no default.
pub open spec fn is_missing(p: PromptParameter, params: PromptParameters) -> bool {
    p.required && params.value(p.name@) is None && p.default_value is None
}

/// The value supplied for `p` is not among its allowed values.
pub open spec fn is_invalid(p: PromptParameter, params: PromptParameters) -> bool {
    match (params.value(p.name@), p.enum_values) {
        (Some(v), Some(e)) => !strings_view(e@).contains(v@),
        _ => false,
    }
}

/// The error for a missing required parameter.
pub open spec fn missing_error(p: PromptParameter) -> Seq<char> {
    "Missing required parameter: "@ + p.name@
}

/// The error for a value outside the allowed ones.
pub open spec fn invalid_error(p: PromptParameter, v: Seq<char>) -> Seq<char> {
    "Invalid value for parameter "@ + p.name@ + ": "@ + v + ". Expected one of: "@
        + debug_list_text(strings_view(p.enum_values->0@))
}

/// The outcome of checking `params` against the parameters `ps`: the first
/// missing required parameter, else the first value outside its allowed ones.
pub open spec fn validation(ps: Seq<PromptParameter>, params: PromptParameters) -> Result<(), Seq<char>> {
    if exists|i: int| 0 <= i < ps.len() && is_missing(#[trigger] ps[i], params) {
        let i = choose|i: int| 0 <= i < ps.len() && is_missing(#[trigger] ps[i], params)
            && forall|j: int| 0 <= j < i ==> !is_missing(#[trigger] ps[j], params);
        Err(missing_error(ps[i]))
    } else if exists|i: int| 0 <= i < ps.len() && is_invalid(#[trigger] ps[i], params) {
        let i = choose|i: int| 0 <= i < ps.len() && is_invalid(#[trigger] ps[i], params)
            && forall|j: int| 0 <= j < i ==> !is_invalid(#[trigger] ps[j], params);
        Err(invalid_error(ps[i], params.value(ps[i].name@)->0@))
    } else {
        Ok(())
    }
}

/// A text without `{{` has no placeholder in it, so filling in any values
/// leaves it as it is.
pub proof fn lemma_fill_without_placeholders(s: Seq<char>, entries: Seq<(String, String)>)
    requires
        forall|i: int| !crate::text::occurs_at(s, open_marker(), i),
    ensures
        fill_all(s, entries) == s,
    decreases entries.len(),
{
    if entries.len() > 0 {
        lemma_fill_without_placeholders(s, entries.drop_last());
        let pat = placeholder(entries.last().0@);
        assert forall|i: int| !crate::text::occurs_at(s, pat, i) by {
            if crate::text::occurs_at(s, pat, i) {
                assert(s.subrange(i, i + 2) =~= pat.subrange(0, 2));
                assert(pat.subrange(0, 2) =~= open_marker());
                assert(crate::text::occurs_at(s, open_marker(), i));
            }
        }
        crate::text::lemma_replace_absent(s, pat, entries.last().1@);
    }
}

/// The placeholder `{{k}}` as characters.
fn placeholder_chars(k: &str) -> (r: Vec<char>)
    ensures
        r@ == placeholder(k@),
{
    let mut r: Vec<char> = Vec::new();
    r.push('{');
    r.push('{');
    push_all(&mut r, &chars_of(k));
    r.push('}');
    r.push('}');
    assert(r@ =~= placeholder(k@));
    r
}

/// Whether `v` is among `vals`.
fn contains_string(vals: &Vec<String>, v: &str) -> (r: bool)
    ensures
        r == strings_view(vals@).contains(v@),
{
    let mut i: usize = 0;
    while i < vals.len()
        invariant
            i <= vals@.len(),
            forall|j: int| 0 <= j < i ==> vals@[j]@ != v@,
        decreases vals.len() - i,
    {
        if str_eq(vals[i].as_str(), v) {
            assert(strings_view(vals@)[i as int] == v@);
            return true;
        }
        i = i + 1;
    }
    false
}

/// A template for generating prompts.
#[derive(Debug)]
pub struct PromptTemplate {
    /// The template's identifier.
    pub id: PromptId,
    /// A human-readable name.
    pub name: String,
    /// What the template is for.
    pub description: String,
    /// The text, with `{{name}}` placeholders.
    pub template: String,
    /// The parameters the template accepts.
    pub parameters: Vec<PromptParameter>,
    /// The template's version.
    pub version: PromptVersion,
    /// The template's category.
    pub category: PromptCategory,
    /// When the template was created, in milliseconds since the Unix epoch.
    pub created_at: i64,
    /// When the template was last changed, in milliseconds since the Unix epoch.
    pub updated_at: i64,
}

impl PromptTemplate {
    /// Two templates agree in every field, the parameters one by one.
    pub open spec fn same_as(&self, other: &PromptTemplate) -> bool {
        &&& self.id == other.id
        &&& self.name == other.name
        &&& self.description == other.description
        &&& self.template == other.template
        &&& self.parameters@.len() == other.parameters@.len()
        &&& forall|i: int| 0 <= i < self.parameters@.len() ==> (#[trigger] self.parameters@[i]).same_as(&other.parameters@[i])
        &&& self.version == other.version
        &&& self.category == other.category
        &&& self.created_at == other.created_at
        &&& self.updated_at == other.updated_at
    }
}

impl Clone for PromptTemplate {
    fn clone(&self) -> (r: Self)
        ensures
            r.same_as(self),
    {
        let parameters = self.parameters.clone();
        proof {
            assert forall|i: int| 0 <= i < self.parameters@.len() implies (#[trigger] parameters@[i]).same_as(&self.parameters@[i]) by {
                assert(cloned::<PromptParameter>(self.parameters@[i], parameters@[i]));
            }
        }
        PromptTemplate {
            id: self.id.clone(),
            name: self.name.clone(),
            description: self.description.clone(),
            template: self.template.clone(),
            parameters,
            version: self.version.clone(),
            category: self.category.clone(),
            created_at: self.created_at,
            updated_at: self.updated_at,
        }
    }
}

impl PromptTemplate {
    /// A template named by its identifier, in the `general` category, version
    /// `latest`, with no parameters.
    pub fn new(id: &str, template: &str) -> (r: PromptTemplate)
        ensures
            r.id.0@ == id@,
            r.name@ == id@,
            r.description@.len() == 0,
            r.template@ == template@,
            r.parameters@.len() == 0,
            r.version.0@ == "latest"@,
            r.category.0@ == "general"@,
            r.created_at == r.updated_at,
    {
        let now = now_millis();
        PromptTemplate {
            id: PromptId::new(id),
            name: owned(id),
            description: String::new(),
            template: owned(template),
            parameters: Vec::new(),
            version: PromptVersion::latest(),
            category: PromptCategory::new("general"),
            created_at: now,
            updated_at: now,
        }
    }

    /// A template with every property given.
    pub fn with_details(
        id: &str,
        name: &str,
        description: &str,
        template: &str,
        parameters: Vec<PromptParameter>,
        version: &str,
        category: &str,
    ) -> (r: PromptTemplate)
        ensures
            r.id.0@ == id@,
            r.name@ == name@,
            r.description@ == description@,
            r.template@ == template@,
            r.parameters == parameters,
            r.version.0@ == version@,
            r.category.0@ == category@,
            r.created_at == r.updated_at,
    {
        let now = now_millis();
        PromptTemplate {
            id: PromptId::new(id),
            name: owned(name),
            description: owned(description),
            template: owned(template),
            parameters,
            version: PromptVersion::new(version),
            category: PromptCategory::new(category),
            created_at: now,
            updated_at: now,
        }
    }

    /// Appends a parameter and stamps the change.
    pub fn add_parameter(&mut self, parameter: PromptParameter) -> (r: &mut PromptTemplate)
        ensures
            r.parameters@ == old(self).parameters@.push(parameter),
            r.template == old(self).template && r.id == old(self).id && r.name == old(self).name,
            r.description == old(self).description && r.version == old(self).version,
            r.category == old(self).category && r.created_at == old(self).created_at,
            *final(self) == *final(r),
    {
        self.parameters.push(parameter);
        self.updated_at = now_millis();
        self
    }

    /// Replaces the text and stamps the change.
    pub fn set_template(&mut self, template: &str) -> (r: &mut PromptTemplate)
        ensures
            r.template@ == template@,
            r.parameters == old(self).parameters && r.id == old(self).id && r.name == old(self).name,
            r.description == old(self).description && r.version == old(self).version,
            r.category == old(self).category && r.created_at == old(self).created_at,
            *final(self) == *final(r),
    {
        self.template = owned(template);
        self.updated_at = now_millis();
        self
    }

    /// Replaces the description and stamps the change.
    pub fn set_description(&mut self, description: &str) -> (r: &mut PromptTemplate)
        ensures
            r.description@ == description@,
            r.parameters == old(self).parameters && r.id == old(self).id && r.name == old(self).name,
            r.template == old(self).template && r.version == old(self).version,
            r.category == old(self).category && r.created_at == old(self).created_at,
            *final(self) == *final(r),
    {
        self.description = owned(description);
        self.updated_at = now_millis();
        self
    }

    /// Replaces the category and stamps the change.
    pub fn set_category(&mut self, category: &str) -> (r: &mut PromptTemplate)
        ensures
            r.category.0@ == category@,
            r.parameters == old(self).parameters && r.id == old(self).id && r.name == old(self).name,
            r.template == old(self).template && r.version == old(self).version,
            r.description == old(self).description && r.created_at == old(self).created_at,
            *final(self) == *final(r),
    {
        self.category = PromptCategory::new(category);
        self.updated_at = now_millis();
        self
    }

    /// Replaces the version and stamps the change.
    pub fn set_version(&mut self, version: &str) -> (r: &mut PromptTemplate)
        ensures
            r.version.0@ == version@,
            r.parameters == old(self).parameters && r.id == old(self).id && r.name == old(self).name,
            r.template == old(self).template && r.category == old(self).category,
            r.description == old(self).description && r.created_at == old(self).created_at,
            *final(self) == *final(r),
    {
        self.version = PromptVersion::new(version);
        self.updated_at = now_millis();
        self
    }

    /// The parameter names that the text mentions, in order of appearance.
    pub fn extract_parameters(&self) -> (r: Vec<String>)
        ensures
            strings_view(r@) == extract_from(self.template@, 0),
    {
        let s = chars_of(self.template.as_str());
        let open = vec!['{', '{'];
        let close = vec!['}', '}'];
        assert(open@ =~= open_marker());
        assert(close@ =~= close_marker());
        let mut params: Vec<String> = Vec::new();
        let mut i: usize = 0;
        assert(strings_view(params@) + extract_from(s@, 0) =~= extract_from(s@, 0));
        while i <= s.len()
            invariant
                i <= s@.len() + 2,
                open@ == open_marker(),
                close@ == close_marker(),
                i <= s@.len() ==> strings_view(params@) + extract_from(s@, i as int) == extract_from(s@, 0),
                i > s@.len() ==> strings_view(params@) == extract_from(s@, 0),
            ensures
                strings_view(params@) == extract_from(s@, 0),
            decreases s@.len() + 2 - i,
        {
            let ghost before = params@;
            match find_from_exec(&s, &open, i) {
                None => {
                    assert(strings_view(params@) =~= extract_from(s@, 0));
                    break;
                },
                Some(st) => {
                    proof { lemma_find_from_some(s@, open@, i as int); }
                    match find_from_exec(&s, &close, st) {
                        None => {
                            assert(strings_view(params@) =~= extract_from(s@, 0));
                            break;
                        },
                        Some(e) => {
                            proof {
                                lemma_find_from_some(s@, close@, st as int);
                                assert(s@[st as int] == '{');
                                assert(s@[st + 1] == '{');
                                assert(s@[e as int] == '}');
                                assert(s@[e + 1] == '}');
                            }
                            let mut name: Vec<char> = Vec::new();
                            let mut k: usize = st + 2;
                            while k < e
                                invariant
                                    st + 2 <= k <= e,
                                    e < s@.len(),
                                    name@ == s@.subrange(st + 2, k as int),
                                decreases e - k,
                            {
                                name.push(s[k]);
                                k = k + 1;
                                assert(name@ =~= s@.subrange(st + 2, k as int));
                            }
                            let trimmed = trim_exec(&name);
                            params.push(string_of(trimmed.as_slice()));
                            proof {
                                assert(strings_view(params@) =~= strings_view(before).push(trim(s@.subrange(st + 2, e as int))));
                                assert(extract_from(s@, i as int) =~= seq![trim(s@.subrange(st + 2, e as int))] + extract_from(s@, e + 2));
                                assert(strings_view(params@) + extract_from(s@, e + 2) =~= strings_view(before) + extract_from(s@, i as int));
                            }
                            i = e + 2;
                        },
                    }
                },
            }
        }
        params
    }

    /// Checks `parameters` against the template's parameters: every required
    /// one without a default is supplied, and every supplied value of a
    /// restricted parameter is among its allowed values.
    pub fn validate_parameters(&self, parameters: &PromptParameters) -> (r: McpResult<()>)
        ensures
            match validation(self.parameters@, *parameters) {
                Ok(()) => r is Ok,
                Err(m) => r matches Err(McpError::ValidationError(s)) && s@ == m,
            },
    {
        let ps = &self.parameters;
        let mut i: usize = 0;
        while i < ps.len()
            invariant
                i <= ps@.len(),
                ps@ == self.parameters@,
                forall|j: int| 0 <= j < i ==> !is_missing(#[trigger] ps@[j], *parameters),
            decreases ps.len() - i,
        {
            let p = &ps[i];
            if p.required && !parameters.0.contains_key(p.name.as_str()) && p.default_value.is_none() {
                proof {
                    assert(is_missing(ps@[i as int], *parameters));
                    let c = choose|c: int| 0 <= c < ps@.len() && is_missing(#[trigger] ps@[c], *parameters)
                        && forall|j: int| 0 <= j < c ==> !is_missing(#[trigger] ps@[j], *parameters);
                    if c < i { } else if c > i { assert(!is_missing(ps@[i as int], *parameters)); }
                    assert(c == i);
                    assert(validation(ps@, *parameters) == Err::<(), Seq<char>>(missing_error(ps@[i as int])));
                }
                let msg = concat2("Missing required parameter: ", p.name.as_str());
                assert(msg@ == missing_error(ps@[i as int]));
                return Err(McpError::ValidationError(msg));
            }
            i = i + 1;
        }
        let mut i: usize = 0;
        while i < ps.len()
            invariant
                i <= ps@.len(),
                ps@ == self.parameters@,
                forall|j: int| 0 <= j < ps@.len() ==> !is_missing(#[trigger] ps@[j], *parameters),
                forall|j: int| 0 <= j < i ==> !is_invalid(#[trigger] ps@[j], *parameters),
            decreases ps.len() - i,
        {
            let p = &ps[i];
            match parameters.get(p.name.as_str()) {
                Some(value) => {
                    match &p.enum_values {
                        Some(vals) => {
                            if !contains_string(vals, value.as_str()) {
                                proof {
                                    assert(is_invalid(ps@[i as int], *parameters));
                                    let c = choose|c: int| 0 <= c < ps@.len() && is_invalid(#[trigger] ps@[c], *parameters)
                                        && forall|j: int| 0 <= j < c ==> !is_invalid(#[trigger] ps@[j], *parameters);
                                    if c < i { } else if c > i { assert(!is_invalid(ps@[i as int], *parameters)); }
                                }
                                let listed = debug_list(vals);
                                let mut msg = concat2("Invalid value for parameter ", p.name.as_str());
                                msg.append(": ");
                                msg.append(value.as_str());
                                msg.append(". Expected one of: ");
                                msg.append(listed.as_str());
                                return Err(McpError::ValidationError(msg));
                            }
                        },
                        None => {},
                    }
                },
                None => {},
            }
            i = i + 1;
        }
        Ok(())
    }

    /// Renders the template: checks the parameters, then replaces each
    /// placeholder by its supplied value or, failing that, its default.
    pub fn render(&self, parameters: &PromptParameters) -> (r: McpResult<RenderedPrompt>)
        ensures
            match validation(self.parameters@, *parameters) {
                Ok(()) => r matches Ok(p) && p.id == self.id && p.version == self.version
                    && p.parameters.0.entries() == parameters.0.entries()
                    && p.text@ == fill_all(self.template@, render_values(self.parameters@, parameters.0.entries())),
                Err(m) => r matches Err(McpError::ValidationError(s)) && s@ == m,
            },
    {
        match self.validate_parameters(parameters) {
            Err(e) => return Err(e),
            Ok(()) => {},
        }
        let mut values: KeyedList<String> = KeyedList::new();
        let ps = &self.parameters;
        let mut i: usize = 0;
        while i < ps.len()
            invariant
                i <= ps@.len(),
                values.entries() == insert_all(Seq::empty(), defaults_of(ps@.subrange(0, i as int))),
            decreases ps.len() - i,
        {
            let ghost before = values.entries();
            assert(ps@.subrange(0, i as int) =~= ps@.subrange(0, i + 1).drop_last());
            match &ps[i].default_value {
                Some(d) => {
                    values.insert(ps[i].name.clone(), d.clone());
                    assert(defaults_of(ps@.subrange(0, i + 1)) =~= defaults_of(ps@.subrange(0, i as int)).push((ps@[i as int].name, *d)));
                    assert(defaults_of(ps@.subrange(0, i + 1)).drop_last() =~= defaults_of(ps@.subrange(0, i as int)));
                },
                None => {
                    assert(defaults_of(ps@.subrange(0, i + 1)) =~= defaults_of(ps@.subrange(0, i as int)));
                },
            }
            i = i + 1;
        }
        assert(ps@.subrange(0, ps@.len() as int) =~= ps@);
        let supplied = &parameters.0;
        let n = supplied.len();
        let mut j: usize = 0;
        while j < n
            invariant
                j <= n,
                n == supplied.entries().len(),
                values.entries() == insert_all(insert_all(Seq::empty(), defaults_of(ps@)), supplied.entries().subrange(0, j as int)),
            decreases n - j,
        {
            let (k, v) = supplied.entry_at(j);
            values.insert(k.clone(), v.clone());
            assert(supplied.entries().subrange(0, j + 1).drop_last() =~= supplied.entries().subrange(0, j as int));
            j = j + 1;
        }
        assert(supplied.entries().subrange(0, n as int) =~= supplied.entries());
        let mut text = chars_of(self.template.as_str());
        let total = values.len();
        let mut m: usize = 0;
        assert(values.entries().subrange(0, 0) =~= Seq::<(String, String)>::empty());
        while m < total
            invariant
                m <= total,
                total == values.entries().len(),
                text@ == fill_all(self.template@, values.entries().subrange(0, m as int)),
            decreases total - m,
        {
            let (k, v) = values.entry_at(m);
            let ph = placeholder_chars(k.as_str());
            assert(ph@.len() > 0);
            text = replace_all_exec(&text, &ph, &chars_of(v.as_str()));
            assert(values.entries().subrange(0, m + 1).drop_last() =~= values.entries().subrange(0, m as int));
            m = m + 1;
        }
        assert(values.entries().subrange(0, total as int) =~= values.entries());
        Ok(RenderedPrompt::new(self.id.clone(), string_of(text.as_slice()), parameters.clone(), self.version.clone()))
    }
}

} // verus!
