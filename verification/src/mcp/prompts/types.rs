//! The values that prompt templates are built from and rendered with:
//! identifiers, parameters, versions, categories, parameter sets and rendered
//! prompts.

use vstd::prelude::*;
use crate::keyed::{has_name, KeyedList};
use crate::mcp::types::new_uuid_string;
use crate::text::owned;

verus! {

/// A unique identifier for a prompt template.
#[derive(Debug, PartialEq, Eq, Hash)]
pub struct PromptId(pub String);

impl Clone for PromptId {
    fn clone(&self) -> (r: Self)
        ensures
            r == *self,
    {
        PromptId(self.0.clone())
    }
}

impl PromptId {
    /// An identifier with the given text.
    pub fn new(id: &str) -> (r: PromptId)
        ensures
            r.0@ == id@,
    {
        PromptId(owned(id))
    }

    /// A fresh random identifier in the textual UUID form.
    pub fn generate() -> (r: PromptId)
        ensures
            crate::mcp::types::is_uuid_text(r.0@),
    {
        PromptId(new_uuid_string())
    }
}

/// A parameter that a prompt template accepts.
#[derive(Debug, PartialEq)]
pub struct PromptParameter {
    /// Parameter name.
    pub name: String,
    /// Parameter description.
    pub description: String,
    /// Whether the parameter must be supplied.
    pub required: bool,
    /// The value used when none is supplied.
    pub default_value: Option<String>,
    /// The values the parameter is restricted to, if any.
    pub enum_values: Option<Vec<String>>,
}

/// A copy of an optional string.
pub fn clone_opt_string(s: &Option<String>) -> (r: Option<String>)
    ensures
        r == *s,
{
    match s {
        Some(v) => Some(v.clone()),
        None => None,
    }
}

/// A copy of a vector of strings.
pub fn clone_strings(v: &Vec<String>) -> (r: Vec<String>)
    ensures
        r@ == v@,
{
    let r = v.clone();
    assert(r@ =~= v@);
    r
}

/// The allowed values of a parameter, by their view.
pub open spec fn opt_strings_view(o: Option<Vec<String>>) -> Option<Seq<String>> {
    match o {
        Some(v) => Some(v@),
        None => None,
    }
}

impl PromptParameter {
    /// Two parameters agree in every field, the allowed values by their view.
    pub open spec fn same_as(&self, other: &PromptParameter) -> bool {
        &&& self.name == other.name
        &&& self.description == other.description
        &&& self.required == other.required
        &&& self.default_value == other.default_value
        &&& opt_strings_view(self.enum_values) == opt_strings_view(other.enum_values)
    }
}

impl Clone for PromptParameter {
    fn clone(&self) -> (r: Self)
        ensures
            r.same_as(self),
    {
        PromptParameter {
            name: self.name.clone(),
            description: self.description.clone(),
            required: self.required,
            default_value: clone_opt_string(&self.default_value),
            enum_values: match &self.enum_values {
                Some(v) => Some(clone_strings(v)),
                None => None,
            },
        }
    }
}

impl PromptParameter {
    /// A parameter that must be supplied.
    pub fn required(name: &str, description: &str) -> (r: PromptParameter)
        ensures
            r.name@ == name@,
            r.description@ == description@,
            r.required,
            r.default_value is None,
            r.enum_values is None,
    {
        PromptParameter {
            name: owned(name),
            description: owned(description),
            required: true,
            default_value: None,
            enum_values: None,
        }
    }

    /// A parameter that may be left out, with the value used then.
    pub fn optional(name: &str, description: &str, default_value: &str) -> (r: PromptParameter)
        ensures
            r.name@ == name@,
            r.description@ == description@,
            !r.required,
            r.default_value matches Some(d) && d@ == default_value@,
            r.enum_values is None,
    {
        PromptParameter {
            name: owned(name),
            description: owned(description),
            required: false,
            default_value: Some(owned(default_value)),
            enum_values: None,
        }
    }

    /// A required parameter restricted to `values`, defaulting to the first.
    pub fn enumeration(name: &str, description: &str, values: Vec<&str>) -> (r: PromptParameter)
        ensures
            r.name@ == name@,
            r.description@ == description@,
            r.required,
            values@.len() == 0 ==> r.default_value is None,
            values@.len() > 0 ==> (r.default_value matches Some(d) && d@ == values@[0]@),
            r.enum_values matches Some(e) && e@.len() == values@.len()
                && forall|i: int| 0 <= i < values@.len() ==> #[trigger] e@[i]@ == values@[i]@,
    {
        let mut all: Vec<String> = Vec::new();
        let mut i: usize = 0;
        while i < values.len()
            invariant
                i <= values@.len(),
                all@.len() == i,
                forall|j: int| 0 <= j < i ==> #[trigger] all@[j]@ == values@[j]@,
            decreases values.len() - i,
        {
            all.push(owned(values[i]));
            i = i + 1;
        }
        let default_value = if values.len() > 0 { Some(owned(values[0])) } else { None };
        PromptParameter {
            name: owned(name),
            description: owned(description),
            required: true,
            default_value,
            enum_values: Some(all),
        }
    }
}

/// The version of a prompt template.
#[derive(Debug, PartialEq, Eq, Hash)]
pub struct PromptVersion(pub String);

impl Clone for PromptVersion {
    fn clone(&self) -> (r: Self)
        ensures
            r == *self,
    {
        PromptVersion(self.0.clone())
    }
}

impl PromptVersion {
    /// A version with the given text.
    pub fn new(version: &str) -> (r: PromptVersion)
        ensures
            r.0@ == version@,
    {
        PromptVersion(owned(version))
    }

    /// The version named `latest`.
    pub fn latest() -> (r: PromptVersion)
        ensures
            r.0@ == "latest"@,
    {
        PromptVersion(owned("latest"))
    }
}

/// The category of a prompt template.
#[derive(Debug, PartialEq, Eq, Hash)]
pub struct PromptCategory(pub String);

impl Clone for PromptCategory {
    fn clone(&self) -> (r: Self)
        ensures
            r == *self,
    {
        PromptCategory(self.0.clone())
    }
}

impl PromptCategory {
    /// A category with the given text.
    pub fn new(category: &str) -> (r: PromptCategory)
        ensures
            r.0@ == category@,
    {
        PromptCategory(owned(category))
    }
}

/// The values supplied for a prompt's parameters, by name.
#[derive(Debug)]
pub struct PromptParameters(pub KeyedList<String>);

impl Clone for PromptParameters {
    fn clone(&self) -> (r: Self)
        ensures
            r.0.entries() == self.0.entries(),
    {
        let c = self.0.clone();
        assert forall|i: int| 0 <= i < c.entries().len() implies #[trigger] c.entries()[i] == self.0.entries()[i] by {
            assert(cloned::<String>(self.0.entries()[i].1, c.entries()[i].1));
        }
        assert(c.entries() =~= self.0.entries());
        PromptParameters(c)
    }
}

impl PromptParameters {
    /// The value supplied under `key`.
    pub open spec fn value(&self, key: Seq<char>) -> Option<String> {
        self.0.spec_get(key)
    }

    /// No values.
    pub fn new() -> (r: PromptParameters)
        ensures
            forall|k: Seq<char>| r.value(k) is None,
            r.0.entries().len() == 0,
    {
        PromptParameters(KeyedList::new())
    }

    /// The given pairs; of pairs with the same key the last one counts.
    pub fn from_list(params: &[(&str, &str)]) -> (r: PromptParameters)
        ensures
            forall|k: Seq<char>| (#[trigger] r.value(k)) is Some <==> exists|i: int| 0 <= i < params@.len() && params@[i].0@ == k,
            forall|i: int| #![trigger params@[i]] 0 <= i < params@.len()
                && (forall|j: int| i < j < params@.len() ==> params@[j].0@ != params@[i].0@)
                ==> (r.value(params@[i].0@) matches Some(v) && v@ == params@[i].1@),
    {
        let mut map: KeyedList<String> = KeyedList::new();
        let mut i: usize = 0;
        while i < params.len()
            invariant
                i <= params@.len(),
                forall|k: Seq<char>| (#[trigger] map.spec_get(k)) is Some <==> exists|j: int| 0 <= j < i && params@[j].0@ == k,
                forall|j: int| #![trigger params@[j]] 0 <= j < i
                    && (forall|l: int| j < l < i ==> params@[l].0@ != params@[j].0@)
                    ==> (map.spec_get(params@[j].0@) matches Some(v) && v@ == params@[j].1@),
            decreases params.len() - i,
        {
            let (k, v) = params[i];
            let ghost old_map = map;
            map.insert(owned(k), owned(v));
            proof {
                assert forall|kk: Seq<char>| (#[trigger] map.spec_get(kk)) is Some <==> exists|j: int| 0 <= j < i + 1 && params@[j].0@ == kk by {
                    if kk == k@ {
                        assert(params@[i as int].0@ == kk);
                    } else {
                        if exists|j: int| 0 <= j < i + 1 && params@[j].0@ == kk {
                            let j = choose|j: int| 0 <= j < i + 1 && params@[j].0@ == kk;
                            assert(j != i);
                        }
                    }
                }
            }
            i = i + 1;
        }
        PromptParameters(map)
    }

    /// Stores `value` under `key`, in place of any earlier value: one entry
    /// more when `key` was absent. Gives back the parameters, for chaining.
    pub fn add(&mut self, key: &str, value: &str) -> (r: &mut Self)
        ensures
            r.value(key@) matches Some(v) && v@ == value@,
            forall|k: Seq<char>| k != key@ ==> r.value(k) == old(self).value(k),
            r.0.entries().len() == old(self).0.entries().len() + if old(self).value(key@) is None { 1int } else { 0int },
            *final(self) == *final(r),
    {
        let ghost before = self.0.entries();
        self.0.insert(owned(key), owned(value));
        proof {
            if has_name(before, key@) {
                assert(self.0.entries().len() == before.len());
            }
        }
        self
    }

    /// The value supplied under `key`.
    pub fn get(&self, key: &str) -> (r: Option<&String>)
        ensures
            match r {
                Some(v) => self.value(key@) == Some(*v),
                None => self.value(key@) is None,
            },
    {
        self.0.get(key)
    }
}

impl Default for PromptParameters {
    fn default() -> (r: Self)
        ensures
            forall|k: Seq<char>| r.value(k) is None,
    {
        PromptParameters::new()
    }
}

/// A prompt rendered from a template.
#[derive(Debug)]
pub struct RenderedPrompt {
    /// The template's identifier.
    pub id: PromptId,
    /// The rendered text.
    pub text: String,
    /// The parameters supplied.
    pub parameters: PromptParameters,
    /// The template's version.
    pub version: PromptVersion,
}

impl RenderedPrompt {
    /// A rendered prompt of the given parts.
    pub fn new(id: PromptId, text: String, parameters: PromptParameters, version: PromptVersion) -> (r: RenderedPrompt)
        ensures
            r.id == id,
            r.text == text,
            r.parameters == parameters,
            r.version == version,
    {
        RenderedPrompt { id, text, parameters, version }
    }
}

} // verus!
