//! The registry of prompt templates.

use vstd::prelude::*;
use crate::keyed::KeyedList;
use crate::mcp::prompts::template::{fill_all, render_values, validation, PromptTemplate};
use crate::mcp::prompts::types::{PromptParameter, PromptParameters, RenderedPrompt};
use crate::text::{concat2, strings_view};
use crate::utils::error::{McpError, McpResult};

verus! {

/// The error for an identifier that names no template.
pub open spec fn template_not_found(id: Seq<char>) -> Seq<char> {
    "Template not found: "@ + id
}

/// `p` is a parameter named `n`, described by `d`, that must be given.
pub open spec fn required_param(p: PromptParameter, n: Seq<char>, d: Seq<char>) -> bool {
    p.name@ == n && p.description@ == d && p.required && p.default_value is None && p.enum_values is None
}

/// The built-in template that analyses code.
pub open spec fn is_code_analysis(t: PromptTemplate) -> bool {
    &&& t.id.0@ == "code_analysis"@ && t.name@ == "Code Analysis"@
    &&& t.description@ == "Analyze code for errors, optimizations, and best practices"@
    &&& t.template@ == "Analyze the following {{language}} code:\n\n```{{language}}\n{{code}}\n```\n\nFocus on: {{focus}}"@
    &&& t.parameters@.len() == 3
    &&& required_param(t.parameters@[0], "language"@, "Programming language"@)
    &&& required_param(t.parameters@[1], "code"@, "Code to analyze"@)
    &&& t.parameters@[2].name@ == "focus"@ && t.parameters@[2].description@ == "Analysis focus"@
        && !t.parameters@[2].required && t.parameters@[2].enum_values is None
        && (t.parameters@[2].default_value matches Some(d) && d@ == "errors,performance,security"@)
    &&& t.version.0@ == "1.0"@ && t.category.0@ == "code"@
}

/// The built-in template that writes commit messages.
pub open spec fn is_commit_message(t: PromptTemplate) -> bool {
    &&& t.id.0@ == "commit_message"@ && t.name@ == "Generate Commit Message"@
    &&& t.description@ == "Generate a descriptive commit message for code changes"@
    &&& t.template@ == "Generate a commit message for the following changes:\n\n```diff\n{{diff}}\n```"@
    &&& t.parameters@.len() == 1
    &&& required_param(t.parameters@[0], "diff"@, "Git diff of changes"@)
    &&& t.version.0@ == "1.0"@ && t.category.0@ == "git"@
}

/// Templates by identifier.
#[derive(Debug)]
pub struct PromptManager {
    templates: KeyedList<PromptTemplate>,
}

impl PromptManager {
    /// The template registered under `id`.
    pub closed spec fn template(&self, id: Seq<char>) -> Option<PromptTemplate> {
        self.templates.spec_get(id)
    }

    /// The identifiers, in order of first registration.
    pub closed spec fn ids(&self) -> Seq<Seq<char>> {
        self.templates.names()
    }

    /// A manager without templates.
    pub fn new() -> (r: PromptManager)
        ensures
            forall|id: Seq<char>| r.template(id) is None,
            r.ids().len() == 0,
    {
        PromptManager { templates: KeyedList::new() }
    }

    /// Registers `template` under its identifier, replacing any template
    /// registered there before.
    pub fn register_template(&mut self, template: PromptTemplate) -> (r: McpResult<()>)
        ensures
            r is Ok,
            final(self).template(template.id.0@) == Some(template),
            forall|id: Seq<char>| id != template.id.0@ ==> final(self).template(id) == old(self).template(id),
    {
        let id = template.id.0.clone();
        self.templates.insert(id, template);
        Ok(())
    }

    /// A copy of the template registered under `id`.
    pub fn get_template(&self, id: &str) -> (r: McpResult<PromptTemplate>)
        ensures
            match self.template(id@) {
                Some(t) => r matches Ok(c) && c.same_as(&t),
                None => r matches Err(McpError::NotFound(m)) && m@ == template_not_found(id@),
            },
    {
        match self.templates.get(id) {
            Some(t) => Ok(t.clone()),
            None => Err(McpError::NotFound(concat2("Template not found: ", id))),
        }
    }

    /// Removes the template registered under `id`.
    pub fn remove_template(&mut self, id: &str) -> (r: McpResult<()>)
        ensures
            old(self).template(id@) is Some ==> r is Ok,
            old(self).template(id@) is None ==> (r matches Err(McpError::NotFound(m)) && m@ == template_not_found(id@)),
            final(self).template(id@) is None,
            forall|k: Seq<char>| k != id@ ==> final(self).template(k) == old(self).template(k),
    {
        match self.templates.remove(id) {
            Some(_) => Ok(()),
            None => Err(McpError::NotFound(concat2("Template not found: ", id))),
        }
    }

    /// The identifiers of the registered templates.
    pub fn list_templates(&self) -> (r: Vec<String>)
        ensures
            strings_view(r@) == self.ids(),
            forall|id: Seq<char>| self.template(id) is Some <==> self.ids().contains(id),
    {
        proof { self.templates.lemma_names_are_keys(); }
        self.templates.key_list()
    }

    /// Renders the template registered under `id` with `parameters`.
    pub fn render_prompt(&self, id: &str, parameters: &PromptParameters) -> (r: McpResult<RenderedPrompt>)
        ensures
            match self.template(id@) {
                None => r matches Err(McpError::NotFound(m)) && m@ == template_not_found(id@),
                Some(t) => match validation(t.parameters@, *parameters) {
                    Ok(()) => r matches Ok(p) && p.id == t.id && p.version == t.version
                        && p.parameters.0.entries() == parameters.0.entries()
                        && p.text@ == fill_all(t.template@, render_values(t.parameters@, parameters.0.entries())),
                    Err(m) => r matches Err(McpError::ValidationError(s)) && s@ == m,
                },
            },
    {
        match self.templates.get(id) {
            Some(t) => t.render(parameters),
            None => Err(McpError::NotFound(concat2("Template not found: ", id))),
        }
    }

    /// Registers the built-in templates `code_analysis` and `commit_message`.
    pub fn register_defaults(&mut self) -> (r: McpResult<()>)
        ensures
            r is Ok,
            final(self).template("code_analysis"@) matches Some(t) && is_code_analysis(t),
            final(self).template("commit_message"@) matches Some(t) && is_commit_message(t),
            forall|id: Seq<char>| id != "code_analysis"@ && id != "commit_message"@
                ==> final(self).template(id) == old(self).template(id),
    {
        let mut params: Vec<PromptParameter> = Vec::new();
        params.push(PromptParameter::required("language", "Programming language"));
        params.push(PromptParameter::required("code", "Code to analyze"));
        params.push(PromptParameter::optional("focus", "Analysis focus", "errors,performance,security"));
        let code_analysis = PromptTemplate::with_details(
            "code_analysis",
            "Code Analysis",
            "Analyze code for errors, optimizations, and best practices",
            "Analyze the following {{language}} code:\n\n```{{language}}\n{{code}}\n```\n\nFocus on: {{focus}}",
            params,
            "1.0",
            "code",
        );
        let ghost ca = code_analysis;
        assert(is_code_analysis(ca));
        let mut params: Vec<PromptParameter> = Vec::new();
        params.push(PromptParameter::required("diff", "Git diff of changes"));
        let commit_message = PromptTemplate::with_details(
            "commit_message",
            "Generate Commit Message",
            "Generate a descriptive commit message for code changes",
            "Generate a commit message for the following changes:\n\n```diff\n{{diff}}\n```",
            params,
            "1.0",
            "git",
        );
        proof {
            reveal_strlit("code_analysis");
            reveal_strlit("commit_message");
            assert("code_analysis"@[2] != "commit_message"@[2]);
            assert("code_analysis"@ != "commit_message"@);
        }
        let _ = self.register_template(code_analysis);
        assert(self.template("code_analysis"@) == Some(ca));
        let _ = self.register_template(commit_message);
        assert(self.template("code_analysis"@) == Some(ca));
        Ok(())
    }
}

impl Default for PromptManager {
    fn default() -> (r: Self)
        ensures
            forall|id: Seq<char>| r.template(id) is None,
    {
        PromptManager::new()
    }
}

/// A prompt manager holding the built-in templates.
pub fn initialize() -> (r: McpResult<PromptManager>)
    ensures
        r matches Ok(m) && (m.template("code_analysis"@) matches Some(t) && is_code_analysis(t))
            && (m.template("commit_message"@) matches Some(t) && is_commit_message(t))
            && forall|id: Seq<char>| id != "code_analysis"@ && id != "commit_message"@ ==> m.template(id) is None,
{
    let mut manager = PromptManager::new();
    match manager.register_defaults() {
        Ok(()) => Ok(manager),
        Err(e) => Err(e),
    }
}

} // verus!
