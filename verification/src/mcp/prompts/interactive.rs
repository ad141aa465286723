//! Slash commands and menu options: the ways a user triggers a prompt.

use vstd::prelude::*;
use crate::mcp::prompts::types::{PromptId, PromptParameters};
use crate::text::{chars_of, concat4, owned, string_of, trim, trim_exec};

verus! {

/// `t`, already trimmed, is the slash command `cmd`: a `/`, the command, and
/// then either the end of the text or a space.
pub open spec fn slash_match(t: Seq<char>, cmd: Seq<char>) -> bool {
    &&& t.len() >= 1 + cmd.len() as int
    &&& t[0] == '/'
    &&& t.subrange(1, 1 + cmd.len() as int) == cmd
    &&& (t.len() == 1 + cmd.len() as int || t[1 + cmd.len() as int] == ' ')
}

/// The arguments of the slash command `cmd` in `t`, trimmed; none when empty.
pub open spec fn slash_args(t: Seq<char>, cmd: Seq<char>) -> Option<Seq<char>> {
    let rest = trim(t.subrange(1 + cmd.len() as int, t.len() as int));
    if rest.len() == 0 { None } else { Some(rest) }
}

fn slash_match_exec(t: &Vec<char>, cmd: &Vec<char>) -> (r: bool)
    ensures
        r == slash_match(t@, cmd@),
{
    if t.len() < 1 || t.len() - 1 < cmd.len() || t[0] != '/' {
        return false;
    }
    let mut i: usize = 0;
    while i < cmd.len()
        invariant
            i <= cmd@.len(),
            t@.len() >= 1 + cmd@.len(),
            forall|j: int| 0 <= j < i ==> t@[1 + j] == cmd@[j],
        decreases cmd.len() - i,
    {
        if t[i + 1] != cmd[i] {
            assert(t@.subrange(1, 1 + cmd@.len() as int)[i as int] != cmd@[i as int]);
            return false;
        }
        i = i + 1;
    }
    assert(t@.subrange(1, 1 + cmd@.len() as int) =~= cmd@);
    t.len() == 1 + cmd.len() || t[1 + cmd.len()] == ' '
}

/// A slash command that triggers a prompt.
#[derive(Debug)]
pub struct SlashCommand {
    /// The command's identifier.
    pub id: String,
    /// The command text, without the slash.
    pub command: String,
    /// What the command does.
    pub description: String,
    /// The prompt it runs.
    pub prompt_id: PromptId,
    /// Parameters passed to the prompt unless given.
    pub default_parameters: Option<PromptParameters>,
}

impl SlashCommand {
    /// A command without default parameters.
    pub fn new(id: &str, command: &str, description: &str, prompt_id: &str) -> (r: SlashCommand)
        ensures
            r.id@ == id@,
            r.command@ == command@,
            r.description@ == description@,
            r.prompt_id.0@ == prompt_id@,
            r.default_parameters is None,
    {
        SlashCommand {
            id: owned(id),
            command: owned(command),
            description: owned(description),
            prompt_id: PromptId::new(prompt_id),
            default_parameters: None,
        }
    }

    /// The command with the given default parameters.
    pub fn with_default_parameters(self, parameters: PromptParameters) -> (r: SlashCommand)
        ensures
            r.default_parameters == Some(parameters),
            r.id == self.id,
            r.command == self.command,
            r.description == self.description,
            r.prompt_id == self.prompt_id,
    {
        let mut s = self;
        s.default_parameters = Some(parameters);
        s
    }

    /// Whether `text`, trimmed, invokes this command.
    pub fn matches(&self, text: &str) -> (r: bool)
        ensures
            r == slash_match(trim(text@), self.command@),
    {
        let t = trim_exec(&chars_of(text));
        slash_match_exec(&t, &chars_of(self.command.as_str()))
    }

    /// The trimmed arguments that follow the command in `text`; none when
    /// `text` does not invoke the command or nothing follows it.
    pub fn extract_args(&self, text: &str) -> (r: Option<String>)
        ensures
            !slash_match(trim(trim(text@)), self.command@) ==> r is None,
            slash_match(trim(trim(text@)), self.command@) ==> match slash_args(trim(text@), self.command@) {
                Some(a) => r matches Some(s) && s@ == a,
                None => r is None,
            },
    {
        let t = trim_exec(&chars_of(text));
        let cmd = chars_of(self.command.as_str());
        let tt = trim_exec(&t);
        if !slash_match_exec(&tt, &cmd) {
            return None;
        }
        let mut rest: Vec<char> = Vec::new();
        proof {
            crate::text::lemma_trim_len(t@);
        }
        let tl = t.len();
        let mut i: usize = 1 + cmd.len();
        while i < t.len()
            invariant
                1 + cmd@.len() <= i <= t@.len(),
                rest@ == t@.subrange(1 + cmd@.len() as int, i as int),
            decreases t.len() - i,
        {
            rest.push(t[i]);
            i = i + 1;
            assert(rest@ =~= t@.subrange(1 + cmd@.len() as int, i as int));
        }
        let args = trim_exec(&rest);
        if args.len() == 0 {
            None
        } else {
            Some(string_of(args.as_slice()))
        }
    }

    /// The command as listed to a user: `/command - description`.
    pub fn to_string(&self) -> (r: String)
        ensures
            r@ == "/"@ + self.command@ + " - "@ + self.description@,
    {
        concat4("/", self.command.as_str(), " - ", self.description.as_str())
    }
}

/// A menu entry that triggers a prompt.
#[derive(Debug)]
pub struct MenuOption {
    /// The option's identifier.
    pub id: String,
    /// The text shown.
    pub text: String,
    /// What the option does.
    pub description: String,
    /// The prompt it runs.
    pub prompt_id: PromptId,
    /// Parameters passed to the prompt unless given.
    pub default_parameters: Option<PromptParameters>,
    /// An icon shown beside the text.
    pub icon: Option<String>,
    /// The group the option belongs to.
    pub group: Option<String>,
}

impl MenuOption {
    /// An option without defaults, icon or group.
    pub fn new(id: &str, text: &str, description: &str, prompt_id: &str) -> (r: MenuOption)
        ensures
            r.id@ == id@,
            r.text@ == text@,
            r.description@ == description@,
            r.prompt_id.0@ == prompt_id@,
            r.default_parameters is None,
            r.icon is None,
            r.group is None,
    {
        MenuOption {
            id: owned(id),
            text: owned(text),
            description: owned(description),
            prompt_id: PromptId::new(prompt_id),
            default_parameters: None,
            icon: None,
            group: None,
        }
    }

    /// The option with the given default parameters.
    pub fn with_default_parameters(self, parameters: PromptParameters) -> (r: MenuOption)
        ensures
            r == (MenuOption { default_parameters: Some(parameters), ..self }),
    {
        let mut s = self;
        s.default_parameters = Some(parameters);
        s
    }

    /// The option with the given icon.
    pub fn with_icon(self, icon: &str) -> (r: MenuOption)
        ensures
            r.icon matches Some(i) && i@ == icon@,
            r.id == self.id && r.text == self.text && r.description == self.description,
            r.prompt_id == self.prompt_id && r.default_parameters == self.default_parameters,
            r.group == self.group,
    {
        let mut s = self;
        s.icon = Some(owned(icon));
        s
    }

    /// The option in the given group.
    pub fn with_group(self, group: &str) -> (r: MenuOption)
        ensures
            r.group matches Some(g) && g@ == group@,
            r.id == self.id && r.text == self.text && r.description == self.description,
            r.prompt_id == self.prompt_id && r.default_parameters == self.default_parameters,
            r.icon == self.icon,
    {
        let mut s = self;
        s.group = Some(owned(group));
        s
    }
}

/// A titled group of menu options.
#[derive(Debug)]
pub struct MenuGroup {
    /// The group's identifier.
    pub id: String,
    /// The title shown.
    pub text: String,
    /// The options, in order.
    pub options: Vec<MenuOption>,
}

impl MenuGroup {
    /// An empty group.
    pub fn new(id: &str, text: &str) -> (r: MenuGroup)
        ensures
            r.id@ == id@,
            r.text@ == text@,
            r.options@.len() == 0,
    {
        MenuGroup { id: owned(id), text: owned(text), options: Vec::new() }
    }

    /// Appends an option to the group.
    pub fn add_option(&mut self, option: MenuOption) -> (r: &mut MenuGroup)
        ensures
            r.options@ == old(self).options@.push(option),
            r.id == old(self).id,
            r.text == old(self).text,
            *final(self) == *final(r),
    {
        self.options.push(option);
        self
    }
}

} // verus!
