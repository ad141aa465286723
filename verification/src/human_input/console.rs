//! Asking for input on a terminal: how a request is laid out on screen,
//! plain or in colour.

use vstd::prelude::*;
use colored::Colorize;
use crate::human_input::types::HumanInputRequest;
use crate::text::{chars_of, concat2, decimal, has_prefix, has_suffix, push_all, string_of, u64_to_string};
use crate::mock::mentions;

verus! {

/// The terminal code that ends a coloured span.
pub open spec fn reset_code() -> Seq<char> {
    seq!['\u{1B}', '[', '0', 'm']
}

/// `r` is what `colored` writes for `text` in the style whose opening code is
/// `code`: the text alone when colouring is off, otherwise the text between
/// the opening code and the reset code (resets inside the text are repeated
/// with the opening code after them).
pub open spec fn painted_as(code: Seq<char>, text: Seq<char>, r: Seq<char>) -> bool {
    ||| r == text
    ||| has_prefix(r, code) && has_suffix(r, reset_code())
        && (!mentions(text, reset_code()) ==> r == code + text + reset_code())
}

/// The opening code of bold blue text.
pub open spec fn bold_blue_code() -> Seq<char> {
    seq!['\u{1B}', '[', '1', ';', '3', '4', 'm']
}

/// The opening code of bold text.
pub open spec fn bold_code() -> Seq<char> {
    seq!['\u{1B}', '[', '1', 'm']
}

/// The opening code of yellow text.
pub open spec fn yellow_code() -> Seq<char> {
    seq!['\u{1B}', '[', '3', '3', 'm']
}

/// `colored`'s `text.bold().blue()`, written out. Whether colour is written
/// depends on the environment and the terminal.
#[verifier::external_body]
fn bold_blue(text: &str) -> (r: String)
    ensures
        painted_as(bold_blue_code(), text@, r@),
{
    text.bold().blue().to_string()
}

/// `colored`'s `text.bold()`, written out. Whether colour is written depends
/// on the environment and the terminal.
#[verifier::external_body]
fn bold(text: &str) -> (r: String)
    ensures
        painted_as(bold_code(), text@, r@),
{
    text.bold().to_string()
}

/// `colored`'s `text.yellow()`, written out. Whether colour is written
/// depends on the environment and the terminal.
#[verifier::external_body]
fn yellow(text: &str) -> (r: String)
    ensures
        painted_as(yellow_code(), text@, r@),
{
    text.yellow().to_string()
}

/// The line under the header: fifty box-drawing dashes.
pub open spec fn separator() -> Seq<char> {
    Seq::new(50, |i: int| '\u{2500}')
}

/// The plain layout of a request: header, separator, the description
/// followed by a colon, the prompt, and the time-out.
pub open spec fn plain_prompt(req: HumanInputRequest) -> Seq<char> {
    "HUMAN INPUT NEEDED\n"@ + separator() + seq!['\n']
        + match req.description { Some(d) => d@ + ":\n\n"@, None => Seq::empty() }
        + req.prompt@
        + match req.timeout_seconds { Some(n) => "\n\nTimeout: "@ + decimal(n as nat) + " seconds"@, None => Seq::empty() }
}

/// `r` is the coloured layout of a request, with header `h`, description
/// `d` and time-out parts `t1`, `t2` as `colored` wrote them.
pub open spec fn colored_prompt(req: HumanInputRequest, h: Seq<char>, d: Seq<char>, t1: Seq<char>, t2: Seq<char>, r: Seq<char>) -> bool {
    &&& painted_as(bold_blue_code(), "HUMAN INPUT NEEDED"@, h)
    &&& (req.description matches Some(x) ==> painted_as(bold_code(), x@, d))
    &&& (req.timeout_seconds matches Some(n) ==> painted_as(yellow_code(), "Timeout:"@, t1)
            && painted_as(yellow_code(), decimal(n as nat) + " seconds"@, t2))
    &&& r == h + seq!['\n'] + separator() + seq!['\n']
        + match req.description { Some(_) => d + "\n\n"@, None => Seq::empty() }
        + req.prompt@
        + match req.timeout_seconds { Some(_) => "\n\n"@ + t1 + " "@ + t2, None => Seq::empty() }
}

/// Shows requests on the terminal and reads the answers there.
#[derive(Debug, Clone, Copy)]
pub struct ConsoleInputHandler {
    /// Whether the layout is coloured.
    pub colored_output: bool,
}

impl Default for ConsoleInputHandler {
    /// A handler with coloured output.
    fn default() -> (r: Self)
        ensures
            r.colored_output,
    {
        ConsoleInputHandler { colored_output: true }
    }
}

fn push_str(out: &mut Vec<char>, s: &str)
    ensures
        final(out)@ == old(out)@ + s@,
{
    push_all(out, &chars_of(s));
}

impl ConsoleInputHandler {
    /// A handler with coloured output.
    pub fn new() -> (r: ConsoleInputHandler)
        ensures
            r.colored_output,
    {
        ConsoleInputHandler { colored_output: true }
    }

    /// A handler with plain output.
    pub fn without_color() -> (r: ConsoleInputHandler)
        ensures
            !r.colored_output,
    {
        ConsoleInputHandler { colored_output: false }
    }

    /// The text shown for `request`.
    pub fn format_prompt(&self, request: &HumanInputRequest) -> (r: String)
        ensures
            !self.colored_output ==> r@ == plain_prompt(*request),
            self.colored_output ==> exists|h: Seq<char>, d: Seq<char>, t1: Seq<char>, t2: Seq<char>|
                colored_prompt(*request, h, d, t1, t2, r@),
    {
        let mut out: Vec<char> = Vec::new();
        let ghost mut h: Seq<char> = Seq::empty();
        let ghost mut d: Seq<char> = Seq::empty();
        let ghost mut t1: Seq<char> = Seq::empty();
        let ghost mut t2: Seq<char> = Seq::empty();
        if self.colored_output {
            let header = bold_blue("HUMAN INPUT NEEDED");
            proof { h = header@; }
            push_str(&mut out, header.as_str());
            out.push('\n');
            assert(out@ =~= h + seq!['\n']);
        } else {
            push_str(&mut out, "HUMAN INPUT NEEDED\n");
        }
        let ghost after_header = out@;
        let mut k: usize = 0;
        while k < 50
            invariant
                k <= 50,
                out@ == after_header + Seq::new(k as nat, |i: int| '\u{2500}'),
            decreases 50 - k,
        {
            out.push('\u{2500}');
            k = k + 1;
            assert(out@ =~= after_header + Seq::new(k as nat, |i: int| '\u{2500}'));
        }
        out.push('\n');
        let ghost after_sep = out@;
        assert(after_sep == after_header + separator() + seq!['\n']);
        match &request.description {
            Some(description) => {
                if self.colored_output {
                    let b = bold(description.as_str());
                    proof { d = b@; }
                    push_str(&mut out, b.as_str());
                    push_str(&mut out, "\n\n");
                    assert(out@ =~= after_sep + (d + "\n\n"@));
                } else {
                    push_str(&mut out, description.as_str());
                    push_str(&mut out, ":\n\n");
                }
            },
            None => {},
        }
        let ghost after_desc = out@;
        assert(request.description is None ==> after_desc =~= after_sep + Seq::<char>::empty());
        push_str(&mut out, request.prompt.as_str());
        let ghost after_prompt = out@;
        match request.timeout_seconds {
            Some(n) => {
                let secs = u64_to_string(n);
                if self.colored_output {
                    let label = yellow("Timeout:");
                    let amount = concat2(secs.as_str(), " seconds");
                    let value = yellow(amount.as_str());
                    proof { t1 = label@; t2 = value@; }
                    push_str(&mut out, "\n\n");
                    push_str(&mut out, label.as_str());
                    push_str(&mut out, " ");
                    push_str(&mut out, value.as_str());
                    assert(out@ =~= after_prompt + ("\n\n"@ + t1 + " "@ + t2));
                } else {
                    push_str(&mut out, "\n\nTimeout: ");
                    push_str(&mut out, secs.as_str());
                    push_str(&mut out, " seconds");
                }
            },
            None => {},
        }
        assert(request.timeout_seconds is None ==> out@ =~= after_prompt + Seq::<char>::empty());
        let r = string_of(out.as_slice());
        proof {
            if self.colored_output {
                let dpart = match request.description { Some(_) => d + "\n\n"@, None => Seq::empty() };
                let tpart = match request.timeout_seconds { Some(_) => "\n\n"@ + t1 + " "@ + t2, None => Seq::empty() };
                assert(r@ =~= h + seq!['\n'] + separator() + seq!['\n'] + dpart + request.prompt@ + tpart);
                assert(colored_prompt(*request, h, d, t1, t2, r@));
            }
        }
        r
    }
}

} // verus!
