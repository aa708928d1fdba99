use crate::tokens::{lemma_tokens_solid, tokenize, tokens};
use crate::whitespace::solid;
use vstd::prelude::*;

verus! {

/// What a line asks for: the command's name and its arguments.
pub struct ParsedCommand {
    /// The first word of the line; empty where the line has no word.
    pub command: Seq<char>,
    /// The words after the first, in the order of the line.
    pub arguments: Seq<Seq<char>>,
}

impl ParsedCommand {
    /// What holds of every parsed line: no word holds whitespace, no
    /// argument is empty, and only a line without a command has the empty
    /// command, which then has no arguments either.
    pub open spec fn well_formed(self) -> bool {
        &&& solid(self.command)
        &&& self.command.len() == 0 ==> self.arguments.len() == 0
        &&& forall|i: int|
            0 <= i < self.arguments.len() ==> (#[trigger] self.arguments[i]).len() > 0 && solid(
                self.arguments[i],
            )
    }
}

/// The reading of `line` as a command followed by its arguments.
pub open spec fn parse(line: Seq<char>) -> ParsedCommand {
    let words = tokens(line);
    if words.len() == 0 {
        ParsedCommand { command: Seq::empty(), arguments: Seq::empty() }
    } else {
        ParsedCommand { command: words[0], arguments: words.skip(1) }
    }
}

/// The command is the first word of the line and the arguments are the
/// words that follow it, so both are free of whitespace.
pub proof fn lemma_parse_well_formed(line: Seq<char>)
    ensures
        parse(line).well_formed(),
{
    let words = tokens(line);
    lemma_tokens_solid(line);
    if words.len() > 0 {
        assert forall|i: int| 0 <= i < words.skip(1).len() implies (#[trigger] words.skip(
            1,
        )[i]).len() > 0 && solid(words.skip(1)[i]) by {
            assert(words.skip(1)[i] == words[i + 1]);
        }
    }
}

/// A parsed line. It is made once from the raw input and never changes.
#[derive(Debug)]
pub struct CommandLine {
    command: String,
    args: Vec<String>,
}

impl View for CommandLine {
    type V = ParsedCommand;

    closed spec fn view(&self) -> ParsedCommand {
        ParsedCommand { command: self.command@, arguments: self.args.deep_view() }
    }
}

impl CommandLine {
    #[verifier::type_invariant]
    spec fn well_formed(&self) -> bool {
        self@.well_formed()
    }

    /// Parses one raw input line. Every line parses: one without a word
    /// gives the empty command with no arguments.
    pub fn new(input: String) -> (cl: Self)
        ensures
            cl@ == parse(input@),
            cl@.well_formed(),
    {
        let mut words = tokenize(input.as_str());
        let ghost all = words.deep_view();
        proof {
            lemma_parse_well_formed(input@);
        }
        if words.len() == 0 {
            assert(words.deep_view() == Seq::<Seq<char>>::empty());
            CommandLine { command: String::new(), args: words }
        } else {
            let command = words.remove(0);
            assert(words.deep_view() == all.skip(1));
            CommandLine { command, args: words }
        }
    }

    /// The command's name; empty where the line held no word. It holds
    /// no whitespace, so there is nothing to trim.
    pub fn get_command(&self) -> (command: &str)
        ensures
            command@ == self@.command,
            self@.well_formed(),
    {
        proof {
            use_type_invariant(self);
        }
        self.command.as_str()
    }

    /// The arguments, in the order of the line.
    pub fn args(&self) -> (args: &Vec<String>)
        ensures
            args.deep_view() == self@.arguments,
            self@.well_formed(),
    {
        proof {
            use_type_invariant(self);
        }
        &self.args
    }

    /// A copy of the arguments, in the order of the line.
    pub fn get_args(&self) -> (args: Vec<String>)
        ensures
            args.deep_view() == self@.arguments,
            self@.well_formed(),
    {
        proof {
            use_type_invariant(self);
        }
        self.args.clone()
    }
}

} // verus!
