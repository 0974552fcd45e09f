//! The command-line surface: which mode the arguments pick, and the help text.

use vstd::prelude::*;
use vstd::string::StringExecFns;
use crate::text::join_spec;
use crate::text::join_strings;
use crate::text::join_strings_from;
use crate::text::string_views;

verus! {

/// What the process was asked to do. The arguments here are those after the
/// program name.
pub enum CliCommand {
    /// No arguments, or a help flag first.
    Help,
    /// A chat flag first: enter the session loop.
    Chat,
    /// An image flag first with a prompt: the remaining arguments joined by
    /// spaces.
    Image(String),
    /// An image flag first and nothing after it.
    ImageMissingPrompt,
    /// Anything else: all arguments joined by spaces, as one prompt.
    Prompt(String),
}

/// A first argument that is read as a flag.
pub open spec fn is_flag(a: Seq<char>) -> bool {
    ||| a == "-h"@
    ||| a == "--help"@
    ||| a == "-c"@
    ||| a == "--chat"@
    ||| a == "-i"@
    ||| a == "--image"@
}

/// Picks the mode from the arguments after the program name: only the first
/// argument is read as a flag, and everything else is prompt text.
pub fn dispatch(args: &Vec<String>) -> (r: CliCommand)
    ensures
        ({
            let a = string_views(args@);
            match r {
                CliCommand::Help => a.len() == 0 || a[0] == "-h"@ || a[0] == "--help"@,
                CliCommand::Chat => a.len() > 0 && (a[0] == "-c"@ || a[0] == "--chat"@),
                CliCommand::ImageMissingPrompt => a.len() == 1 && (a[0] == "-i"@ || a[0]
                    == "--image"@),
                CliCommand::Image(p) => a.len() >= 2 && (a[0] == "-i"@ || a[0] == "--image"@) && p@
                    == join_spec(a.subrange(1, a.len() as int), " "@),
                CliCommand::Prompt(p) => a.len() > 0 && !is_flag(a[0]) && p@ == join_spec(a, " "@),
            }
        }),
{
    if args.len() == 0 {
        return CliCommand::Help;
    }
    let first = &args[0];
    if *first == String::from_str("-h") || *first == String::from_str("--help") {
        CliCommand::Help
    } else if *first == String::from_str("-c") || *first == String::from_str("--chat") {
        CliCommand::Chat
    } else if *first == String::from_str("-i") || *first == String::from_str("--image") {
        if args.len() < 2 {
            CliCommand::ImageMissingPrompt
        } else {
            CliCommand::Image(join_strings_from(args, 1, " "))
        }
    } else {
        CliCommand::Prompt(join_strings(args, " "))
    }
}

/// The help text, one usage line and one line per flag.
pub open spec fn help_text_spec() -> Seq<char> {
    "grok-cli v1.2.0\nUsage: grok [OPTIONS] [PROMPT]\n\t-c, --chat: Start a continuous chat session with Grok.\n\t-i, --image: Generate an image and display in browser.\n\t-h, --help: Print this help message.\n"@
}

/// The help text the help mode prints.
pub fn help_text() -> (r: String)
    ensures
        r@ == help_text_spec(),
{
    String::from_str(
        "grok-cli v1.2.0\nUsage: grok [OPTIONS] [PROMPT]\n\t-c, --chat: Start a continuous chat session with Grok.\n\t-i, --image: Generate an image and display in browser.\n\t-h, --help: Print this help message.\n",
    )
}

} // verus!
