//! The command line: `<program> setup <device>` and `<program> unlock <device>`.

use vstd::prelude::*;
use vstd::string::StringExecFns;

verus! {

/// What the command line asks for.
#[derive(Clone, Debug, PartialEq, Eq)]
pub enum Command {
    /// Format the container at this path and seal a new secret.
    Setup(String),
    /// Unseal the secret and activate the container at this path.
    Unlock(String),
}

/// A command as a value.
pub enum CommandView {
    Setup(Seq<char>),
    Unlock(Seq<char>),
}

impl View for Command {
    type V = CommandView;

    open spec fn view(&self) -> CommandView {
        match self {
            Command::Setup(device) => CommandView::Setup(device@),
            Command::Unlock(device) => CommandView::Unlock(device@),
        }
    }
}

/// Why a command line was turned down.
#[derive(Clone, Debug, PartialEq, Eq)]
pub enum UsageError {
    /// The program was not called with exactly two arguments.
    ArgumentCount,
    /// The first argument is neither `setup` nor `unlock`.
    UnknownAction(String),
}

/// A usage error as a value.
pub enum UsageErrorView {
    ArgumentCount,
    UnknownAction(Seq<char>),
}

impl View for UsageError {
    type V = UsageErrorView;

    open spec fn view(&self) -> UsageErrorView {
        match self {
            UsageError::ArgumentCount => UsageErrorView::ArgumentCount,
            UsageError::UnknownAction(action) => UsageErrorView::UnknownAction(action@),
        }
    }
}

/// The command that the words of a command line stand for, the name of the
/// program being the first word.
pub open spec fn parsed(args: Seq<Seq<char>>) -> Result<CommandView, UsageErrorView> {
    if args.len() != 3 {
        Err(UsageErrorView::ArgumentCount)
    } else if args[1] == "setup"@ {
        Ok(CommandView::Setup(args[2]))
    } else if args[1] == "unlock"@ {
        Ok(CommandView::Unlock(args[2]))
    } else {
        Err(UsageErrorView::UnknownAction(args[1]))
    }
}

/// The words of a command line as values.
pub open spec fn words(args: Seq<String>) -> Seq<Seq<char>> {
    Seq::new(args.len(), |i: int| args[i]@)
}

/// Reads a command line. Exactly two arguments are taken, the first of them
/// `setup` or `unlock`, the second the path of the container.
pub fn parse_command(args: &Vec<String>) -> (r: Result<Command, UsageError>)
    ensures
        match r {
            Ok(command) => parsed(words(args@)) == Ok::<CommandView, UsageErrorView>(command@),
            Err(e) => parsed(words(args@)) == Err::<CommandView, UsageErrorView>(e@),
        },
{
    if args.len() != 3 {
        return Err(UsageError::ArgumentCount);
    }
    let setup_word = "setup".to_owned();
    let unlock_word = "unlock".to_owned();
    if args[1] == setup_word {
        Ok(Command::Setup(args[2].clone()))
    } else if args[1] == unlock_word {
        Ok(Command::Unlock(args[2].clone()))
    } else {
        Err(UsageError::UnknownAction(args[1].clone()))
    }
}

/// The usage text for a program of this name.
pub open spec fn usage_text(program: Seq<char>) -> Seq<char> {
    "Usage: "@ + program + " <setup|unlock> <device>\n"@ + "\n"@
        + "  setup   Format the LUKS image and seal a new secret into the TPM\n"@
        + "  unlock  Unseal the secret from the TPM and open the LUKS device\n"@
}

/// Builds the usage text.
pub fn usage(program: &str) -> (text: String)
    ensures
        text@ == usage_text(program@),
{
    let mut text = "Usage: ".to_owned();
    text.append(program);
    text.append(" <setup|unlock> <device>\n");
    text.append("\n");
    text.append("  setup   Format the LUKS image and seal a new secret into the TPM\n");
    text.append("  unlock  Unseal the secret from the TPM and open the LUKS device\n");
    text
}

/// The complaint about an unknown first argument.
pub open spec fn unknown_action_text(action: Seq<char>) -> Seq<char> {
    "[!] Unknown action: '"@ + action + "'"@
}

impl UsageError {
    /// What to tell the user before the usage text, if anything.
    pub fn complaint(&self) -> (text: Option<String>)
        ensures
            match self@ {
                UsageErrorView::ArgumentCount => text is None,
                UsageErrorView::UnknownAction(action) => text matches Some(t) && t@
                    == unknown_action_text(action),
            },
    {
        match self {
            UsageError::ArgumentCount => None,
            UsageError::UnknownAction(action) => {
                let mut text = "[!] Unknown action: '".to_owned();
                text.append(action.as_str());
                text.append("'");
                Some(text)
            },
        }
    }
}

/// The exit status of a run that was turned down or that failed.
pub const EXIT_FAILURE: i32 = 1;

} // verus!
