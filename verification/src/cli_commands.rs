//! The command line: the tool's name, its commands, and the check of both.
use crate::cli_errors::{wrong_cli_command_text, wrong_cli_name_text, CliErrors};
use crate::text::str_eq;
use vstd::prelude::*;

verus! {

/// The name the command line must start with.
#[derive(Debug, Clone, Copy, PartialEq, Eq)]
pub enum CliName {
    DockYard,
}

/// The commands the tool understands.
#[derive(Debug, Clone, Copy, PartialEq, Eq)]
pub enum CliCommands {
    Up,
    Down,
    Logs,
    ContainerStatus,
    Stop,
}

/// The arguments the tool is started with: its name, a command and the
/// command's argument (a compose file path, a network or a container).
pub struct CLI {
    pub cli_name: String,
    pub cli_command: String,
    pub argument: String,
}

/// The text of a tool name.
pub open spec fn cli_name_text(name: CliName) -> Seq<char> {
    match name {
        CliName::DockYard => "DockYard"@,
    }
}

/// The text of a command, which is also the word that selects it.
pub open spec fn cli_command_text(command: CliCommands) -> Seq<char> {
    match command {
        CliCommands::Up => "Up"@,
        CliCommands::Down => "Down"@,
        CliCommands::Logs => "Logs"@,
        CliCommands::ContainerStatus => "ContainerStatus"@,
        CliCommands::Stop => "Stop"@,
    }
}

/// The command a word selects, if any: the command whose text is the word.
pub open spec fn spec_command_of(word: Seq<char>) -> Option<CliCommands> {
    if word == "Up"@ {
        Some(CliCommands::Up)
    } else if word == "Down"@ {
        Some(CliCommands::Down)
    } else if word == "Logs"@ {
        Some(CliCommands::Logs)
    } else if word == "ContainerStatus"@ {
        Some(CliCommands::ContainerStatus)
    } else if word == "Stop"@ {
        Some(CliCommands::Stop)
    } else {
        None
    }
}

/// What checking a command line gives: the name must be `DockYard`, then the
/// command word must name a command.
pub open spec fn spec_validate_command(cli_name: Seq<char>, cli_command: Seq<char>) -> Result<
    CliCommands,
    Seq<char>,
> {
    if cli_name != cli_name_text(CliName::DockYard) {
        Err(wrong_cli_name_text())
    } else {
        match spec_command_of(cli_command) {
            Some(c) => Ok(c),
            None => Err(wrong_cli_command_text()),
        }
    }
}

impl CliName {
    /// The tool name as text.
    pub fn to_string(&self) -> (res: String)
        ensures
            res@ == cli_name_text(*self),
    {
        match self {
            CliName::DockYard => String::from_str("DockYard"),
        }
    }
}

impl CliCommands {
    /// The command as text.
    pub fn to_string(&self) -> (res: String)
        ensures
            res@ == cli_command_text(*self),
    {
        match self {
            CliCommands::Up => String::from_str("Up"),
            CliCommands::Down => String::from_str("Down"),
            CliCommands::Logs => String::from_str("Logs"),
            CliCommands::ContainerStatus => String::from_str("ContainerStatus"),
            CliCommands::Stop => String::from_str("Stop"),
        }
    }

    /// The command a word names; `Err(())` for any other word.
    pub fn from_str(input: &str) -> (res: Result<CliCommands, ()>)
        ensures
            match spec_command_of(input@) {
                Some(c) => res == Ok::<CliCommands, ()>(c),
                None => res is Err,
            },
    {
        if str_eq(input, "Up") {
            Ok(CliCommands::Up)
        } else if str_eq(input, "Down") {
            Ok(CliCommands::Down)
        } else if str_eq(input, "Logs") {
            Ok(CliCommands::Logs)
        } else if str_eq(input, "ContainerStatus") {
            Ok(CliCommands::ContainerStatus)
        } else if str_eq(input, "Stop") {
            Ok(CliCommands::Stop)
        } else {
            Err(())
        }
    }
}

/// Checks the tool name and the command word, and gives the command to run.
/// What the command then does with its argument is up to the caller.
pub fn validate_command(cli_name: &str, cli_command: &str) -> (res: Result<CliCommands, CliErrors>)
    ensures
        match spec_validate_command(cli_name@, cli_command@) {
            Ok(c) => res == Ok::<CliCommands, CliErrors>(c),
            Err(m) => res is Err && res->Err_0.message@ == m,
        },
{
    let expected = CliName::DockYard.to_string();
    if cli_name.to_owned() != expected {
        return Err(CliErrors::wrong_cli_name());
    }
    match CliCommands::from_str(cli_command) {
        Ok(c) => Ok(c),
        Err(_) => Err(CliErrors::wrong_cli_command()),
    }
}

/// Every command's text selects that command again.
pub proof fn lemma_command_text_round_trip(command: CliCommands)
    ensures
        spec_command_of(cli_command_text(command)) == Some(command),
{
    reveal_strlit("Up");
    reveal_strlit("Down");
    reveal_strlit("Logs");
    reveal_strlit("ContainerStatus");
    reveal_strlit("Stop");
    assert("Up"@.len() == 2 && "Down"@.len() == 4 && "Logs"@.len() == 4 && "Stop"@.len() == 4);
    assert("Down"@[0] != "Logs"@[0] && "Down"@[0] != "Stop"@[0] && "Logs"@[0] != "Stop"@[0]);
    assert("Down"@ != "Up"@ && "Logs"@ != "Up"@ && "Stop"@ != "Up"@);
    assert("Logs"@ != "Down"@ && "Stop"@ != "Down"@ && "Stop"@ != "Logs"@);
    assert("ContainerStatus"@.len() == 15);
}

/// The command line is checked name first: any name other than `DockYard` is
/// refused whatever the command; with that name, each command's own word
/// selects exactly that command, and a word that is no command's is refused.
pub proof fn law_command_check(name: Seq<char>, word: Seq<char>, command: CliCommands)
    ensures
        name != "DockYard"@ ==> spec_validate_command(name, word) == Err::<CliCommands, Seq<char>>(
            wrong_cli_name_text(),
        ),
        spec_validate_command("DockYard"@, cli_command_text(command)) == Ok::<CliCommands, Seq<char>>(
            command,
        ),
        spec_validate_command("DockYard"@, word) matches Ok(c) ==> cli_command_text(c) == word,
        (forall|c: CliCommands| cli_command_text(c) != word) ==> spec_validate_command(
            "DockYard"@,
            word,
        ) == Err::<CliCommands, Seq<char>>(wrong_cli_command_text()),
{
    lemma_command_text_round_trip(command);
    if spec_command_of(word) is Some {
        assert(cli_command_text(spec_command_of(word)->Some_0) == word);
    }
}

} // verus!
