//! What the command line asks for: create, read or delete a snippet by name,
//! or list all snippets.

use vstd::prelude::*;

verus! {

/// The action that the options of one run select.
#[derive(Debug)]
pub enum Command {
    /// Save a snippet under `name`, its code taken from `download` when that
    /// names a URL and from standard input otherwise.
    Create { name: String, download: Option<String> },
    /// Print the code of the snippet with this name.
    Read(String),
    /// Delete the snippets with this name.
    Delete(String),
    /// Print the list of all snippets.
    List,
}

/// Options that cannot go together.
#[derive(Debug, Clone, Copy, PartialEq, Eq, Structural)]
pub enum CommandError {
    /// `--download` was given without `--name`.
    DownloadWithoutName,
}

/// Selects the action from the options `--name`, `--read`, `--delete` and
/// `--download`. `--download` needs `--name`; otherwise `--name` wins over
/// `--read`, which wins over `--delete`, and with none of them all snippets
/// are listed.
pub fn command_from_options(
    name: Option<String>,
    read: Option<String>,
    delete: Option<String>,
    download: Option<String>,
) -> (r: Result<Command, CommandError>)
    ensures
        download is Some && name is None ==> r == Err::<Command, CommandError>(
            CommandError::DownloadWithoutName,
        ),
        !(download is Some && name is None) ==> match r {
            Ok(Command::Create { name: n, download: d }) => name == Some(n) && d == download,
            Ok(Command::Read(n)) => name is None && read == Some(n),
            Ok(Command::Delete(n)) => name is None && read is None && delete == Some(n),
            Ok(Command::List) => name is None && read is None && delete is None,
            Err(_) => false,
        },
{
    if download.is_some() && name.is_none() {
        return Err(CommandError::DownloadWithoutName);
    }
    match name {
        Some(n) => Ok(Command::Create { name: n, download }),
        None => match read {
            Some(n) => Ok(Command::Read(n)),
            None => match delete {
                Some(n) => Ok(Command::Delete(n)),
                None => Ok(Command::List),
            },
        },
    }
}

} // verus!
