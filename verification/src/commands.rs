//! The extension's two fixed help commands and the launch command built
//! from a resolved binary path.

use crate::errors::{ErrorModel, ExtensionError};
use vstd::prelude::*;
use vstd::string::StringExecFns;

verus! {

/// The help text for the restart command.
pub open spec fn restart_text() -> Seq<char> {
    "To restart the Shopware Language Server, reload Zed or disable and re-enable the Shopware LSP extension."@
}

/// The help text for the reindex command.
pub open spec fn reindex_text() -> Seq<char> {
    "Zed does not yet support LSP workspace/executeCommand. To force reindex, reload the Shopware LSP extension or restart Zed. The server will reindex automatically when you open files."@
}

/// What a help command returns: its fixed text for the two known names,
/// and an unknown-command error naming any other.
pub open spec fn help_response(name: Seq<char>) -> Result<Seq<char>, ErrorModel> {
    if name == "shopware-restart"@ {
        Ok(restart_text())
    } else if name == "shopware-reindex"@ {
        Ok(reindex_text())
    } else {
        Err(ErrorModel::UnknownCommand { name })
    }
}

/// Neither help command answers with an empty text.
pub proof fn lemma_help_texts_nonempty()
    ensures
        restart_text().len() > 0,
        reindex_text().len() > 0,
{
    reveal_strlit(
        "To restart the Shopware Language Server, reload Zed or disable and re-enable the Shopware LSP extension.",
    );
    reveal_strlit(
        "Zed does not yet support LSP workspace/executeCommand. To force reindex, reload the Shopware LSP extension or restart Zed. The server will reindex automatically when you open files.",
    );
}

/// Answers one of the two fixed help commands, or reports the name as
/// unknown.
pub fn run_help_command(name: &str) -> (r: Result<String, ExtensionError>)
    ensures
        match r {
            Ok(text) => help_response(name@) == Ok::<Seq<char>, ErrorModel>(text@),
            Err(e) => help_response(name@) == Err::<Seq<char>, ErrorModel>(e@),
        },
{
    if name.to_owned() == String::from_str("shopware-restart") {
        Ok(
            String::from_str(
                "To restart the Shopware Language Server, reload Zed or disable and re-enable the Shopware LSP extension.",
            ),
        )
    } else if name.to_owned() == String::from_str("shopware-reindex") {
        Ok(
            String::from_str(
                "Zed does not yet support LSP workspace/executeCommand. To force reindex, reload the Shopware LSP extension or restart Zed. The server will reindex automatically when you open files.",
            ),
        )
    } else {
        Err(ExtensionError::UnknownCommand { name: String::from_str(name) })
    }
}

/// What launches the language server: the resolved binary, no arguments,
/// no extra environment.
#[derive(Debug)]
pub struct LaunchCommand {
    pub command: String,
    pub args: Vec<String>,
    pub env: Vec<(String, String)>,
}

/// Turns the outcome of a resolution into the outcome of a launch: a
/// resolved path becomes a launch command with empty arguments and
/// environment, and a resolution error propagates unchanged.
pub fn build_launch_command(resolved: Result<String, ExtensionError>) -> (r: Result<
    LaunchCommand,
    ExtensionError,
>)
    ensures
        match resolved {
            Ok(path) => r matches Ok(c) && c.command@ == path@ && c.args@.len() == 0
                && c.env@.len() == 0,
            Err(e) => r matches Err(e2) && e2@ == e@,
        },
{
    match resolved {
        Ok(path) => Ok(LaunchCommand { command: path, args: Vec::new(), env: Vec::new() }),
        Err(e) => Err(e),
    }
}

} // verus!
