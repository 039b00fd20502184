use vstd::prelude::*;
use crate::error::RytError;
use crate::ui::MainAction;
use crate::utils::{is_valid_url, url_host, host_supported};

verus! {

/// The subcommands of the command line.
#[derive(Debug, Clone)]
pub enum Command {
    Download(Option<String>),
    Config,
    History,
}

/// What a run does once the command line is read.
#[derive(Debug, Clone)]
pub enum Plan {
    /// The tool is missing: explain how to install it, and exit cleanly.
    Guidance,
    /// Download one URL, asking for it when none was given.
    Download(Option<String>),
    Config,
    History,
    /// Offer the main menu until the user leaves.
    Interactive,
}

/// What a run does, given whether the tool was found, the subcommand and the
/// URL given as an option.
pub open spec fn planned(tool_found: bool, command: Option<Command>, url: Option<String>) -> Plan {
    if !tool_found {
        Plan::Guidance
    } else {
        match command {
            Some(Command::Download(u)) => Plan::Download(
                match u {
                    Some(x) => Some(x),
                    None => url,
                },
            ),
            Some(Command::Config) => Plan::Config,
            Some(Command::History) => Plan::History,
            None => match url {
                Some(x) => Plan::Download(Some(x)),
                None => Plan::Interactive,
            },
        }
    }
}

/// Decides what a run does. The availability check comes first: when it
/// failed, nothing else is attempted.
pub fn plan_run(tool_check: &Result<(), RytError>, command: Option<Command>, url: Option<String>) -> (r: Plan)
    ensures
        r == planned(tool_check is Ok, command, url),
        tool_check is Err ==> r == Plan::Guidance,
{
    if tool_check.is_err() {
        return Plan::Guidance;
    }
    match command {
        Some(Command::Download(u)) => Plan::Download(
            match u {
                Some(x) => Some(x),
                None => url,
            },
        ),
        Some(Command::Config) => Plan::Config,
        Some(Command::History) => Plan::History,
        None => match url {
            Some(x) => Plan::Download(Some(x)),
            None => Plan::Interactive,
        },
    }
}

/// Accepts a URL of a supported site; any other is an invalid URL.
pub fn check_url(url: &str) -> (r: Result<(), RytError>)
    ensures
        r is Ok <==> (match url_host(url@) {
            Some(h) => host_supported(h),
            None => false,
        }),
        r is Err ==> r == Err::<(), RytError>(RytError::InvalidUrl),
{
    if is_valid_url(url) {
        Ok(())
    } else {
        Err(RytError::InvalidUrl)
    }
}

/// What the interactive loop does after an action of the main menu.
#[derive(Debug, Clone, Copy, PartialEq, Eq, Structural)]
pub enum Step {
    /// Show the main menu again at once.
    ShowMenu,
    /// Ask whether the user wants to go on.
    AskToContinue,
    /// Leave the loop.
    Leave,
}

/// After leaving, the loop ends; after a failed download, the menu comes back
/// at once; after anything else, the user is asked whether to go on.
pub fn next_step(action: MainAction, download_failed: bool) -> (r: Step)
    ensures
        r == (if action == MainAction::Exit {
            Step::Leave
        } else if action == MainAction::Download && download_failed {
            Step::ShowMenu
        } else {
            Step::AskToContinue
        }),
{
    match action {
        MainAction::Exit => Step::Leave,
        MainAction::Download => if download_failed {
            Step::ShowMenu
        } else {
            Step::AskToContinue
        },
        _ => Step::AskToContinue,
    }
}
} // verus!
