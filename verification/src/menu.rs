//! What each entry of the application menu sets off.

use vstd::prelude::*;
use crate::messages::{
    EXPORT_CONFIGURATION,
    EXPORT_XML,
    LICENSES,
    LICENSES_PATH,
    LICENSES_TITLE,
    LOAD_CONFIGURATION,
    LOAD_NEW_SYSTEM,
    MANUAL,
    MANUAL_PATH,
    MANUAL_TITLE,
};

verus! {

/// The operation a menu entry stands for.
#[derive(Debug, Clone, Copy, PartialEq, Eq, Structural)]
pub enum MenuCommand {
    /// Tell the front end to ask for a new system file.
    LoadNewSystem,
    /// Load a configuration from a file.
    LoadConfiguration,
    /// Export the stored system as text.
    ExportXml,
    /// Export the configuration of the front end.
    ExportConfiguration,
    /// Show the licences.
    Licenses,
    /// Show the user manual.
    Manual,
    /// An entry that sets off nothing here.
    Unhandled,
}

/// The operation that the entry called `event_id` stands for.
pub open spec fn command_of(event_id: Seq<char>) -> MenuCommand {
    if event_id == LOAD_NEW_SYSTEM@ {
        MenuCommand::LoadNewSystem
    } else if event_id == LOAD_CONFIGURATION@ {
        MenuCommand::LoadConfiguration
    } else if event_id == EXPORT_XML@ {
        MenuCommand::ExportXml
    } else if event_id == EXPORT_CONFIGURATION@ {
        MenuCommand::ExportConfiguration
    } else if event_id == LICENSES@ {
        MenuCommand::Licenses
    } else if event_id == MANUAL@ {
        MenuCommand::Manual
    } else {
        MenuCommand::Unhandled
    }
}

/// Whether `event_id` is the entry called `name`.
fn names_entry(event_id: &String, name: &str) -> (same: bool)
    ensures
        same == (event_id@ == name@),
{
    let entry = name.to_owned();
    *event_id == entry
}

/// Tells which operation the selected menu entry sets off.
pub fn menu_command(event_id: &str) -> (command: MenuCommand)
    ensures
        command == command_of(event_id@),
{
    let selected = event_id.to_owned();
    if names_entry(&selected, LOAD_NEW_SYSTEM) {
        MenuCommand::LoadNewSystem
    } else if names_entry(&selected, LOAD_CONFIGURATION) {
        MenuCommand::LoadConfiguration
    } else if names_entry(&selected, EXPORT_XML) {
        MenuCommand::ExportXml
    } else if names_entry(&selected, EXPORT_CONFIGURATION) {
        MenuCommand::ExportConfiguration
    } else if names_entry(&selected, LICENSES) {
        MenuCommand::Licenses
    } else if names_entry(&selected, MANUAL) {
        MenuCommand::Manual
    } else {
        MenuCommand::Unhandled
    }
}

/// A page to show in a window of its own.
#[derive(Debug)]
pub struct Page {
    pub path: &'static str,
    pub title: &'static str,
}

/// The page that `command` opens, if it opens one.
pub fn page_of(command: MenuCommand) -> (page: Option<Page>)
    ensures
        match command {
            MenuCommand::Licenses => page matches Some(page) && page.path@ == LICENSES_PATH@
                && page.title@ == LICENSES_TITLE@,
            MenuCommand::Manual => page matches Some(page) && page.path@ == MANUAL_PATH@
                && page.title@ == MANUAL_TITLE@,
            _ => page is None,
        },
{
    match command {
        MenuCommand::Licenses => Some(Page { path: LICENSES_PATH, title: LICENSES_TITLE }),
        MenuCommand::Manual => Some(Page { path: MANUAL_PATH, title: MANUAL_TITLE }),
        _ => None,
    }
}

} // verus!
