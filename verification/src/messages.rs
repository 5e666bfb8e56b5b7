//! Event names and user-facing texts shared by the commands.

use vstd::prelude::*;

verus! {

/// Event that tells the front end to ask for a new system file.
pub const LOAD_NEW_SYSTEM: &'static str = "load_new_system";

/// Event that carries a validated configuration to the front end.
pub const LOAD_CONFIGURATION: &'static str = "load_config";

/// Event that asks the front end to hand over its configuration for storing.
pub const EXPORT_CONFIGURATION: &'static str = "export_config";

/// Menu entry that exports the loaded system as text.
pub const EXPORT_XML: &'static str = "export_xml";

/// Menu entry and window label of the licences page.
pub const LICENSES: &'static str = "licenses";

pub const LICENSES_TITLE: &'static str = "Licenses";

pub const LICENSES_PATH: &'static str = "/licenses.html";

/// Menu entry of the user manual.
pub const MANUAL: &'static str = "manual";

pub const MANUAL_TITLE: &'static str = "User manual";

pub const MANUAL_PATH: &'static str = "/manual/index.html";

/// Event under which a success text reaches the front end.
pub const OK_EVENT: &'static str = "ok_message";

/// Event under which a failure text reaches the front end.
pub const ERROR_EVENT: &'static str = "error_message";

/// Text of every failure that has no more specific wording.
pub const GENERIC_ERROR: &'static str = "Something went wrong, please try again.";

/// Text of a request/response command that needs a system and finds none.
pub const LOAD_BEFORE_RENDER: &'static str = "Load a system before generating a render.";

/// Text of a menu-triggered command that needs a system or diagram and finds none.
pub const LOAD_FIRST: &'static str = "You must load a system first.";

pub const RENDER_BUSY: &'static str = "Could not update render, please try again.";

pub const PARSE_SUCCESS: &'static str = "Successfully parsed file";

pub const SVG_SUCCESS: &'static str = "Successfully generated SVG";

pub const ATTRIBUTES_SUCCESS: &'static str = "Ok";

pub const BASE_CONFIGURATION_SUCCESS: &'static str =
    "Successfully retrieved based configurable attributes.";

pub const INFO_SUCCESS: &'static str = "Successfully retrieved attributes";

pub const XML_SUCCESS: &'static str = "Successfully exported XML.";

pub const XML_WRITE_FAILED: &'static str = "Could not write XML to disk: ";

pub const CONFIGURATION_STORED: &'static str = "Successfully exported configuration.";

pub const CONFIGURATION_STORE_FAILED: &'static str = "Could not store configuration: ";

pub const CONFIGURATION_REJECTED: &'static str = "Could not process provided configuration: ";

pub const CONFIGURATION_UNREADABLE: &'static str = "Could not open configuration file: ";

pub const INVALID_SCALE: &'static str =
    "Please provide a valid scale value. Could not compute image size.";

/// Text that turns down a configuration, up to the name of the first
/// attribute that the system does not expose.
pub const UNKNOWN_ATTRIBUTE: &'static str =
    "The configuration names an attribute the system does not expose: ";

/// `prefix` followed by `detail`, the shape of every text that reports an
/// underlying failure.
pub fn with_detail(prefix: &str, detail: &str) -> (text: String)
    ensures
        text@ == prefix@ + detail@,
{
    let mut text = prefix.to_owned();
    text.append(detail);
    text
}

} // verus!
