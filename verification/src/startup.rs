//! What happens once at startup: where the configuration document is looked
//! for, and what the application starts with when loading it failed.

use crate::config::{default_document, generate_default_user_config, UserConfigFS};
use crate::loading::{Loaded, UserConfigError, UserConfigErrorView};
use crate::notification::{Level, NotificationEvent, NotificationView};
use crate::platform::Platform;
use crate::text::joined;
use vstd::prelude::*;

verus! {

/// Where the configuration document is, and whether a fresh one is to be
/// written there if none is found.
#[derive(Debug)]
pub struct ConfigLocation {
    pub path: String,
    pub save_default_config: bool,
}

/// The path of the configuration document below the home directory `home`.
pub open spec fn home_config_path(home: Seq<char>, platform: Platform) -> Seq<char> {
    home + platform.separator_text() + ".alphacentauri.config.json"@
}

/// Decides where the configuration document is looked for.
///
/// A path given on the command line is used as it is, and nothing is
/// written there when the file is missing: whoever names the file answers
/// for it. Without one the document lies in the home directory, and a fresh
/// one is written on the first run.
pub fn config_location(flag: Option<String>, home: &str, platform: Platform) -> (location:
    ConfigLocation)
    ensures
        match flag {
            Some(path) => location.path@ == path@ && !location.save_default_config,
            None => location.path@ == home_config_path(home@, platform)
                && location.save_default_config,
        },
{
    match flag {
        Some(path) => ConfigLocation { path, save_default_config: false },
        None => {
            let head = match platform {
                Platform::Windows => joined(home, "\\"),
                _ => joined(home, "/"),
            };
            let path = joined(head.as_str(), ".alphacentauri.config.json");
            ConfigLocation { path, save_default_config: true }
        },
    }
}

/// The notification that tells the user at startup that loading or saving
/// the configuration failed with `error`: a warning, with the error's
/// two-part message as its details.
pub open spec fn startup_warning(error: UserConfigErrorView) -> NotificationView {
    NotificationView {
        level: Level::Warn.spec_code(),
        message: "There was an error getting your configuration settings."@,
        details: error.message(),
    }
}

/// What the application starts with, and what it has to tell the user.
///
/// A configuration that was loaded is used, with one warning if the write
/// that was to save it failed. Where loading failed, the fresh
/// configuration stands in, with one warning. A configuration that cannot
/// be loaded or saved never keeps the application from starting.
pub fn startup_state(loaded: Result<Loaded, UserConfigError>) -> (state: (
    UserConfigFS,
    Vec<NotificationEvent>,
))
    ensures
        match loaded {
            Ok(found) => state.0 == found.config && match found.write_failure {
                None => state.1@.len() == 0,
                Some(error) => state.1@.len() == 1 && state.1@[0]@ == startup_warning(error@),
            },
            Err(error) => state.0@ == default_document() && state.1@.len() == 1 && state.1@[0]@
                == startup_warning(error@),
        },
{
    let mut notifications: Vec<NotificationEvent> = Vec::new();
    match loaded {
        Ok(found) => {
            match found.write_failure {
                None => {},
                Some(error) => {
                    notifications.push(warning(&error));
                },
            }
            (found.config, notifications)
        },
        Err(error) => {
            notifications.push(warning(&error));
            (generate_default_user_config(), notifications)
        },
    }
}

/// The warning that tells the user at startup of `error`.
fn warning(error: &UserConfigError) -> (event: NotificationEvent)
    ensures
        event@ == startup_warning(error@),
{
    NotificationEvent::new(
        Level::Warn,
        "There was an error getting your configuration settings.".to_owned(),
        error.to_string(),
    )
}

} // verus!
