//! The one piece of configuration the library itself fixes: where the
//! template catalog resource lives. Everything environment-dependent is
//! read outside the library.

use vstd::prelude::*;

verus! {

use vstd::string::StringExecFns;

/// The pipeline's fixed configuration.
#[derive(Debug)]
pub struct Config {}

impl Config {
    /// The path of the notification template resource.
    pub fn get_notification_resources_path() -> (r: String)
        ensures
            r@ == "../resources/notifications.yml"@,
    {
        String::from_str("../resources/notifications.yml")
    }
}

} // verus!
