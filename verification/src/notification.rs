//! Notifications: the message that carries events to the reporting service.

use vstd::prelude::*;
use crate::event::Event;

verus! {

/// The name of this notifier.
pub const NOTIFIER_NAME: &'static str = "Bugsnag Rust";

/// The version of this notifier.
pub const NOTIFIER_VERSION: &'static str = "0.2.1";

/// Where this notifier is published.
pub const NOTIFIER_URL: &'static str = "https://github.com/mehcode/bugsnag-rs";

/// Who sends a notification: a notifier's name, version and address.
#[derive(Debug)]
pub struct Notifier {
    pub name: &'static str,
    pub version: &'static str,
    pub url: &'static str,
}

/// A notification: the events sent under one API key by this notifier.
#[derive(Debug)]
pub struct Notification<'a> {
    pub api_key: &'a str,
    pub notifier: Notifier,
    pub events: &'a [Event<'a>],
}

impl<'a> Notification<'a> {
    /// A notification of the given events under the given API key, sent by
    /// this notifier.
    pub fn new(apikey: &'a str, events: &'a [Event]) -> (r: Notification<'a>)
        ensures
            r.api_key == apikey,
            r.events == events,
            r.notifier.name == NOTIFIER_NAME,
            r.notifier.version == NOTIFIER_VERSION,
            r.notifier.url == NOTIFIER_URL,
    {
        Notification {
            api_key: apikey,
            notifier: Notifier { name: NOTIFIER_NAME, version: NOTIFIER_VERSION, url: NOTIFIER_URL },
            events: events,
        }
    }
}

} // verus!
