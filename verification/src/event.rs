//! Events: one occurrence of one or more exceptions on a device.

use vstd::prelude::*;
use crate::appinfo::AppInfo;
use crate::deviceinfo::DeviceInfo;
use crate::exception::Exception;
use crate::severity::Severity;
use crate::user::User;

verus! {

/// The version of the payload format that events follow.
pub const PAYLOAD_VERSION: u32 = 5;

/// One occurrence of one or more exceptions on a device, with what is known
/// of its severity, context, grouping, application, user and handling.
#[derive(Debug)]
pub struct Event<'a> {
    pub payload_version: u32,
    pub exceptions: &'a [Exception<'a>],
    pub severity: Option<&'a Severity>,
    pub context: Option<&'a str>,
    pub device: &'a DeviceInfo,
    pub app: &'a Option<AppInfo>,
    pub group_hash: Option<&'a str>,
    pub user: &'a Option<User>,
    pub unhandled: &'a Option<bool>,
}

impl<'a> Event<'a> {
    /// An event of the current payload version holding exactly the given
    /// parts.
    pub fn new(
        exceptions: &'a [Exception],
        severity: Option<&'a Severity>,
        context: Option<&'a str>,
        group_hash: Option<&'a str>,
        device: &'a DeviceInfo,
        app: &'a Option<AppInfo>,
        user: &'a Option<User>,
        unhandled: &'a Option<bool>,
    ) -> (r: Event<'a>)
        ensures
            r.payload_version == PAYLOAD_VERSION,
            r.exceptions == exceptions,
            r.severity == severity,
            r.context == context,
            r.group_hash == group_hash,
            r.device == device,
            r.app == app,
            r.user == user,
            r.unhandled == unhandled,
    {
        Event {
            payload_version: PAYLOAD_VERSION,
            exceptions,
            severity,
            context,
            device,
            app,
            group_hash,
            user,
            unhandled,
        }
    }
}

} // verus!
