//! The application an event comes from.

use vstd::prelude::*;
use crate::text::{opt_str_view, opt_view};
use crate::user::owned_opt;

verus! {

/// The application an event comes from: its version, its release stage
/// (such as "production") and its type.
#[derive(Debug)]
pub struct AppInfo {
    pub version: Option<String>,
    pub release_stage: Option<String>,
    pub atype: Option<String>,
}

/// The value of an [`AppInfo`], with its texts as character sequences.
pub struct AppInfoView {
    pub version: Option<Seq<char>>,
    pub release_stage: Option<Seq<char>>,
    pub atype: Option<Seq<char>>,
}

impl View for AppInfo {
    type V = AppInfoView;

    open spec fn view(&self) -> AppInfoView {
        AppInfoView {
            version: opt_view(self.version),
            release_stage: opt_view(self.release_stage),
            atype: opt_view(self.atype),
        }
    }
}

impl AppInfo {
    /// Application information with the given version, release stage and
    /// type; an absent one stays absent.
    pub fn new(version: Option<&str>, release_stage: Option<&str>, atype: Option<&str>) -> (r:
        AppInfo)
        ensures
            r@ == (AppInfoView {
                version: opt_str_view(version),
                release_stage: opt_str_view(release_stage),
                atype: opt_str_view(atype),
            }),
    {
        AppInfo {
            version: owned_opt(version),
            release_stage: owned_opt(release_stage),
            atype: owned_opt(atype),
        }
    }
}

} // verus!
