//! Callback dispatch on desktop targets.
use vstd::prelude::*;
use crate::dispatch::{DelayedEmission, callback_urls, RuntimeAction, runtime_action, runtime_record, schedule_startup, startup_records};

verus! {

/// How long a record found at launch waits before it is emitted.
pub const STARTUP_DELAY_MS: u64 = 500;

/// The emissions for the URLs the application was launched with: one per
/// callback URL, in their order, each after the desktop launch delay.
pub fn handle_startup_urls(urls: &Vec<String>) -> (r: Vec<DelayedEmission>)
    ensures
        r@.len() == callback_urls(urls.deep_view()).len(),
        r@.len() == startup_records(urls.deep_view()).len(),
        forall|i: int| 0 <= i < r@.len() ==> {
            &&& (#[trigger] r@[i]).delay_ms == STARTUP_DELAY_MS
            &&& r@[i].payload@ == startup_records(urls.deep_view())[i]
        },
{
    schedule_startup(urls, STARTUP_DELAY_MS)
}

/// The action for a URL handed to the running application: a callback URL
/// is emitted at once and the main window is brought forward; any other URL
/// is ignored.
pub fn handle_runtime_url(url: &str) -> (r: Option<RuntimeAction>)
    ensures
        r is Some <==> runtime_record(url@) is Some,
        r is Some ==> r->0.payload@ == runtime_record(url@)->0 && r->0.focus_window,
{
    runtime_action(url, true)
}

} // verus!
