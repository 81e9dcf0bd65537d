//! Callback dispatch on mobile targets, where the last record is also kept
//! for a frontend that missed the event.
use vstd::prelude::*;
use crate::dispatch::{DelayedEmission, callback_urls, RuntimeAction, runtime_action, runtime_record, schedule_startup, startup_records};
use crate::record::{CallbackRecord, RecordView};

verus! {

/// How long a record found at launch waits before it is emitted.
pub const STARTUP_DELAY_MS: u64 = 200;

/// A single slot holding the most recent callback record.
pub struct CallbackCache {
    slot: Option<CallbackRecord>,
}

impl View for CallbackCache {
    type V = Option<RecordView>;

    closed spec fn view(&self) -> Option<RecordView> {
        match self.slot {
            Some(rec) => Some(rec@),
            None => None,
        }
    }
}

impl CallbackCache {
    /// An empty slot.
    pub fn new() -> (r: CallbackCache)
        ensures
            r@ is None,
    {
        CallbackCache { slot: None }
    }

    /// Puts `rec` in the slot, replacing what it held.
    pub fn store(&mut self, rec: CallbackRecord)
        ensures
            final(self)@ == Some(rec@),
    {
        self.slot = Some(rec);
    }

    /// A copy of the record in the slot, if any.
    pub fn latest(&self) -> (r: Option<CallbackRecord>)
        ensures
            r is Some <==> self@ is Some,
            r is Some ==> r->0@ == self@->0,
    {
        match &self.slot {
            Some(rec) => Some(rec.duplicate()),
            None => None,
        }
    }
}

/// The emissions for the URLs the application was launched with: one per
/// callback URL, in their order, each after the mobile launch delay. The
/// cache ends holding the record of the last callback URL, and is left as it
/// was where there is none.
pub fn handle_startup_urls(cache: &mut CallbackCache, urls: &Vec<String>) -> (r: Vec<DelayedEmission>)
    ensures
        r@.len() == callback_urls(urls.deep_view()).len(),
        r@.len() == startup_records(urls.deep_view()).len(),
        forall|i: int| 0 <= i < r@.len() ==> {
            &&& (#[trigger] r@[i]).delay_ms == STARTUP_DELAY_MS
            &&& r@[i].payload@ == startup_records(urls.deep_view())[i]
        },
        final(cache)@ == if r@.len() == 0 {
            old(cache)@
        } else {
            Some(startup_records(urls.deep_view()).last())
        },
{
    let r = schedule_startup(urls, STARTUP_DELAY_MS);
    let n = r.len();
    if n > 0 {
        cache.store(r[n - 1].payload.duplicate());
    }
    r
}

/// The action for a URL handed to the running application: the record of a
/// callback URL is stored in the cache and emitted at once, and the main
/// window is brought forward; any other URL is ignored and the cache is left
/// as it was.
pub fn handle_runtime_url(cache: &mut CallbackCache, url: &str) -> (r: Option<RuntimeAction>)
    ensures
        r is Some <==> runtime_record(url@) is Some,
        r is Some ==> r->0.payload@ == runtime_record(url@)->0 && r->0.focus_window,
        final(cache)@ == match runtime_record(url@) {
            Some(rec) => Some(rec),
            None => old(cache)@,
        },
{
    let r = runtime_action(url, true);
    match &r {
        Some(action) => cache.store(action.payload.duplicate()),
        None => {},
    }
    r
}

} // verus!
