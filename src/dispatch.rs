//! What the shell does with the URLs it is handed: which records it emits
//! to the frontend, after which delay, and whether it raises the window.
use vstd::prelude::*;
use crate::record::{CallbackRecord, RecordView, parse_oauth_callback_url, parsed_record};
use crate::text::{is_callback_url, is_oauth_callback};

verus! {

/// The name of the frontend event that carries a callback record.
pub const OAUTH_CALLBACK_EVENT: &'static str = "oauth-callback";

/// A record to emit once `delay_ms` milliseconds have passed, so that the
/// frontend has had time to start listening.
#[derive(Clone, Debug, PartialEq, Eq)]
pub struct DelayedEmission {
    pub delay_ms: u64,
    pub payload: CallbackRecord,
}

/// A record to emit at once, and whether the main window is then to be
/// shown and focused.
#[derive(Clone, Debug, PartialEq, Eq)]
pub struct RuntimeAction {
    pub payload: CallbackRecord,
    pub focus_window: bool,
}

/// The callback URLs among `urls`, in their order.
pub open spec fn callback_urls(urls: Seq<Seq<char>>) -> Seq<Seq<char>> {
    urls.filter(|u: Seq<char>| is_callback_url(u))
}

/// The records that the URLs of a launch give rise to, one per callback URL.
pub open spec fn startup_records(urls: Seq<Seq<char>>) -> Seq<RecordView> {
    callback_urls(urls).map_values(|u: Seq<char>| parsed_record(u))
}

/// The record that a URL delivered at run time gives rise to, if any.
pub open spec fn runtime_record(url: Seq<char>) -> Option<RecordView> {
    if is_callback_url(url) {
        Some(parsed_record(url))
    } else {
        None
    }
}

/// One delayed emission for each callback URL among `urls`, in their order,
/// each after `delay_ms`; every other URL is ignored.
pub fn schedule_startup(urls: &Vec<String>, delay_ms: u64) -> (r: Vec<DelayedEmission>)
    ensures
        r@.len() == callback_urls(urls.deep_view()).len(),
        r@.len() == startup_records(urls.deep_view()).len(),
        forall|i: int| 0 <= i < r@.len() ==> {
            &&& (#[trigger] r@[i]).delay_ms == delay_ms
            &&& r@[i].payload@ == startup_records(urls.deep_view())[i]
        },
{
    let mut out: Vec<DelayedEmission> = Vec::new();
    let n = urls.len();
    let mut i: usize = 0;
    proof {
        reveal(Seq::filter);
        assert(urls.deep_view().take(0) == Seq::<Seq<char>>::empty());
    }
    while i < n
        invariant
            n == urls.len(),
            i <= n,
            out@.len() == callback_urls(urls.deep_view().take(i as int)).len(),
            forall|j: int| 0 <= j < out@.len() ==> {
                &&& (#[trigger] out@[j]).delay_ms == delay_ms
                &&& out@[j].payload@ == parsed_record(callback_urls(urls.deep_view().take(i as int))[j])
            },
        decreases n - i,
    {
        let url = urls[i].as_str();
        let ghost before = callback_urls(urls.deep_view().take(i as int));
        proof {
            let dv = urls.deep_view();
            assert(dv.take(i + 1).drop_last() == dv.take(i as int));
            assert(dv.take(i + 1).last() == url@);
            reveal(Seq::filter);
        }
        if is_oauth_callback(url) {
            let payload = parse_oauth_callback_url(url);
            out.push(DelayedEmission { delay_ms, payload });
            assert(callback_urls(urls.deep_view().take(i + 1)) == before.push(url@));
        } else {
            assert(callback_urls(urls.deep_view().take(i + 1)) == before);
        }
        i = i + 1;
    }
    assert(urls.deep_view().take(n as int) == urls.deep_view());
    out
}

/// The action for a URL delivered at run time: the record of a callback URL,
/// to emit at once; nothing for any other URL.
pub fn runtime_action(url: &str, focus_window: bool) -> (r: Option<RuntimeAction>)
    ensures
        r is Some <==> runtime_record(url@) is Some,
        r is Some ==> r->0.payload@ == runtime_record(url@)->0 && r->0.focus_window == focus_window,
{
    if is_oauth_callback(url) {
        Some(RuntimeAction { payload: parse_oauth_callback_url(url), focus_window })
    } else {
        None
    }
}

} // verus!

verus! {

/// A URL that is not an OAuth callback gives rise to nothing: no record at
/// run time, and no emission when it is among the URLs of a launch.
pub proof fn non_callback_urls_are_ignored(urls: Seq<Seq<char>>, url: Seq<char>)
    requires
        !is_callback_url(url),
    ensures
        runtime_record(url) is None,
        startup_records(urls.push(url)) == startup_records(urls),
{
    reveal(Seq::filter);
    assert(urls.push(url).drop_last() == urls);
}

/// Every record emitted for the URLs of a launch comes from a callback URL.
pub proof fn startup_records_come_from_callbacks(urls: Seq<Seq<char>>)
    ensures
        forall|i: int| 0 <= i < startup_records(urls).len() ==>
            is_callback_url(#[trigger] startup_records(urls)[i].raw_url),
{
    broadcast use Seq::lemma_filter_pred;
    assert forall|i: int| 0 <= i < startup_records(urls).len() implies
        is_callback_url(#[trigger] startup_records(urls)[i].raw_url) by {
        assert(startup_records(urls)[i] == parsed_record(callback_urls(urls)[i]));
    }
}

} // verus!
