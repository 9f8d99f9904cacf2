//! Reloading the log shipper when its configuration is written: the
//! shipper's container is sent `SIGHUP` through the container host's API.

use vstd::prelude::*;

verus! {

/// The address that asks the container host to send `SIGHUP` to the
/// shipper's container.
pub fn reload_url(host_url: &String, vector_container: &String) -> (r: String)
    ensures
        r@ == host_url@ + "/containers/"@ + vector_container@ + "/kill?signal=SIGHUP"@,
{
    let mut url = String::new();
    url.append(host_url.as_str());
    url.append("/containers/");
    url.append(vector_container.as_str());
    url.append("/kill?signal=SIGHUP");
    url
}

/// What the watcher of the shipper's configuration saw.
#[derive(Debug, PartialEq, Eq)]
pub enum WatchEvent {
    /// A file under the watched path was written to (as first noticed).
    NoticeWrite,
    /// Any other change.
    OtherChange,
    /// The watcher failed to deliver an event.
    WatchError,
}

/// What to do about what the watcher saw.
#[derive(Debug, PartialEq, Eq)]
pub enum WatchAction {
    /// Ask the container host to reload the shipper.
    SignalReload,
    /// Nothing.
    Ignore,
    /// Report the watcher's failure.
    ReportError,
}

/// A write makes the shipper reload; other changes are ignored; a failure
/// of the watcher is reported.
pub fn on_watch_event(event: &WatchEvent) -> (r: WatchAction)
    ensures
        r == match *event {
            WatchEvent::NoticeWrite => WatchAction::SignalReload,
            WatchEvent::OtherChange => WatchAction::Ignore,
            WatchEvent::WatchError => WatchAction::ReportError,
        },
{
    match event {
        WatchEvent::NoticeWrite => WatchAction::SignalReload,
        WatchEvent::OtherChange => WatchAction::Ignore,
        WatchEvent::WatchError => WatchAction::ReportError,
    }
}

} // verus!
