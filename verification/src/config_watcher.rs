//! Keeping the scraper's list of nodes in step with its configuration
//! file.

use vstd::prelude::*;
use crate::ic_node::IcNode;

verus! {

/// What happened to the configuration file, or to reading it again.
#[derive(Debug)]
pub enum ConfigEvent {
    /// The file was written.
    Written,
    /// The file changed in some other way.
    OtherChange,
    /// The watcher failed to deliver an event.
    WatchFailed,
    /// The file was read again and lists these nodes.
    Reloaded(Vec<IcNode>),
    /// The file could not be read again.
    ReloadFailed,
}

/// What the configuration watcher does next.
#[derive(Debug, PartialEq, Eq)]
pub enum ConfigAction {
    /// Read the configuration file again.
    ReadConfig,
    /// Nothing.
    Idle,
    /// Report that the watcher failed.
    ReportWatchError,
    /// Report that the nodes were replaced.
    ReportReloaded,
    /// Report that the file could not be read again; the nodes are kept.
    ReportReloadError,
}

/// One step of the watcher: a write makes it read the file again, a read
/// that succeeds replaces the scraper's nodes, and one that fails keeps
/// them.
pub fn config_watch_step(nodes: &mut Vec<IcNode>, event: ConfigEvent) -> (r: ConfigAction)
    ensures
        match event {
            ConfigEvent::Reloaded(new_nodes) => final(nodes)@ == new_nodes@ && r
                == ConfigAction::ReportReloaded,
            ConfigEvent::Written => final(nodes)@ == old(nodes)@ && r == ConfigAction::ReadConfig,
            ConfigEvent::OtherChange => final(nodes)@ == old(nodes)@ && r == ConfigAction::Idle,
            ConfigEvent::WatchFailed => final(nodes)@ == old(nodes)@ && r
                == ConfigAction::ReportWatchError,
            ConfigEvent::ReloadFailed => final(nodes)@ == old(nodes)@ && r
                == ConfigAction::ReportReloadError,
        },
{
    match event {
        ConfigEvent::Written => ConfigAction::ReadConfig,
        ConfigEvent::OtherChange => ConfigAction::Idle,
        ConfigEvent::WatchFailed => ConfigAction::ReportWatchError,
        ConfigEvent::Reloaded(new_nodes) => {
            *nodes = new_nodes;
            ConfigAction::ReportReloaded
        },
        ConfigEvent::ReloadFailed => ConfigAction::ReportReloadError,
    }
}

} // verus!
