use log_scrapper::config_watcher::{config_watch_step, ConfigAction, ConfigEvent};
use log_scrapper::file_watcher::{on_watch_event, reload_url, WatchAction, WatchEvent};
use log_scrapper::ic_node::IcNode;

fn s(text: &str) -> String {
    text.to_string()
}

fn node(ip: &str) -> IcNode {
    IcNode { ic_node: s("n"), dc: s("dc"), ic_subnet: s("sub"), ip: s(ip) }
}

#[test]
fn reload_url_targets_the_container() {
    assert_eq!(
        reload_url(&s("http://docker:2375"), &s("vector-agent")),
        "http://docker:2375/containers/vector-agent/kill?signal=SIGHUP"
    );
}

#[test]
fn only_writes_reload_the_shipper() {
    assert_eq!(on_watch_event(&WatchEvent::NoticeWrite), WatchAction::SignalReload);
    assert_eq!(on_watch_event(&WatchEvent::OtherChange), WatchAction::Ignore);
    assert_eq!(on_watch_event(&WatchEvent::WatchError), WatchAction::ReportError);
}

#[test]
fn config_watch_replaces_nodes_only_on_successful_reload() {
    let mut nodes = vec![node("10.0.0.1")];
    assert_eq!(config_watch_step(&mut nodes, ConfigEvent::Written), ConfigAction::ReadConfig);
    assert_eq!(config_watch_step(&mut nodes, ConfigEvent::ReloadFailed), ConfigAction::ReportReloadError);
    assert_eq!(nodes, vec![node("10.0.0.1")]);
    assert_eq!(config_watch_step(&mut nodes, ConfigEvent::OtherChange), ConfigAction::Idle);
    assert_eq!(config_watch_step(&mut nodes, ConfigEvent::WatchFailed), ConfigAction::ReportWatchError);
    assert_eq!(
        config_watch_step(&mut nodes, ConfigEvent::Reloaded(vec![node("10.0.0.2"), node("10.0.0.3")])),
        ConfigAction::ReportReloaded
    );
    assert_eq!(nodes, vec![node("10.0.0.2"), node("10.0.0.3")]);
}
