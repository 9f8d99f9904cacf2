use log_scrapper::cursors::Cursors;
use log_scrapper::json::Json;
use log_scrapper::log_scraper::{
    group_step, handle_target_response, label_target_entry, node_url, post_accepted, round_targets,
    settings, Config, GroupRound, GroupStep, Target,
};

fn s(text: &str) -> String {
    text.to_string()
}

fn obj(fields: Vec<(&str, Json)>) -> Json {
    Json::Object(fields.into_iter().map(|(k, v)| (s(k), v)).collect())
}

fn text(t: &str) -> Json {
    Json::Str(s(t))
}

fn member<'a>(j: &'a Json, key: &str) -> Option<&'a Json> {
    match j {
        Json::Object(fields) => fields.iter().rev().find(|(k, _)| k == key).map(|(_, v)| v),
        _ => None,
    }
}

fn group(ips: &[&str], dc: &str, subnet: &str) -> Config {
    Config { node_ips: ips.iter().map(|ip| s(ip)).collect(), dc: s(dc), subnet: s(subnet) }
}

#[test]
fn group_settings_defaults_and_values() {
    let d = settings(None, None, None, None);
    assert_eq!(d.config_path, "config.json");
    assert_eq!(d.api_port, "5000");
    assert_eq!(d.scrape_interval, "2");
    assert_eq!(d.vector_url, None);
    assert_eq!(d.scrape_interval_secs(), Some(2));
    let g = settings(Some(s("groups.json")), Some(s("8080")), Some(s("x")), Some(s("http://v")));
    assert_eq!(g.config_path, "groups.json");
    assert_eq!(g.api_port, "8080");
    assert_eq!(g.scrape_interval_secs(), None);
    assert_eq!(g.vector_url, Some(s("http://v")));
}

#[test]
fn node_url_with_and_without_cursor() {
    assert_eq!(node_url(None, &s("10.1.1.1"), &s("5000")), "http://10.1.1.1:5000/logs");
    let c = s("abc");
    assert_eq!(node_url(Some(&c), &s("10.1.1.1"), &s("5000")), "http://10.1.1.1:5000/logs/abc");
}

#[test]
fn round_targets_flatten_groups_in_order() {
    let configs = vec![
        group(&["10.0.0.1", "10.0.0.2"], "zh1", "s1"),
        group(&[], "fr1", "s2"),
        group(&["10.0.1.1"], "sf1", "s3"),
    ];
    let targets = round_targets(&configs);
    let got: Vec<(String, String, String)> =
        targets.iter().map(|t| (t.node_ip.clone(), t.dc.clone(), t.subnet.clone())).collect();
    assert_eq!(
        got,
        vec![
            (s("10.0.0.1"), s("zh1"), s("s1")),
            (s("10.0.0.2"), s("zh1"), s("s1")),
            (s("10.0.1.1"), s("sf1"), s("s3")),
        ]
    );
}

#[test]
fn target_entries_are_labelled() {
    let t = Target { node_ip: s("10.0.0.1"), dc: s("zh1"), subnet: s("s1") };
    let e = label_target_entry(obj(vec![("MESSAGE", text("m"))]), &t);
    assert_eq!(member(&e, "node_ip"), Some(&text("10.0.0.1")));
    assert_eq!(member(&e, "dc"), Some(&text("zh1")));
    assert_eq!(member(&e, "subnet"), Some(&text("s1")));
    assert_eq!(member(&e, "MESSAGE"), Some(&text("m")));
}

#[test]
fn target_response_records_cursor() {
    let t = Target { node_ip: s("10.0.0.1"), dc: s("zh1"), subnet: s("s1") };
    let mut cursors = Cursors::new();
    let mut scrape = Vec::new();
    let resp = Json::Array(vec![obj(vec![("__cursor", text("k1"))]), obj(vec![("__cursor", text("k2"))])]);
    handle_target_response(resp, &mut cursors, &t, &mut scrape);
    assert_eq!(cursors.get(&s("10.0.0.1")), Some(&s("k2")));
    assert_eq!(scrape.len(), 2);
}

#[test]
fn group_round_asks_each_target_then_prints() {
    let configs = vec![group(&["10.0.0.1", "10.0.0.2"], "zh1", "s1")];
    let targets = round_targets(&configs);
    let st = settings(None, None, None, None);
    let mut cursors = Cursors::new();
    let round = match group_step(GroupRound::start(), None, &targets, &mut cursors, &st) {
        GroupStep::Fetch(round, url) => {
            assert_eq!(url, "http://10.0.0.1:5000/logs");
            round
        }
        other => panic!("unexpected {:?}", other),
    };
    let answer = Json::Array(vec![obj(vec![("__cursor", text("k1"))])]);
    let round = match group_step(round, Some(answer), &targets, &mut cursors, &st) {
        GroupStep::Fetch(round, url) => {
            assert_eq!(url, "http://10.0.0.2:5000/logs");
            round
        }
        other => panic!("unexpected {:?}", other),
    };
    match group_step(round, Some(obj(vec![])), &targets, &mut cursors, &st) {
        GroupStep::Print(entries) => assert_eq!(entries.len(), 1),
        other => panic!("unexpected {:?}", other),
    }
    match group_step(GroupRound::start(), None, &targets, &mut cursors, &st) {
        GroupStep::Fetch(_, url) => assert_eq!(url, "http://10.0.0.1:5000/logs/k1"),
        other => panic!("unexpected {:?}", other),
    }
}

#[test]
fn group_round_posts_to_collector() {
    let targets = round_targets(&vec![group(&["10.0.0.9"], "zh1", "s1")]);
    let st = settings(None, None, None, Some(s("http://vector")));
    let mut cursors = Cursors::new();
    let round = match group_step(GroupRound::start(), None, &targets, &mut cursors, &st) {
        GroupStep::Fetch(round, _) => round,
        other => panic!("unexpected {:?}", other),
    };
    match group_step(round, Some(Json::Array(vec![Json::Null])), &targets, &mut cursors, &st) {
        GroupStep::Post(url, entries) => {
            assert_eq!(url, "http://vector");
            assert_eq!(member(&entries[0], "node_ip"), Some(&text("10.0.0.9")));
        }
        other => panic!("unexpected {:?}", other),
    }
}

#[test]
fn only_status_200_is_accepted() {
    assert!(post_accepted(200));
    assert!(!post_accepted(201));
    assert!(!post_accepted(500));
}
