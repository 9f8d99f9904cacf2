//! The scraper that takes its nodes from groups: each group names a data
//! centre, a subnet and the addresses of its nodes, and every entry taken
//! from a node is labelled with the node's address and its group's data
//! centre and subnet.

use vstd::prelude::*;
use crate::config::{or_default, u64_text_value, text_or, seconds_from_text};
use crate::cursors::Cursors;
use crate::json::{Json, members, index_key, can_set_member, with_member};
use crate::scrapper::{
    cursors_after, cursor_of, response_cursor, response_entries, handleable, handle_cursor,
};

verus! {

/// A group of nodes that share a data centre and a subnet.
#[derive(Debug)]
pub struct Config {
    pub node_ips: Vec<String>,
    pub dc: String,
    pub subnet: String,
}

/// The settings of this scraper, each taken from the environment or
/// defaulted.
#[derive(Debug)]
pub struct Settings {
    /// The file that lists the groups.
    pub config_path: String,
    /// The port that each node serves its logs on.
    pub api_port: String,
    /// Seconds between two rounds, as text.
    pub scrape_interval: String,
    /// Where rounds are posted; without it they are printed.
    pub vector_url: Option<String>,
}

/// The settings from the values of `CONFIG_PATH`, `API_PORT`,
/// `SCRAPE_INTERVAL` and `VECTOR_INSTANCE_IP` (`None` for a variable that
/// is unset or not valid text).
pub fn settings(
    config_path: Option<String>,
    api_port: Option<String>,
    scrape_interval: Option<String>,
    vector_url: Option<String>,
) -> (r: Settings)
    ensures
        r.config_path@ == or_default(config_path, "config.json"@),
        r.api_port@ == or_default(api_port, "5000"@),
        r.scrape_interval@ == or_default(scrape_interval, "2"@),
        r.vector_url == vector_url,
{
    Settings {
        config_path: text_or(config_path, "config.json"),
        api_port: text_or(api_port, "5000"),
        scrape_interval: text_or(scrape_interval, "2"),
        vector_url,
    }
}

impl Settings {
    /// The number of seconds between two rounds; `None` when the setting is
    /// not a number of seconds.
    pub fn scrape_interval_secs(&self) -> (r: Option<u64>)
        ensures
            r == u64_text_value(self.scrape_interval@),
    {
        seconds_from_text(&self.scrape_interval)
    }
}

/// The address of a node's logs, after `cursor` when there is one.
pub open spec fn spec_node_url(cursor: Option<Seq<char>>, node_ip: Seq<char>, port: Seq<char>) -> Seq<char> {
    let base = "http://"@ + node_ip + ":"@ + port + "/logs"@;
    match cursor {
        Some(c) => base + "/"@ + c,
        None => base,
    }
}

/// The address to ask node `node_ip` for its logs, after `cursor` when
/// there is one.
pub fn node_url(cursor: Option<&String>, node_ip: &String, port: &String) -> (r: String)
    ensures
        r@ == spec_node_url(
            match cursor {
                Some(c) => Some(c@),
                None => None,
            },
            node_ip@,
            port@,
        ),
{
    let mut url = String::new();
    url.append("http://");
    url.append(node_ip.as_str());
    url.append(":");
    url.append(port.as_str());
    url.append("/logs");
    match cursor {
        Some(c) => {
            url.append("/");
            url.append(c.as_str());
        },
        None => {},
    }
    url
}

/// A node to ask in a round, with the labels of its group.
#[derive(Debug)]
pub struct Target {
    pub node_ip: String,
    pub dc: String,
    pub subnet: String,
}

/// The node `ip` of group `config`.
pub open spec fn target_of(ip: String, config: Config) -> Target {
    Target { node_ip: ip, dc: config.dc, subnet: config.subnet }
}

/// The nodes of the groups, group after group, each group's nodes in
/// their order.
pub open spec fn spec_targets(configs: Seq<Config>) -> Seq<Target>
    decreases configs.len(),
{
    if configs.len() == 0 {
        Seq::empty()
    } else {
        spec_targets(configs.drop_last()) + configs.last().node_ips@.map_values(
            |ip: String| target_of(ip, configs.last()),
        )
    }
}

/// The nodes that a round asks, in the order it asks them.
pub fn round_targets(configs: &Vec<Config>) -> (r: Vec<Target>)
    ensures
        r@ == spec_targets(configs@),
{
    let mut r: Vec<Target> = Vec::new();
    let mut g: usize = 0;
    while g < configs.len()
        invariant
            g <= configs@.len(),
            r@ == spec_targets(configs@.take(g as int)),
        decreases configs@.len() - g,
    {
        let config = &configs[g];
        let ghost start = r@;
        let mut k: usize = 0;
        while k < config.node_ips.len()
            invariant
                k <= config.node_ips@.len(),
                *config == configs@[g as int],
                r@ == start + config.node_ips@.take(k as int).map_values(
                    |ip: String| target_of(ip, *config),
                ),
            decreases config.node_ips@.len() - k,
        {
            let t = Target {
                node_ip: config.node_ips[k].clone(),
                dc: config.dc.clone(),
                subnet: config.subnet.clone(),
            };
            r.push(t);
            proof {
                assert(config.node_ips@.take(k + 1) =~= config.node_ips@.take(k as int).push(
                    config.node_ips@[k as int],
                ));
                assert(r@ =~= start + config.node_ips@.take(k + 1).map_values(
                    |ip: String| target_of(ip, *config),
                ));
            }
            k = k + 1;
        }
        proof {
            assert(config.node_ips@.take(k as int) =~= config.node_ips@);
            assert(configs@.take(g + 1).drop_last() =~= configs@.take(g as int));
            assert(configs@.take(g + 1).last() == configs@[g as int]);
        }
        g = g + 1;
    }
    proof {
        assert(configs@.take(g as int) =~= configs@);
    }
    r
}

/// The members of an entry once the node it came from is written on it.
pub open spec fn target_labelled(m: Map<Seq<char>, Json>, target: Target) -> Map<Seq<char>, Json> {
    m.insert("node_ip"@, Json::Str(target.node_ip)).insert("dc"@, Json::Str(target.dc)).insert(
        "subnet"@,
        Json::Str(target.subnet),
    )
}

/// `entry` with the node's address and its group's data centre and subnet
/// written on it under `node_ip`, `dc` and `subnet`.
pub fn label_target_entry(entry: Json, target: &Target) -> (r: Json)
    requires
        can_set_member(entry),
    ensures
        r is Object,
        members(r) == target_labelled(members(entry), *target),
{
    let r = with_member(entry, "node_ip".to_owned(), Json::Str(target.node_ip.clone()));
    let r = with_member(r, "dc".to_owned(), Json::Str(target.dc.clone()));
    with_member(r, "subnet".to_owned(), Json::Str(target.subnet.clone()))
}

/// `after` is `before` followed by every entry of `resp`, in order,
/// labelled with `target`.
pub open spec fn appended_target_labelled(
    before: Seq<Json>,
    after: Seq<Json>,
    resp: Json,
    target: Target,
) -> bool {
    &&& after.len() == before.len() + response_entries(resp).len()
    &&& forall|i: int| 0 <= i < before.len() ==> #[trigger] after[i] == before[i]
    &&& forall|i: int|
        0 <= i < response_entries(resp).len() ==> {
            let e = #[trigger] after[before.len() + i];
            &&& e is Object
            &&& members(e) == target_labelled(members(response_entries(resp)[i]), target)
        }
}

/// What a node answered: when it is an array of entries, records the
/// cursor of the last entry for the node (if that is a string) and appends
/// every entry, labelled with the node and its group, to `current_scrape`.
/// Any other answer changes nothing.
pub fn handle_target_response(
    resp: Json,
    cursors: &mut Cursors,
    target: &Target,
    current_scrape: &mut Vec<Json>,
)
    requires
        handleable(resp),
    ensures
        final(cursors)@ == cursors_after(old(cursors)@, resp, target.node_ip@),
        appended_target_labelled(old(current_scrape)@, final(current_scrape)@, resp, *target),
{
    handle_cursor(&resp, cursors, &target.node_ip);
    let ghost old_scrape = current_scrape@;
    match resp {
        Json::Array(array) => {
            let ghost entries = array@;
            for log in it: array
                invariant
                    it.seq() == entries,
                    forall|i: int| 0 <= i < entries.len() ==> can_set_member(#[trigger] entries[i]),
                    current_scrape@.len() == old_scrape.len() + it.index(),
                    forall|i: int|
                        0 <= i < old_scrape.len() ==> #[trigger] current_scrape@[i] == old_scrape[i],
                    forall|i: int|
                        0 <= i < it.index() ==> {
                            let e = #[trigger] current_scrape@[old_scrape.len() + i];
                            &&& e is Object
                            &&& members(e) == target_labelled(members(entries[i]), *target)
                        },
            {
                current_scrape.push(label_target_entry(log, target));
            }
        },
        _ => {},
    }
}

/// What this scraper holds in the middle of a round: the position of the
/// next node to ask among the round's targets, and the entries taken so
/// far.
#[derive(Debug)]
pub struct GroupRound {
    pub next: usize,
    pub entries: Vec<Json>,
}

impl GroupRound {
    /// A round that has asked no node yet.
    pub fn start() -> (r: GroupRound)
        ensures
            r.next == 0,
            r.entries@ == Seq::<Json>::empty(),
    {
        GroupRound { next: 0, entries: Vec::new() }
    }
}

/// What this scraper does next.
#[derive(Debug)]
pub enum GroupStep {
    /// Ask the round's next node at this address.
    Fetch(GroupRound, String),
    /// The round is over: post its entries to the collector at this address.
    Post(String, Vec<Json>),
    /// The round is over and there is no collector: print its entries.
    Print(Vec<Json>),
}

/// The entries that a step carries.
pub open spec fn group_step_entries(step: GroupStep) -> Seq<Json> {
    match step {
        GroupStep::Fetch(round, _) => round.entries@,
        GroupStep::Post(_, entries) => entries@,
        GroupStep::Print(entries) => entries@,
    }
}

/// One step of a round over `targets`: takes in what the round's next
/// node answered (`None` when the round has not asked any), then asks the
/// next node from the cursor recorded for it, or ends the round once every
/// node was asked: posted when there is a collector, printed otherwise.
pub fn group_step(
    round: GroupRound,
    answer: Option<Json>,
    targets: &Vec<Target>,
    cursors: &mut Cursors,
    settings: &Settings,
) -> (r: GroupStep)
    requires
        round.next <= targets@.len(),
        answer is Some ==> round.next < targets@.len(),
        answer matches Some(resp) ==> handleable(resp),
    ensures
        ({
            let next = if answer is Some {
                round.next + 1
            } else {
                round.next as int
            };
            &&& final(cursors)@ == match answer {
                Some(resp) => cursors_after(old(cursors)@, resp, targets@[round.next as int].node_ip@),
                None => old(cursors)@,
            }
            &&& match answer {
                Some(resp) => appended_target_labelled(
                    round.entries@,
                    group_step_entries(r),
                    resp,
                    targets@[round.next as int],
                ),
                None => group_step_entries(r) == round.entries@,
            }
            &&& next < targets@.len() ==> (r matches GroupStep::Fetch(round2, url) && round2.next
                == next && url@ == spec_node_url(
                cursor_of(final(cursors)@, targets@[next].node_ip@),
                targets@[next].node_ip@,
                settings.api_port@,
            ))
            &&& next == targets@.len() ==> match settings.vector_url {
                Some(u) => (r matches GroupStep::Post(target, _) && target@ == u@),
                None => r is Print,
            }
        }),
{
    let mut round = round;
    let target_count = targets.len();
    match answer {
        Some(resp) => {
            let i = round.next;
            handle_target_response(resp, cursors, &targets[i], &mut round.entries);
            round.next = i + 1;
        },
        None => {},
    }
    if round.next < target_count {
        let ip = &targets[round.next].node_ip;
        let url = node_url(cursors.get(ip), ip, &settings.api_port);
        GroupStep::Fetch(round, url)
    } else {
        match &settings.vector_url {
            Some(target) => GroupStep::Post(target.clone(), round.entries),
            None => GroupStep::Print(round.entries),
        }
    }
}

/// Whether the collector took a posted round: it answered with status 200.
/// Any other status is reported, and scraping goes on.
pub fn post_accepted(status: u16) -> (r: bool)
    ensures
        r == (status == 200),
{
    status == 200
}

/// A node is next asked from where its last answer ended: once node `ip`
/// answered with entries whose last `__cursor` is `c`, it is asked at its
/// plain address followed by `/` and `c`.
pub proof fn lemma_group_resume_after_answer(
    cursors: Map<Seq<char>, Seq<char>>,
    resp: Json,
    ip: Seq<char>,
    port: Seq<char>,
    c: Seq<char>,
)
    requires
        response_cursor(resp) == Some(c),
    ensures
        spec_node_url(cursor_of(cursors_after(cursors, resp, ip), ip), ip, port) == spec_node_url(
            None,
            ip,
            port,
        ) + "/"@ + c,
{
    assert(cursors_after(cursors, resp, ip).dom().contains(ip));
}

/// Every entry that leaves this scraper names the node it came from and
/// the node's group: its `node_ip`, `dc` and `subnet` are the target's.
pub proof fn lemma_entry_names_its_target(e: Json, entry: Json, target: Target)
    requires
        members(e) == target_labelled(members(entry), target),
    ensures
        index_key(e, "node_ip"@) == Json::Str(target.node_ip),
        index_key(e, "dc"@) == Json::Str(target.dc),
        index_key(e, "subnet"@) == Json::Str(target.subnet),
{
    reveal_strlit("node_ip");
    reveal_strlit("dc");
    reveal_strlit("subnet");
    assert("node_ip"@.len() == 7);
    assert("dc"@.len() == 2);
    assert("subnet"@.len() == 6);
}

/// Labelling keeps every other member of an entry as it was.
pub proof fn lemma_target_labelling_keeps_other_members(
    m: Map<Seq<char>, Json>,
    target: Target,
    key: Seq<char>,
)
    requires
        key != "node_ip"@,
        key != "dc"@,
        key != "subnet"@,
    ensures
        target_labelled(m, target).dom().contains(key) == m.dom().contains(key),
        m.dom().contains(key) ==> target_labelled(m, target)[key] == m[key],
{
}

/// `e` names `target`: its `node_ip`, `dc` and `subnet` are the target's.
pub open spec fn names_target(e: Json, target: Target) -> bool {
    &&& index_key(e, "node_ip"@) == Json::Str(target.node_ip)
    &&& index_key(e, "dc"@) == Json::Str(target.dc)
    &&& index_key(e, "subnet"@) == Json::Str(target.subnet)
}

/// `e` names one of the first `asked` targets.
pub open spec fn names_asked_target(e: Json, targets: Seq<Target>, asked: int) -> bool {
    exists|k: int| 0 <= k < asked && #[trigger] names_target(e, targets[k])
}

/// What a round has taken always names the targets it has asked: handling
/// the answer of the next target keeps every entry naming one of the
/// targets asked so far.
pub proof fn lemma_group_round_entries_name_asked_targets(
    before: Seq<Json>,
    after: Seq<Json>,
    resp: Json,
    targets: Seq<Target>,
    next: int,
)
    requires
        0 <= next < targets.len(),
        forall|i: int| 0 <= i < before.len() ==> names_asked_target(#[trigger] before[i], targets, next),
        appended_target_labelled(before, after, resp, targets[next]),
    ensures
        forall|i: int|
            0 <= i < after.len() ==> names_asked_target(#[trigger] after[i], targets, next + 1),
{
    let asked = next + 1;
    assert forall|i: int| 0 <= i < after.len() implies names_asked_target(
        #[trigger] after[i],
        targets,
        asked,
    ) by {
        if i < before.len() {
            assert(after[i] == before[i]);
            assert(names_asked_target(before[i], targets, next));
            let k = choose|k: int| 0 <= k < next && #[trigger] names_target(before[i], targets[k]);
            assert(names_target(after[i], targets[k]));
        } else {
            let j = i - before.len();
            assert(after[before.len() + j] == after[i]);
            lemma_entry_names_its_target(after[i], response_entries(resp)[j], targets[next]);
            assert(names_target(after[i], targets[next]));
        }
    }
}

/// Where a group's node is asked: `http://`, the node's address, `:`, the
/// given port and `/logs`; asking from a cursor adds `/` and the cursor to
/// that address and changes nothing else.
pub proof fn lemma_node_url_shape(node_ip: Seq<char>, port: Seq<char>, c: Seq<char>)
    ensures
        ({
            let url = spec_node_url(None, node_ip, port);
            let head = "http://"@ + node_ip + ":"@ + port;
            &&& url.len() == head.len() + "/logs"@.len()
            &&& url.take(head.len() as int) == head
            &&& url.skip(head.len() as int) == "/logs"@
        }),
        spec_node_url(Some(c), node_ip, port) == spec_node_url(None, node_ip, port) + "/"@ + c,
{
    let url = spec_node_url(None, node_ip, port);
    let head = "http://"@ + node_ip + ":"@ + port;
    assert(url =~= head + "/logs"@);
    assert((head + "/logs"@).take(head.len() as int) =~= head);
    assert((head + "/logs"@).skip(head.len() as int) =~= "/logs"@);
}

/// How many nodes the first `g` groups list together.
pub open spec fn nodes_before(configs: Seq<Config>, g: int) -> int
    decreases g,
{
    if g <= 0 {
        0
    } else {
        nodes_before(configs, g - 1) + configs[g - 1].node_ips@.len()
    }
}

proof fn lemma_nodes_before_monotone(configs: Seq<Config>, g1: int, g2: int)
    requires
        0 <= g1 <= g2,
    ensures
        nodes_before(configs, g1) <= nodes_before(configs, g2),
    decreases g2,
{
    if g1 < g2 {
        lemma_nodes_before_monotone(configs, g1, g2 - 1);
    }
}

proof fn lemma_nodes_before_init(configs: Seq<Config>, g: int)
    requires
        configs.len() > 0,
        0 <= g <= configs.len() - 1,
    ensures
        nodes_before(configs.drop_last(), g) == nodes_before(configs, g),
    decreases g,
{
    if g > 0 {
        lemma_nodes_before_init(configs, g - 1);
        assert(configs.drop_last()[g - 1] == configs[g - 1]);
    }
}

/// A round asks every node of every group, and nothing else: as many
/// targets as the groups list nodes, and the node at position `k` of
/// group `g` is asked at position `nodes_before(configs, g) + k`, with
/// group `g`'s data centre and subnet.
pub proof fn lemma_targets_cover_groups(configs: Seq<Config>)
    ensures
        spec_targets(configs).len() == nodes_before(configs, configs.len() as int),
        forall|g: int, k: int|
            0 <= g < configs.len() && 0 <= k < configs[g].node_ips@.len() ==> spec_targets(
                configs,
            )[nodes_before(configs, g) + k] == target_of(#[trigger] configs[g].node_ips@[k], configs[g]),
    decreases configs.len(),
{
    if configs.len() > 0 {
        let n = configs.len() - 1;
        let init = configs.drop_last();
        let last = configs.last();
        lemma_targets_cover_groups(init);
        lemma_nodes_before_init(configs, n);
        let tail = last.node_ips@.map_values(|ip: String| target_of(ip, last));
        assert(spec_targets(configs) == spec_targets(init) + tail);
        assert forall|g: int, k: int|
            0 <= g < configs.len() && 0 <= k < configs[g].node_ips@.len() implies spec_targets(
                configs,
            )[nodes_before(configs, g) + k] == target_of(#[trigger] configs[g].node_ips@[k], configs[g]) by {
            let idx = nodes_before(configs, g) + k;
            if g < n {
                lemma_nodes_before_init(configs, g);
                lemma_nodes_before_monotone(init, g + 1, n);
                lemma_nodes_before_monotone(init, 0, g);
                assert(init[g] == configs[g]);
                assert(nodes_before(init, g + 1) == nodes_before(init, g) + init[g].node_ips@.len());
                assert(idx < spec_targets(init).len());
                assert(spec_targets(init)[nodes_before(init, g) + k] == target_of(
                    init[g].node_ips@[k],
                    init[g],
                ));
                assert((spec_targets(init) + tail)[idx] == spec_targets(init)[idx]);
            } else {
                assert(g == n);
                assert(configs[g] == last);
                assert(idx == spec_targets(init).len() + k);
                assert((spec_targets(init) + tail)[idx] == tail[k]);
            }
        }
    }
}

/// Handling an answer keeps, in each entry it forwards, every member of
/// the node's entry other than the three labels: the forwarded entry has
/// such a key exactly when the node's entry has it, with the same value.
pub proof fn lemma_forwarded_target_entries_keep_members(
    before: Seq<Json>,
    after: Seq<Json>,
    resp: Json,
    target: Target,
    i: int,
    key: Seq<char>,
)
    requires
        appended_target_labelled(before, after, resp, target),
        0 <= i < response_entries(resp).len(),
        key != "node_ip"@,
        key != "dc"@,
        key != "subnet"@,
    ensures
        members(after[before.len() + i]).dom().contains(key) == members(
            response_entries(resp)[i],
        ).dom().contains(key),
        members(response_entries(resp)[i]).dom().contains(key) ==> members(
            after[before.len() + i],
        )[key] == members(response_entries(resp)[i])[key],
{
    lemma_target_labelling_keeps_other_members(members(response_entries(resp)[i]), target, key);
}

} // verus!
