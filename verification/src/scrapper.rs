//! Pulling journal entries from the nodes: where each request goes, and
//! what is made of each answer.

use vstd::prelude::*;
use crate::config::Config;
use crate::cursors::Cursors;
use crate::ic_node::IcNode;
use crate::json::{Json, members, index_key, string_view, can_set_member, with_member, string_member};

verus! {

/// The address of a node's journal, resuming after `cursor` when there is
/// one. IPv6 addresses are put in brackets, and then the journal path is
/// joined to the port with a `/`.
pub open spec fn spec_format_url(cursor: Option<Seq<char>>, ip: Seq<char>, config: Config) -> Seq<char> {
    let base = if config.use_ipv6 {
        "http://["@ + ip + "]:"@ + config.journal_port@ + "/"@ + config.log_path@
    } else {
        "http://"@ + ip + ":"@ + config.journal_port@ + config.log_path@
    };
    match cursor {
        Some(c) => base + "?cursor="@ + c,
        None => base,
    }
}

/// The address to ask node `ip` for its journal, after `node_cursor` when
/// there is one.
pub fn format_url(node_cursor: Option<&String>, ip: &String, config: &Config) -> (r: String)
    ensures
        r@ == spec_format_url(
            match node_cursor {
                Some(c) => Some(c@),
                None => None,
            },
            ip@,
            *config,
        ),
{
    let mut url = String::new();
    if config.use_ipv6 {
        url.append("http://[");
        url.append(ip.as_str());
        url.append("]:");
        url.append(config.journal_port.as_str());
        url.append("/");
        url.append(config.log_path.as_str());
    } else {
        url.append("http://");
        url.append(ip.as_str());
        url.append(":");
        url.append(config.journal_port.as_str());
        url.append(config.log_path.as_str());
    }
    match node_cursor {
        Some(cursor) => {
            url.append("?cursor=");
            url.append(cursor.as_str());
        },
        None => {},
    }
    url
}

/// The members of an entry once the node it came from is written on it.
pub open spec fn node_labelled(m: Map<Seq<char>, Json>, node: IcNode) -> Map<Seq<char>, Json> {
    m.insert("ic_node"@, Json::Str(node.ic_node)).insert("dc"@, Json::Str(node.dc)).insert(
        "ic_subnet"@,
        Json::Str(node.ic_subnet),
    ).insert("ip"@, Json::Str(node.ip))
}

/// `entry` with the node's name, data centre, subnet and address written
/// on it under `ic_node`, `dc`, `ic_subnet` and `ip`.
pub fn label_entry(entry: Json, ic_node: &IcNode) -> (r: Json)
    requires
        can_set_member(entry),
    ensures
        r is Object,
        members(r) == node_labelled(members(entry), *ic_node),
{
    let r = with_member(entry, "ic_node".to_owned(), Json::Str(ic_node.ic_node.clone()));
    let r = with_member(r, "dc".to_owned(), Json::Str(ic_node.dc.clone()));
    let r = with_member(r, "ic_subnet".to_owned(), Json::Str(ic_node.ic_subnet.clone()));
    with_member(r, "ip".to_owned(), Json::Str(ic_node.ip.clone()))
}

/// The entries of a response: the elements of an array, and none for any
/// other value.
pub open spec fn response_entries(resp: Json) -> Seq<Json> {
    match resp {
        Json::Array(entries) => entries@,
        _ => Seq::empty(),
    }
}

/// The cursor that a response ends on: the `__cursor` of its last entry,
/// when the response is an array and that member is a string.
pub open spec fn response_cursor(resp: Json) -> Option<Seq<char>> {
    match resp {
        Json::Array(entries) => if entries@.len() > 0 {
            string_view(index_key(entries@.last(), "__cursor"@))
        } else {
            None
        },
        _ => None,
    }
}

/// A response that can be handled: anything but an array, or an array
/// that has a last entry and whose entries all take members.
pub open spec fn handleable(resp: Json) -> bool {
    resp is Array ==> {
        &&& response_entries(resp).len() > 0
        &&& forall|i: int|
            0 <= i < response_entries(resp).len() ==> can_set_member(
                #[trigger] response_entries(resp)[i],
            )
    }
}

/// Records for node `ip` the cursor that `resp` ends on, if it ends on one.
pub fn handle_cursor(resp: &Json, cursors: &mut Cursors, ip: &String)
    requires
        handleable(*resp),
    ensures
        final(cursors)@ == cursors_after(old(cursors)@, *resp, ip@),
{
    match resp {
        Json::Array(array) => {
            let last = &array[array.len() - 1];
            let cursor_key = "__cursor".to_owned();
            match string_member(last, &cursor_key) {
                Some(cursor) => {
                    cursors.insert(ip.clone(), cursor.clone());
                },
                None => {},
            }
        },
        _ => {},
    }
}

/// What a node answered: when it is an array of entries, records the
/// cursor of the last entry for the node (if that is a string) and appends
/// every entry, labelled with the node, to `current_scrape`. Any other
/// answer changes nothing.
pub fn handle_response(
    resp: Json,
    cursors: &mut Cursors,
    ic_node: &IcNode,
    current_scrape: &mut Vec<Json>,
)
    requires
        handleable(resp),
    ensures
        final(cursors)@ == cursors_after(old(cursors)@, resp, ic_node.ip@),
        appended_labelled(old(current_scrape)@, final(current_scrape)@, resp, *ic_node),
{
    handle_cursor(&resp, cursors, &ic_node.ip);
    let ghost old_scrape = current_scrape@;
    match resp {
        Json::Array(array) => {
            let ghost entries = array@;
            for log in it: array
                invariant
                    it.seq() == entries,
                    forall|i: int| 0 <= i < entries.len() ==> can_set_member(#[trigger] entries[i]),
                    current_scrape@.len() == old_scrape.len() + it.index(),
                    forall|i: int|
                        0 <= i < old_scrape.len() ==> #[trigger] current_scrape@[i] == old_scrape[i],
                    forall|i: int|
                        0 <= i < it.index() ==> {
                            let e = #[trigger] current_scrape@[old_scrape.len() + i];
                            &&& e is Object
                            &&& members(e) == node_labelled(members(entries[i]), *ic_node)
                        },
            {
                let labelled = label_entry(log, ic_node);
                current_scrape.push(labelled);
            }
        },
        _ => {},
    }
}


/// The cursors once node `ip` answered `resp`: the cursor the answer ends
/// on is recorded for the node, if it ends on one.
pub open spec fn cursors_after(
    cursors: Map<Seq<char>, Seq<char>>,
    resp: Json,
    ip: Seq<char>,
) -> Map<Seq<char>, Seq<char>> {
    match response_cursor(resp) {
        Some(c) => cursors.insert(ip, c),
        None => cursors,
    }
}

/// `after` is `before` followed by every entry of `resp`, in order,
/// labelled with `node`.
pub open spec fn appended_labelled(before: Seq<Json>, after: Seq<Json>, resp: Json, node: IcNode) -> bool {
    &&& after.len() == before.len() + response_entries(resp).len()
    &&& forall|i: int| 0 <= i < before.len() ==> #[trigger] after[i] == before[i]
    &&& forall|i: int|
        0 <= i < response_entries(resp).len() ==> {
            let e = #[trigger] after[before.len() + i];
            &&& e is Object
            &&& members(e) == node_labelled(members(response_entries(resp)[i]), node)
        }
}

/// Whether `resp` can be handled (see `handleable`).
pub fn is_handleable(resp: &Json) -> (r: bool)
    ensures
        r == handleable(*resp),
{
    match resp {
        Json::Array(entries) => {
            if entries.len() == 0 {
                return false;
            }
            let mut i: usize = 0;
            while i < entries.len()
                invariant
                    i <= entries@.len(),
                    *resp is Array,
                    response_entries(*resp) == entries@,
                    forall|k: int| 0 <= k < i ==> can_set_member(#[trigger] entries@[k]),
                decreases entries@.len() - i,
            {
                match &entries[i] {
                    Json::Null => {},
                    Json::Object(_) => {},
                    _ => {
                        assert(!can_set_member(entries@[i as int]));
                        return false;
                    },
                }
                i = i + 1;
            }
            true
        },
        _ => true,
    }
}

/// What the scraper holds in the middle of a round: the position of the
/// next node to ask, and the entries taken so far.
#[derive(Debug)]
pub struct ScrapeRound {
    pub next: usize,
    pub entries: Vec<Json>,
}

impl ScrapeRound {
    /// A round that has asked no node yet.
    pub fn start() -> (r: ScrapeRound)
        ensures
            r.next == 0,
            r.entries@ == Seq::<Json>::empty(),
    {
        ScrapeRound { next: 0, entries: Vec::new() }
    }
}

/// How asking a node went.
#[derive(Debug)]
pub enum FetchOutcome {
    /// The node answered with this JSON.
    Answered(Json),
    /// The node could not be asked; it is skipped for this round.
    Unreachable,
    /// The node's answer could not be read; scraping stops.
    Unreadable,
}

/// What the scraper does next.
#[derive(Debug)]
pub enum ScrapeStep {
    /// Ask the round's next node at this address.
    Fetch(ScrapeRound, String),
    /// The round is over: post its entries to the collector at this address.
    Post(String, Vec<Json>),
    /// The round is over and there is no collector: log its entries.
    Log(Vec<Json>),
    /// Scraping stops.
    Stop,
}

/// The entries that a step carries.
pub open spec fn step_entries(step: ScrapeStep) -> Seq<Json> {
    match step {
        ScrapeStep::Fetch(round, _) => round.entries@,
        ScrapeStep::Post(_, entries) => entries@,
        ScrapeStep::Log(entries) => entries@,
        ScrapeStep::Stop => Seq::empty(),
    }
}

/// The cursor recorded for node `ip`, if any.
pub open spec fn cursor_of(cursors: Map<Seq<char>, Seq<char>>, ip: Seq<char>) -> Option<Seq<char>> {
    if cursors.dom().contains(ip) {
        Some(cursors[ip])
    } else {
        None
    }
}

/// `outcome` is something a round can go on with.
pub open spec fn outcome_handleable(outcome: Option<FetchOutcome>) -> bool {
    match outcome {
        Some(FetchOutcome::Answered(resp)) => handleable(resp),
        _ => true,
    }
}

/// One step of a round over `nodes`: takes in how asking the round's next
/// node went (`None` when the round has not asked any), then asks the next
/// node, or ends the round once every node was asked.
///
/// An answer is handled as `handle_response` does; an unreachable node is
/// skipped; an unreadable answer stops scraping. A node is asked from the
/// cursor recorded for it. A finished round is posted to the collector
/// when there is one, and logged otherwise.
pub fn scrape_step(
    round: ScrapeRound,
    outcome: Option<FetchOutcome>,
    nodes: &Vec<IcNode>,
    cursors: &mut Cursors,
    config: &Config,
) -> (r: ScrapeStep)
    requires
        round.next <= nodes@.len(),
        outcome is Some ==> round.next < nodes@.len(),
        outcome_handleable(outcome),
    ensures
        outcome matches Some(FetchOutcome::Unreadable) ==> r is Stop && final(cursors)@ == old(
            cursors,
        )@,
        !(outcome matches Some(FetchOutcome::Unreadable)) ==> {
            let next = if outcome is Some {
                round.next + 1
            } else {
                round.next as int
            };
            &&& final(cursors)@ == match outcome {
                Some(FetchOutcome::Answered(resp)) => cursors_after(
                    old(cursors)@,
                    resp,
                    nodes@[round.next as int].ip@,
                ),
                _ => old(cursors)@,
            }
            &&& match outcome {
                Some(FetchOutcome::Answered(resp)) => appended_labelled(
                    round.entries@,
                    step_entries(r),
                    resp,
                    nodes@[round.next as int],
                ),
                _ => step_entries(r) == round.entries@,
            }
            &&& next < nodes@.len() ==> (r matches ScrapeStep::Fetch(round2, url) && round2.next
                == next && url@ == spec_format_url(
                cursor_of(final(cursors)@, nodes@[next].ip@),
                nodes@[next].ip@,
                *config,
            ))
            &&& next == nodes@.len() ==> match config.vector_url {
                Some(u) => (r matches ScrapeStep::Post(target, _) && target@ == u@),
                None => r is Log,
            }
        },
{
    let mut round = round;
    let node_count = nodes.len();
    match outcome {
        Some(FetchOutcome::Answered(resp)) => {
            let i = round.next;
            handle_response(resp, cursors, &nodes[i], &mut round.entries);
            round.next = i + 1;
        },
        Some(FetchOutcome::Unreachable) => {
            round.next = round.next + 1;
        },
        Some(FetchOutcome::Unreadable) => {
            return ScrapeStep::Stop;
        },
        None => {},
    }
    if round.next < node_count {
        let ip = &nodes[round.next].ip;
        let url = format_url(cursors.get(ip), ip, config);
        ScrapeStep::Fetch(round, url)
    } else {
        match &config.vector_url {
            Some(target) => ScrapeStep::Post(target.clone(), round.entries),
            None => ScrapeStep::Log(round.entries),
        }
    }
}

} // verus!
