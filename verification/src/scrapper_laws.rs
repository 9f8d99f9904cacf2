//! What holds of the scraper across its operations.

use vstd::prelude::*;
use crate::config::Config;
use crate::ic_node::IcNode;
use crate::json::{Json, members, index_key};
use crate::scrapper::{
    spec_format_url, cursors_after, cursor_of, response_cursor, response_entries, node_labelled,
    appended_labelled,
};

verus! {

/// A node is next asked from where its last answer ended: once node `ip`
/// answered with entries whose last `__cursor` is `c`, the address it is
/// asked at is its plain address followed by `?cursor=` and `c`.
pub proof fn lemma_resume_after_answer(
    cursors: Map<Seq<char>, Seq<char>>,
    resp: Json,
    ip: Seq<char>,
    config: Config,
    c: Seq<char>,
)
    requires
        response_cursor(resp) == Some(c),
    ensures
        spec_format_url(cursor_of(cursors_after(cursors, resp, ip), ip), ip, config)
            == spec_format_url(None, ip, config) + "?cursor="@ + c,
{
    assert(cursors_after(cursors, resp, ip).dom().contains(ip));
}

/// An answer from one node leaves the cursor of every other node as it was.
pub proof fn lemma_other_nodes_keep_cursor(
    cursors: Map<Seq<char>, Seq<char>>,
    resp: Json,
    ip: Seq<char>,
    other: Seq<char>,
)
    requires
        other != ip,
    ensures
        cursor_of(cursors_after(cursors, resp, ip), other) == cursor_of(cursors, other),
{
}

/// An answer that ends on no string cursor keeps the node's cursor, so the
/// node is asked again from the same place.
pub proof fn lemma_no_cursor_no_move(cursors: Map<Seq<char>, Seq<char>>, resp: Json, ip: Seq<char>)
    requires
        response_cursor(resp) is None,
    ensures
        cursors_after(cursors, resp, ip) == cursors,
{
}

/// An answer that is no array yields no entry and moves no cursor.
pub proof fn lemma_non_array_answer_ignored(
    cursors: Map<Seq<char>, Seq<char>>,
    resp: Json,
    ip: Seq<char>,
)
    requires
        !(resp is Array),
    ensures
        response_entries(resp).len() == 0,
        cursors_after(cursors, resp, ip) == cursors,
{
}

/// Every entry that leaves the scraper names the node it came from: its
/// `ic_node`, `dc`, `ic_subnet` and `ip` are the node's.
pub proof fn lemma_entry_names_its_node(e: Json, entry: Json, node: IcNode)
    requires
        members(e) == node_labelled(members(entry), node),
    ensures
        index_key(e, "ic_node"@) == Json::Str(node.ic_node),
        index_key(e, "dc"@) == Json::Str(node.dc),
        index_key(e, "ic_subnet"@) == Json::Str(node.ic_subnet),
        index_key(e, "ip"@) == Json::Str(node.ip),
{
    lemma_label_keys_distinct();
}

/// The four label keys are pairwise different.
proof fn lemma_label_keys_distinct()
    ensures
        "ic_node"@ != "dc"@,
        "ic_node"@ != "ic_subnet"@,
        "ic_node"@ != "ip"@,
        "dc"@ != "ic_subnet"@,
        "dc"@ != "ip"@,
        "ic_subnet"@ != "ip"@,
{
    reveal_strlit("ic_node");
    reveal_strlit("dc");
    reveal_strlit("ic_subnet");
    reveal_strlit("ip");
    assert("ic_node"@.len() == 7);
    assert("dc"@.len() == 2);
    assert("ic_subnet"@.len() == 9);
    assert("ip"@.len() == 2);
    assert("dc"@[0] != "ip"@[0]);
}

/// Labelling keeps every other member of an entry as it was.
pub proof fn lemma_labelling_keeps_other_members(
    m: Map<Seq<char>, Json>,
    node: IcNode,
    key: Seq<char>,
)
    requires
        key != "ic_node"@,
        key != "dc"@,
        key != "ic_subnet"@,
        key != "ip"@,
    ensures
        node_labelled(m, node).dom().contains(key) == m.dom().contains(key),
        m.dom().contains(key) ==> node_labelled(m, node)[key] == m[key],
{
}

/// Labelling an entry a second time with the same node changes nothing.
pub proof fn lemma_labelling_idempotent(m: Map<Seq<char>, Json>, node: IcNode)
    ensures
        node_labelled(node_labelled(m, node), node) == node_labelled(m, node),
{
    lemma_label_keys_distinct();
    assert(node_labelled(node_labelled(m, node), node) =~= node_labelled(m, node));
}

/// The cursor read for a node is the last one written for it, and writing
/// one node's cursor leaves every other node's as it was.
pub proof fn lemma_cursor_read_after_write(
    cursors: Map<Seq<char>, Seq<char>>,
    ip: Seq<char>,
    c: Seq<char>,
    other: Seq<char>,
)
    ensures
        cursor_of(cursors.insert(ip, c), ip) == Some(c),
        other != ip ==> cursor_of(cursors.insert(ip, c), other) == cursor_of(cursors, other),
{
}

/// `e` names `node`: its `ic_node`, `dc`, `ic_subnet` and `ip` are the
/// node's.
pub open spec fn names_node(e: Json, node: IcNode) -> bool {
    &&& index_key(e, "ic_node"@) == Json::Str(node.ic_node)
    &&& index_key(e, "dc"@) == Json::Str(node.dc)
    &&& index_key(e, "ic_subnet"@) == Json::Str(node.ic_subnet)
    &&& index_key(e, "ip"@) == Json::Str(node.ip)
}

/// `e` names one of the first `asked` nodes.
pub open spec fn names_asked_node(e: Json, nodes: Seq<IcNode>, asked: int) -> bool {
    exists|k: int| 0 <= k < asked && #[trigger] names_node(e, nodes[k])
}

/// Every entry of `entries` names one of the first `asked` nodes.
pub open spec fn entries_name_asked_nodes(entries: Seq<Json>, nodes: Seq<IcNode>, asked: int) -> bool {
    forall|i: int| 0 <= i < entries.len() ==> names_asked_node(#[trigger] entries[i], nodes, asked)
}

/// What a round has taken always names the nodes it has asked: handling
/// the answer of the next node keeps every entry naming one of the nodes
/// asked so far.
pub proof fn lemma_round_entries_name_asked_nodes(
    before: Seq<Json>,
    after: Seq<Json>,
    resp: Json,
    nodes: Seq<IcNode>,
    next: int,
)
    requires
        0 <= next < nodes.len(),
        entries_name_asked_nodes(before, nodes, next),
        appended_labelled(before, after, resp, nodes[next]),
    ensures
        entries_name_asked_nodes(after, nodes, next + 1),
{
    let asked = next + 1;
    assert forall|i: int| 0 <= i < after.len() implies names_asked_node(
        #[trigger] after[i],
        nodes,
        asked,
    ) by {
        if i < before.len() {
            assert(after[i] == before[i]);
            assert(names_asked_node(before[i], nodes, next));
            let k = choose|k: int| 0 <= k < next && #[trigger] names_node(before[i], nodes[k]);
            assert(names_node(after[i], nodes[k]));
        } else {
            let j = i - before.len();
            assert(after[before.len() + j] == after[i]);
            lemma_entry_names_its_node(after[i], response_entries(resp)[j], nodes[next]);
            assert(names_node(after[i], nodes[next]));
        }
    }
}

/// Where a node is asked: over plain addresses, `http://`, the node's
/// address, `:` and the journal port, followed by exactly the configured
/// journal path; over IPv6 addresses, the address in brackets and a `/`
/// between the port and the path. Asking from a cursor adds `?cursor=` and
/// the cursor to that address and changes nothing else.
pub proof fn lemma_format_url_shape(ip: Seq<char>, config: Config, c: Seq<char>)
    ensures
        ({
            let url = spec_format_url(None, ip, config);
            let head = if config.use_ipv6 {
                "http://["@ + ip + "]:"@ + config.journal_port@ + "/"@
            } else {
                "http://"@ + ip + ":"@ + config.journal_port@
            };
            &&& url.len() == head.len() + config.log_path@.len()
            &&& url.take(head.len() as int) == head
            &&& url.skip(head.len() as int) == config.log_path@
        }),
        spec_format_url(Some(c), ip, config) == spec_format_url(None, ip, config) + "?cursor="@ + c,
{
    let url = spec_format_url(None, ip, config);
    let head = if config.use_ipv6 {
        "http://["@ + ip + "]:"@ + config.journal_port@ + "/"@
    } else {
        "http://"@ + ip + ":"@ + config.journal_port@
    };
    assert(url =~= head + config.log_path@);
    assert((head + config.log_path@).take(head.len() as int) =~= head);
    assert((head + config.log_path@).skip(head.len() as int) =~= config.log_path@);
}

/// The cursor a node's answer leaves recorded is taken from the answer's
/// last entry, the one at position `len - 1`: when that entry's
/// `__cursor` is the string `c`, `c` is recorded for the node; when it is
/// no string, nothing is recorded.
pub proof fn lemma_cursor_from_last_entry(
    cursors: Map<Seq<char>, Seq<char>>,
    entries: Vec<Json>,
    ip: Seq<char>,
)
    requires
        entries@.len() > 0,
    ensures
        ({
            let last = entries@[entries@.len() - 1];
            let resp = Json::Array(entries);
            &&& (index_key(last, "__cursor"@) matches Json::Str(c) ==> cursors_after(
                cursors,
                resp,
                ip,
            ) == cursors.insert(ip, c@))
            &&& (!(index_key(last, "__cursor"@) is Str) ==> cursors_after(cursors, resp, ip)
                == cursors)
        }),
{
}

/// Handling an answer keeps, in each entry it forwards, every member of
/// the node's entry other than the four labels: the forwarded entry has
/// such a key exactly when the node's entry has it, with the same value.
pub proof fn lemma_forwarded_entries_keep_members(
    before: Seq<Json>,
    after: Seq<Json>,
    resp: Json,
    node: IcNode,
    i: int,
    key: Seq<char>,
)
    requires
        appended_labelled(before, after, resp, node),
        0 <= i < response_entries(resp).len(),
        key != "ic_node"@,
        key != "dc"@,
        key != "ic_subnet"@,
        key != "ip"@,
    ensures
        members(after[before.len() + i]).dom().contains(key) == members(
            response_entries(resp)[i],
        ).dom().contains(key),
        members(response_entries(resp)[i]).dom().contains(key) ==> members(
            after[before.len() + i],
        )[key] == members(response_entries(resp)[i])[key],
{
    let e = after[before.len() + i];
    lemma_labelling_keeps_other_members(members(response_entries(resp)[i]), node, key);
}

} // verus!
