use log_scrapper::ic_node::IcNode;
use log_scrapper::json::{string_member, with_member, Json};
use log_scrapper::scrapper::label_entry;

fn s(text: &str) -> String {
    text.to_string()
}

fn text(t: &str) -> Json {
    Json::Str(s(t))
}

#[test]
fn with_member_sets_and_replaces() {
    let j = with_member(Json::Null, s("a"), Json::Bool(true));
    assert_eq!(j, Json::Object(vec![(s("a"), Json::Bool(true))]));
    let j = with_member(j, s("b"), Json::Number(s("1.5")));
    let j = with_member(j, s("a"), text("x"));
    assert_eq!(
        j,
        Json::Object(vec![(s("a"), text("x")), (s("b"), Json::Number(s("1.5")))])
    );
    assert_eq!(string_member(&j, &s("a")), Some(&s("x")));
    assert_eq!(string_member(&j, &s("b")), None);
    assert_eq!(string_member(&j, &s("c")), None);
}

#[test]
fn later_members_win() {
    let j = Json::Object(vec![(s("__cursor"), text("first")), (s("__cursor"), text("second"))]);
    assert_eq!(string_member(&j, &s("__cursor")), Some(&s("second")));
    let j = with_member(j, s("__cursor"), text("third"));
    assert_eq!(string_member(&j, &s("__cursor")), Some(&s("third")));
}

#[test]
fn string_member_of_non_objects_is_none() {
    assert_eq!(string_member(&Json::Null, &s("a")), None);
    assert_eq!(string_member(&Json::Array(vec![text("a")]), &s("a")), None);
    assert_eq!(string_member(&text("a"), &s("a")), None);
}

#[test]
fn labelling_twice_is_labelling_once() {
    let node = IcNode { ic_node: s("n"), dc: s("d"), ic_subnet: s("sn"), ip: s("1.1.1.1") };
    let entry = || Json::Object(vec![(s("MESSAGE"), text("m"))]);
    let once = label_entry(entry(), &node);
    let twice = label_entry(label_entry(entry(), &node), &node);
    assert_eq!(once, twice);
}
