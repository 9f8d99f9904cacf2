//! The fake log source: it serves a handful of made-up journal entries on
//! every request, continuing from the cursor it is asked for.

use vstd::prelude::*;
use fake::{Fake, Faker};
use crate::config::{or_default, text_or};
use crate::log_types::TransportLog;

verus! {

/// An ASCII letter or digit.
pub open spec fn is_ascii_alphanumeric(c: char) -> bool {
    ||| 'a' as int <= c as int <= 'z' as int
    ||| 'A' as int <= c as int <= 'Z' as int
    ||| '0' as int <= c as int <= '9' as int
}

/// Text of the kind made up for a text field: 5 to 19 ASCII letters and
/// digits.
pub open spec fn is_fake_text(s: Seq<char>) -> bool {
    &&& 5 <= s.len() < 20
    &&& forall|i: int| 0 <= i < s.len() ==> is_ascii_alphanumeric(#[trigger] s[i])
}

/// The fields of a journal entry, in the order `TransportLog` declares
/// them.
pub type TransportFields = (String, u8, String, String, String, u16, String, u8, String, u8, String, u8);

/// Every text field of `fields` is made-up text.
pub open spec fn fake_fields(fields: TransportFields) -> bool {
    &&& is_fake_text(fields.0@)
    &&& is_fake_text(fields.2@)
    &&& is_fake_text(fields.3@)
    &&& is_fake_text(fields.4@)
    &&& is_fake_text(fields.6@)
    &&& is_fake_text(fields.8@)
    &&& is_fake_text(fields.10@)
}

/// `Faker.fake()` of the `fake` crate, for the fields of a journal entry.
///
/// Each field is drawn at random: numbers uniformly over their type, and
/// text, per the crate's `Dummy<Faker>` impl for `String`, as a length
/// drawn from 5..20 followed by that many characters drawn from the ASCII
/// letters and digits. The contract states that shape of the text fields;
/// nothing is stated of the numbers, which can be any value.
#[verifier::external_body]
fn fake_transport_fields() -> (r: TransportFields)
    ensures
        fake_fields(r),
{
    Faker.fake()
}

/// `rand::random::<u8>()`: a byte drawn at random from the thread's
/// generator. Any byte can come back, so nothing is stated of it.
#[verifier::external_body]
fn random_byte() -> (r: u8) {
    rand::random::<u8>()
}

/// How many entries are served for a random draw: from 1 to 10.
pub fn log_count(draw: u8) -> (n: u8)
    ensures
        n == draw % 10 + 1,
        1 <= n <= 10,
{
    draw % 10 + 1
}

/// The entry made of `fields`, with its cursor replaced by `cursor` when
/// there is one.
pub fn transport_log(fields: TransportFields, cursor: &Option<String>) -> (r: TransportLog)
    ensures
        r._transport == fields.0,
        r.syslog_facility == fields.1,
        r._boot_id == fields.2,
        r.message == fields.3,
        r.syslog_identifier == fields.4,
        r.__realtime_timestamp == fields.5,
        r._hostname == fields.6,
        r._source_monotonic_timestamp == fields.7,
        r._machine_id == fields.8,
        r.__monotonic_timestamp == fields.9,
        r.__cursor == match cursor {
            Some(c) => *c,
            None => fields.10,
        },
        r.priority == fields.11,
{
    let (
        _transport,
        syslog_facility,
        _boot_id,
        message,
        syslog_identifier,
        __realtime_timestamp,
        _hostname,
        _source_monotonic_timestamp,
        _machine_id,
        __monotonic_timestamp,
        made_up_cursor,
        priority,
    ) = fields;
    let __cursor = match cursor {
        Some(c) => c.clone(),
        None => made_up_cursor,
    };
    TransportLog {
        _transport,
        syslog_facility,
        _boot_id,
        message,
        syslog_identifier,
        __realtime_timestamp,
        _hostname,
        _source_monotonic_timestamp,
        _machine_id,
        __monotonic_timestamp,
        __cursor,
        priority,
    }
}

/// Every text field of `log`, but its cursor, is made-up text.
pub open spec fn fake_log(log: TransportLog) -> bool {
    &&& is_fake_text(log._transport@)
    &&& is_fake_text(log._boot_id@)
    &&& is_fake_text(log.message@)
    &&& is_fake_text(log.syslog_identifier@)
    &&& is_fake_text(log._hostname@)
    &&& is_fake_text(log._machine_id@)
}

/// `draw % 10 + 1` made-up entries, the number that a random draw of
/// `draw` gives; when a cursor is given, every entry carries it, and
/// otherwise every entry has a made-up cursor.
pub fn logs_for_draw(draw: u8, cursor: Option<String>) -> (logs: Vec<TransportLog>)
    ensures
        logs@.len() == draw % 10 + 1,
        forall|i: int| 0 <= i < logs@.len() ==> fake_log(#[trigger] logs@[i]),
        forall|i: int|
            0 <= i < logs@.len() ==> match cursor {
                Some(c) => (#[trigger] logs@[i]).__cursor == c,
                None => is_fake_text(logs@[i].__cursor@),
            },
{
    let num_logs = log_count(draw);
    let mut logs: Vec<TransportLog> = Vec::new();
    let mut k: u8 = 0;
    while k < num_logs
        invariant
            k <= num_logs <= 10,
            num_logs == draw % 10 + 1,
            logs@.len() == k,
            forall|i: int| 0 <= i < logs@.len() ==> fake_log(#[trigger] logs@[i]),
            forall|i: int|
                0 <= i < logs@.len() ==> match cursor {
                    Some(c) => (#[trigger] logs@[i]).__cursor == c,
                    None => is_fake_text(logs@[i].__cursor@),
                },
        decreases num_logs - k,
    {
        let log = transport_log(fake_transport_fields(), &cursor);
        logs.push(log);
        k = k + 1;
    }
    logs
}

/// The entries for a random draw (see `logs_for_draw`): from 1 to 10
/// made-up entries; when a cursor is given, every entry carries it, and
/// otherwise every entry has a made-up cursor.
pub fn create_logs(cursor: Option<String>) -> (logs: Vec<TransportLog>)
    ensures
        1 <= logs@.len() <= 10,
        forall|i: int| 0 <= i < logs@.len() ==> fake_log(#[trigger] logs@[i]),
        forall|i: int|
            0 <= i < logs@.len() ==> match cursor {
                Some(c) => (#[trigger] logs@[i]).__cursor == c,
                None => is_fake_text(logs@[i].__cursor@),
            },
{
    let draw = random_byte();
    let logs = logs_for_draw(draw, cursor);
    assert(logs@.len() == draw % 10 + 1);
    logs
}

/// The address the log source listens on: `host:port`, the host and port
/// taken from `HOST` and `PORT` or defaulted to `127.0.0.1` and `5000`.
pub fn bind_address(host: Option<String>, port: Option<String>) -> (r: String)
    ensures
        r@ == or_default(host, "127.0.0.1"@) + ":"@ + or_default(port, "5000"@),
{
    let mut address = text_or(host, "127.0.0.1");
    let port = text_or(port, "5000");
    address.append(":");
    address.append(port.as_str());
    address
}

} // verus!
