//! The bounded store of events, and the encoding of one event into the line
//! that goes over the wire.

use crate::clock::{get_time_string, timestamp_text, UtcTime};
use crate::config::{config_of, text_of, Config, ConfigError};
use crate::controller::EventInfo;
use crate::text::{decimal, decimal_digits};
use std::collections::VecDeque;
use vstd::prelude::*;
use vstd::utf8::encode_utf8;

verus! {

/// The most events that leave the store in one batch, and the number of
/// queued events from which a batch is due.
pub const MAX_EVENT_SIZE: usize = 20;

/// The character of the hexadecimal digit `d`, in upper case.
pub open spec fn hex_char(d: int) -> char {
    if d < 10 {
        (d + 48) as u8 as char
    } else {
        (d + 55) as u8 as char
    }
}

/// A byte written as an escape: a percent sign and two hexadecimal digits.
pub open spec fn escape(byte: u8) -> Seq<char> {
    seq!['%', hex_char(byte as int / 16), hex_char(byte as int % 16)]
}

/// The bytes that the simple encode set holds: controls and everything from
/// DEL up.
pub open spec fn in_simple_set(byte: u8) -> bool {
    byte < 0x20 || byte > 0x7E
}

/// The bytes that never go out as they are: those of the simple encode set,
/// and the space, `!`, `$`, `)` and `/`.
pub open spec fn in_encode_set(byte: u8) -> bool {
    byte == 0x20 || byte == 0x21 || byte == 0x24 || byte == 0x29 || byte == 0x2F || in_simple_set(
        byte,
    )
}

/// One byte as it goes over the wire.
pub open spec fn encoded_byte(byte: u8) -> Seq<char> {
    if in_encode_set(byte) {
        escape(byte)
    } else {
        seq![byte as char]
    }
}

/// The percent-encoding of a run of bytes.
pub open spec fn percent_encoded(bytes: Seq<u8>) -> Seq<char>
    decreases bytes.len(),
{
    if bytes.len() == 0 {
        Seq::empty()
    } else {
        percent_encoded(bytes.drop_last()) + encoded_byte(bytes.last())
    }
}

/// The percent-encoding of a text: that of its bytes in UTF-8.
pub open spec fn encoded_text(text: Seq<char>) -> Seq<char> {
    percent_encoded(encode_utf8(text))
}

/// `contains` of `url::percent_encoding::SIMPLE_ENCODE_SET`: true of the
/// bytes below 0x20 and above 0x7E.
#[verifier::external_body]
fn simple_set_contains(byte: u8) -> (yes: bool)
    ensures
        yes == in_simple_set(byte),
{
    url::percent_encoding::EncodeSet::contains(&url::percent_encoding::SIMPLE_ENCODE_SET, byte)
}

/// `url::percent_encoding::percent_encode_byte`: the escape of a byte, with
/// the hexadecimal digits in upper case.
#[verifier::external_body]
fn percent_encode_byte(byte: u8) -> (text: &'static str)
    ensures
        text@ == escape(byte),
{
    url::percent_encoding::percent_encode_byte(byte)
}

/// Whether a byte is escaped.
pub fn is_encoded(byte: u8) -> (yes: bool)
    ensures
        yes == in_encode_set(byte),
{
    byte == 0x20 || byte == 0x21 || byte == 0x24 || byte == 0x29 || byte == 0x2F
        || simple_set_contains(byte)
}

/// Percent-encodes a text, byte by byte.
pub fn encode_value(value: &str) -> (encoded: String)
    ensures
        encoded@ == encoded_text(value@),
{
    let bytes = value.as_bytes();
    let mut encoded = String::new();
    let mut i: usize = 0;
    while i < bytes.len()
        invariant
            i <= bytes@.len(),
            encoded@ == percent_encoded(bytes@.subrange(0, i as int)),
        decreases bytes@.len() - i,
    {
        let byte: u8 = bytes[i];
        if is_encoded(byte) {
            encoded.append(percent_encode_byte(byte));
        } else {
            encoded.push(byte as char);
        }
        proof {
            let done = bytes@.subrange(0, i + 1);
            assert(done.drop_last() =~= bytes@.subrange(0, i as int));
            assert(done.last() == byte);
            assert(encoded@ =~= percent_encoded(done));
        }
        i += 1;
    }
    assert(bytes@.subrange(0, bytes@.len() as int) =~= bytes@);
    encoded
}

/// A line with one more `key=value` field behind it. The key comes with its
/// separator and its equals sign.
pub open spec fn with_field(line: Seq<char>, key: Seq<char>, value: Seq<char>) -> Seq<char> {
    line + key + value
}

fn push_field(line: &mut String, key: &str, value: &str)
    ensures
        final(line)@ == with_field(old(line)@, key@, value@),
{
    line.append(key);
    line.append(value);
}

/// The line of one event: the fields in their fixed order, every text
/// percent-encoded. `value` is the event's value as it stands in the line.
pub open spec fn event_line(
    account: Seq<char>,
    client_id: Seq<char>,
    category: Seq<char>,
    action: Seq<char>,
    label: Seq<char>,
    value: Seq<char>,
    info: EventInfo,
    timestamp: Seq<char>,
) -> Seq<char> {
    let line = with_field(Seq::empty(), "v=1&t=event&tid="@, encoded_text(account));
    let line = with_field(line, "&cid="@, encoded_text(client_id));
    let line = with_field(line, "&ec="@, encoded_text(category));
    let line = with_field(line, "&ea="@, encoded_text(action));
    let line = with_field(line, "&el="@, encoded_text(label));
    let line = with_field(line, "&ev="@, value);
    let line = with_field(line, "&an="@, encoded_text(info.app_name@));
    let line = with_field(line, "&av="@, encoded_text(info.app_version@));
    let line = with_field(line, "&ul="@, encoded_text(info.locale@));
    let line = with_field(line, "&cd1="@, encoded_text(info.os@));
    let line = with_field(line, "&cd2="@, encoded_text(info.os_version@));
    let line = with_field(line, "&cd3="@, encoded_text(info.device@));
    let line = with_field(line, "&cd4="@, encoded_text(info.arch@));
    let line = with_field(line, "&cd5="@, encoded_text(info.app_platform@));
    let line = with_field(line, "&cd6="@, encoded_text(info.app_build_id@));
    with_field(line, "&cd7="@, encoded_text(timestamp))
}

/// The line of an event whose value is a whole number: the value stands in
/// decimal.
pub open spec fn whole_event_line(
    account: Seq<char>,
    client_id: Seq<char>,
    category: Seq<char>,
    action: Seq<char>,
    label: Seq<char>,
    value: u64,
    info: EventInfo,
    timestamp: Seq<char>,
) -> Seq<char> {
    event_line(
        account,
        client_id,
        category,
        action,
        label,
        decimal_digits(value as nat),
        info,
        timestamp,
    )
}

/// The line of an event whose value is a floating-point number: the same
/// fields in the same order, with the number, as the caller wrote it out,
/// percent-encoded like every other text.
pub open spec fn floating_point_event_line(
    account: Seq<char>,
    client_id: Seq<char>,
    category: Seq<char>,
    action: Seq<char>,
    label: Seq<char>,
    number: Seq<char>,
    info: EventInfo,
    timestamp: Seq<char>,
) -> Seq<char> {
    event_line(
        account,
        client_id,
        category,
        action,
        label,
        encoded_text(number),
        info,
        timestamp,
    )
}

/// The body of a batch: its lines with a line feed between one line and the
/// next, and nothing behind the last.
pub open spec fn batch_body(lines: Seq<Seq<char>>) -> Seq<char>
    decreases lines.len(),
{
    if lines.len() == 0 {
        Seq::empty()
    } else if lines.len() == 1 {
        lines[0]
    } else {
        batch_body(lines.drop_last()) + seq!['\n'] + lines.last()
    }
}

/// How many events one drain takes out of a store that holds `queued`.
pub open spec fn batch_len(queued: nat) -> nat {
    if queued < MAX_EVENT_SIZE {
        queued
    } else {
        MAX_EVENT_SIZE as nat
    }
}

/// The lines that one drain takes out of a store: the oldest, a batch at most.
pub open spec fn drained(store: Seq<Seq<char>>) -> Seq<Seq<char>> {
    store.take(batch_len(store.len()) as int)
}

/// The lines that one drain leaves in a store.
pub open spec fn left_over(store: Seq<Seq<char>>) -> Seq<Seq<char>> {
    store.skip(batch_len(store.len()) as int)
}

/// A store after `lines` have been inserted one by one.
pub open spec fn after_inserts(store: Seq<Seq<char>>, lines: Seq<Seq<char>>) -> Seq<Seq<char>>
    decreases lines.len(),
{
    if lines.len() == 0 {
        store
    } else {
        after_inserts(store, lines.drop_last()).push(lines.last())
    }
}

/// Whether a store holds a full batch.
pub open spec fn time_to_send(store: Seq<Seq<char>>) -> bool {
    store.len() >= MAX_EVENT_SIZE
}

/// Inserting lines one by one puts them behind what the store held, in the
/// order in which they came.
pub proof fn lemma_inserts_append(store: Seq<Seq<char>>, lines: Seq<Seq<char>>)
    ensures
        after_inserts(store, lines) == store + lines,
    decreases lines.len(),
{
    if lines.len() == 0 {
        assert(store + lines =~= store);
    } else {
        lemma_inserts_append(store, lines.drop_last());
        assert((store + lines.drop_last()).push(lines.last()) =~= store + lines);
    }
}

/// After any number of insertions into an empty store, one drain yields the
/// first 20 of the lines, or all of them if they are fewer, in the order in
/// which they were inserted, and leaves the others in the store.
pub proof fn lemma_drain_yields_oldest(lines: Seq<Seq<char>>)
    ensures
        drained(after_inserts(Seq::empty(), lines)) == lines.take(
            batch_len(lines.len()) as int,
        ),
        drained(after_inserts(Seq::empty(), lines)).len() == batch_len(lines.len()),
        left_over(after_inserts(Seq::empty(), lines)) == lines.skip(
            batch_len(lines.len()) as int,
        ),
        left_over(after_inserts(Seq::empty(), lines)).len() == lines.len() - batch_len(
            lines.len(),
        ),
{
    lemma_inserts_append(Seq::empty(), lines);
    assert(Seq::<Seq<char>>::empty() + lines =~= lines);
}

/// After fewer than 40 insertions into an empty store, one drain leaves at
/// most `n % 20` lines where `n` lines were inserted, and at most `n` where
/// they were fewer than 20. From 40 insertions on more than that stay behind:
/// one drain never takes more than 20.
pub proof fn lemma_drain_leaves_remainder(lines: Seq<Seq<char>>)
    requires
        lines.len() < 2 * MAX_EVENT_SIZE,
    ensures
        lines.len() < MAX_EVENT_SIZE ==> left_over(after_inserts(Seq::empty(), lines)).len()
            <= lines.len(),
        lines.len() >= MAX_EVENT_SIZE ==> left_over(after_inserts(Seq::empty(), lines)).len()
            <= lines.len() % MAX_EVENT_SIZE as nat,
{
    lemma_drain_yields_oldest(lines);
}

/// A batch is due exactly when 20 lines or more are queued, whatever was
/// inserted or drained before: an insertion makes the count one more, a drain
/// takes a batch off it.
pub proof fn lemma_time_to_send_follows_count(store: Seq<Seq<char>>, line: Seq<char>)
    ensures
        time_to_send(store) <==> store.len() >= 20,
        time_to_send(store.push(line)) <==> store.len() + 1 >= 20,
        time_to_send(left_over(store)) <==> store.len() - batch_len(store.len()) >= 20,
{
}

/// The events that wait to be sent, oldest first, each already encoded.
pub struct Events {
    event_storage: VecDeque<String>,
    event_info: EventInfo,
    client_id: String,
    account: String,
}

impl View for Events {
    type V = Seq<Seq<char>>;

    /// The queued lines, oldest first.
    closed spec fn view(&self) -> Seq<Seq<char>> {
        Seq::new(self.event_storage@.len(), |i: int| self.event_storage@[i]@)
    }
}

impl Events {
    /// The identity that every line of this store carries.
    pub closed spec fn info(&self) -> EventInfo {
        self.event_info
    }

    /// The client id that every line of this store carries.
    pub closed spec fn client(&self) -> Seq<char> {
        self.client_id@
    }

    /// The analytics account that every line of this store names.
    pub closed spec fn account_id(&self) -> Seq<char> {
        self.account@
    }

    /// Everything but the queue is as it was in `before`.
    pub open spec fn same_sender(&self, before: &Events) -> bool {
        &&& self.info() == before.info()
        &&& self.client() == before.client()
        &&& self.account_id() == before.account_id()
    }

    /// The line that this store writes for an event.
    pub open spec fn line(
        &self,
        category: Seq<char>,
        action: Seq<char>,
        label: Seq<char>,
        value: u64,
        timestamp: Seq<char>,
    ) -> Seq<char> {
        whole_event_line(
            self.account_id(),
            self.client(),
            category,
            action,
            label,
            value,
            self.info(),
            timestamp,
        )
    }

    /// The line that this store writes for an event whose value is a
    /// floating-point number.
    pub open spec fn floating_point_line(
        &self,
        category: Seq<char>,
        action: Seq<char>,
        label: Seq<char>,
        number: Seq<char>,
        timestamp: Seq<char>,
    ) -> Seq<char> {
        floating_point_event_line(
            self.account_id(),
            self.client(),
            category,
            action,
            label,
            number,
            self.info(),
            timestamp,
        )
    }

    /// An empty store for one application, one client id and one account.
    pub fn new(event_info: EventInfo, client_id: String, account: String) -> (events: Events)
        ensures
            events@ == Seq::<Seq<char>>::empty(),
            events.info() == event_info,
            events.client() == client_id@,
            events.account_id() == account@,
    {
        let events = Events {
            event_storage: VecDeque::with_capacity(MAX_EVENT_SIZE),
            event_info,
            client_id,
            account,
        };
        assert(events@ =~= Seq::<Seq<char>>::empty());
        events
    }

    /// Encodes one event with the given timestamp.
    pub fn encode_event(
        &self,
        event_category: &str,
        event_action: &str,
        event_label: &str,
        event_value: u64,
        timestamp: &str,
    ) -> (line: String)
        ensures
            line@ == self.line(
                event_category@,
                event_action@,
                event_label@,
                event_value,
                timestamp@,
            ),
    {
        let value = decimal(event_value);
        self.encode_line(event_category, event_action, event_label, value.as_str(), timestamp)
    }

    /// Encodes one event whose value is a floating-point number, with the
    /// given timestamp. `event_value` is the number as the caller writes it.
    pub fn encode_floating_point_event(
        &self,
        event_category: &str,
        event_action: &str,
        event_label: &str,
        event_value: &str,
        timestamp: &str,
    ) -> (line: String)
        ensures
            line@ == self.floating_point_line(
                event_category@,
                event_action@,
                event_label@,
                event_value@,
                timestamp@,
            ),
    {
        let value = encode_value(event_value);
        self.encode_line(event_category, event_action, event_label, value.as_str(), timestamp)
    }

    /// Writes the line of one event around the text of its value.
    fn encode_line(
        &self,
        event_category: &str,
        event_action: &str,
        event_label: &str,
        event_value: &str,
        timestamp: &str,
    ) -> (line: String)
        ensures
            line@ == event_line(
                self.account_id(),
                self.client(),
                event_category@,
                event_action@,
                event_label@,
                event_value@,
                self.info(),
                timestamp@,
            ),
    {
        let mut line = String::new();
        push_field(&mut line, "v=1&t=event&tid=", encode_value(self.account.as_str()).as_str());
        push_field(&mut line, "&cid=", encode_value(self.client_id.as_str()).as_str());
        push_field(&mut line, "&ec=", encode_value(event_category).as_str());
        push_field(&mut line, "&ea=", encode_value(event_action).as_str());
        push_field(&mut line, "&el=", encode_value(event_label).as_str());
        push_field(&mut line, "&ev=", event_value);
        push_field(&mut line, "&an=", encode_value(self.event_info.app_name.as_str()).as_str());
        push_field(&mut line, "&av=", encode_value(self.event_info.app_version.as_str()).as_str());
        push_field(&mut line, "&ul=", encode_value(self.event_info.locale.as_str()).as_str());
        push_field(&mut line, "&cd1=", encode_value(self.event_info.os.as_str()).as_str());
        push_field(&mut line, "&cd2=", encode_value(self.event_info.os_version.as_str()).as_str());
        push_field(&mut line, "&cd3=", encode_value(self.event_info.device.as_str()).as_str());
        push_field(&mut line, "&cd4=", encode_value(self.event_info.arch.as_str()).as_str());
        push_field(
            &mut line,
            "&cd5=",
            encode_value(self.event_info.app_platform.as_str()).as_str(),
        );
        push_field(
            &mut line,
            "&cd6=",
            encode_value(self.event_info.app_build_id.as_str()).as_str(),
        );
        push_field(&mut line, "&cd7=", encode_value(timestamp).as_str());
        line
    }

    /// Puts an encoded line at the end of the queue.
    fn store(&mut self, line: String)
        ensures
            final(self)@ == old(self)@.push(line@),
            final(self).same_sender(old(self)),
    {
        self.event_storage.push_back(line);
        assert(self@ =~= old(self)@.push(line@));
    }

    /// Queues one event under the given timestamp. Always succeeds: the store
    /// takes any number of events between two drains.
    pub fn insert_event_at(
        &mut self,
        event_category: &str,
        event_action: &str,
        event_label: &str,
        event_value: u64,
        timestamp: &str,
    ) -> (ok: bool)
        ensures
            ok,
            final(self)@ == old(self)@.push(
                old(self).line(
                    event_category@,
                    event_action@,
                    event_label@,
                    event_value,
                    timestamp@,
                ),
            ),
            final(self).same_sender(old(self)),
    {
        let line = self.encode_event(
            event_category,
            event_action,
            event_label,
            event_value,
            timestamp,
        );
        self.store(line);
        true
    }

    /// Queues one event under the present time.
    pub fn insert_event(
        &mut self,
        event_category: &str,
        event_action: &str,
        event_label: &str,
        event_value: u64,
    ) -> (ok: bool)
        ensures
            ok,
            exists|t: UtcTime|
                t.in_range() && final(self)@ == old(self)@.push(
                    old(self).line(
                        event_category@,
                        event_action@,
                        event_label@,
                        event_value,
                        timestamp_text(t),
                    ),
                ),
            final(self).same_sender(old(self)),
    {
        let timestamp = get_time_string();
        self.insert_event_at(
            event_category,
            event_action,
            event_label,
            event_value,
            timestamp.as_str(),
        )
    }

    /// Queues one event whose value is a floating-point number, under the
    /// given timestamp. `event_value` is the number as the caller writes it.
    pub fn insert_floating_point_event_at(
        &mut self,
        event_category: &str,
        event_action: &str,
        event_label: &str,
        event_value: &str,
        timestamp: &str,
    ) -> (ok: bool)
        ensures
            ok,
            final(self)@ == old(self)@.push(
                old(self).floating_point_line(
                    event_category@,
                    event_action@,
                    event_label@,
                    event_value@,
                    timestamp@,
                ),
            ),
            final(self).same_sender(old(self)),
    {
        let line = self.encode_floating_point_event(
            event_category,
            event_action,
            event_label,
            event_value,
            timestamp,
        );
        self.store(line);
        true
    }

    /// Queues one event whose value is a floating-point number, under the
    /// present time.
    pub fn insert_floating_point_event(
        &mut self,
        event_category: &str,
        event_action: &str,
        event_label: &str,
        event_value: &str,
    ) -> (ok: bool)
        ensures
            ok,
            exists|t: UtcTime|
                t.in_range() && final(self)@ == old(self)@.push(
                    old(self).floating_point_line(
                        event_category@,
                        event_action@,
                        event_label@,
                        event_value@,
                        timestamp_text(t),
                    ),
                ),
            final(self).same_sender(old(self)),
    {
        let timestamp = get_time_string();
        self.insert_floating_point_event_at(
            event_category,
            event_action,
            event_label,
            event_value,
            timestamp.as_str(),
        )
    }

    /// Whether a full batch is waiting.
    pub fn is_time_to_send(&mut self) -> (due: bool)
        ensures
            due == time_to_send(old(self)@),
            *final(self) == *old(self),
    {
        self.event_storage.len() >= MAX_EVENT_SIZE
    }

    /// Whether nothing is waiting.
    pub fn is_empty(&mut self) -> (empty: bool)
        ensures
            empty == (old(self)@.len() == 0),
            *final(self) == *old(self),
    {
        self.event_storage.len() == 0
    }

    /// Takes the oldest events out of the store, `MAX_EVENT_SIZE` at most, and
    /// hands them back as one body: the lines in the order in which they came
    /// in, joined by line feeds.
    pub fn get_events_as_body(&mut self) -> (body: String)
        ensures
            body@ == batch_body(drained(old(self)@)),
            final(self)@ == left_over(old(self)@),
            final(self).same_sender(old(self)),
    {
        let mut body = String::new();
        let mut i: usize = 0;
        while i < MAX_EVENT_SIZE && self.event_storage.len() > 0
            invariant
                i <= MAX_EVENT_SIZE,
                i <= old(self)@.len(),
                self@ == old(self)@.skip(i as int),
                body@ == batch_body(old(self)@.take(i as int)),
                self.same_sender(old(self)),
            decreases MAX_EVENT_SIZE - i,
        {
            let ghost before = self@;
            match self.event_storage.pop_front() {
                Some(line) => {
                    if i > 0 {
                        body.push('\n');
                    }
                    body.append(line.as_str());
                    proof {
                        assert(before.len() == old(self)@.len() - i);
                        let taken = old(self)@.take(i + 1);
                        assert(line@ == before[0]);
                        assert(taken.drop_last() =~= old(self)@.take(i as int));
                        assert(taken.last() == line@);
                        assert(body@ =~= batch_body(taken));
                        assert forall|j: int| 0 <= j < self@.len() implies self@[j] == before[j + 1] by {
                        }
                        assert(self@ =~= old(self)@.skip(i + 1));
                    }
                },
                None => {},
            }
            i += 1;
        }
        body
    }
}

/// The configuration's name for the client id.
pub const KEY_CID: &'static str = "cid";

/// The client id of this installation.
pub struct ClientId {
    /// The id itself.
    pub cid: String,
    /// The JSON document to keep for the next start, where the id is new.
    pub to_store: Option<String>,
}

/// The JSON document that keeps a client id: `{"cid":"..."}`.
pub open spec fn client_id_document(cid: Seq<char>) -> Seq<char> {
    "{\""@ + KEY_CID@ + "\":\""@ + cid + "\"}"@
}

/// A hexadecimal digit in lower case.
pub open spec fn is_lower_hex(c: char) -> bool {
    48 <= c as u32 <= 57 || 97 <= c as u32 <= 102
}

/// The text of a random UUID: 32 hexadecimal digits in lower case, in groups
/// of 8, 4, 4, 4 and 12 with a hyphen between two groups. The third group
/// begins with the version, 4, and the fourth with the variant, which is one
/// of `8`, `9`, `a` and `b`.
pub open spec fn is_random_uuid(text: Seq<char>) -> bool {
    &&& text.len() == 36
    &&& forall|i: int|
        0 <= i < 36 ==> if i == 8 || i == 13 || i == 18 || i == 23 {
            #[trigger] text[i] == '-'
        } else {
            is_lower_hex(text[i])
        }
    &&& text[14] == '4'
    &&& text[19] == '8' || text[19] == '9' || text[19] == 'a' || text[19] == 'b'
}

/// `uuid::Uuid::new_v4`, written out through `Uuid::hyphenated`: a random
/// identifier. Which one comes back is left open; its text has the shape
/// that the version and variant bits and the hyphenated format give it.
#[verifier::external_body]
pub(crate) fn new_uuid() -> (text: String)
    ensures
        is_random_uuid(text@),
{
    uuid::Uuid::new_v4().hyphenated().to_string()
}

/// Writes the JSON document that keeps a client id.
pub fn client_id_json(cid: &str) -> (document: String)
    ensures
        document@ == client_id_document(cid@),
{
    let mut document = String::new();
    document.append("{\"");
    document.append(KEY_CID);
    document.append("\":\"");
    document.append(cid);
    document.append("\"}");
    assert(document@ =~= client_id_document(cid@));
    document
}

/// The client id of this installation. `stored` is the document that an
/// earlier start has kept, if there is one: the id is then the text that it
/// holds under `cid`, and a document without one is an error. Without a
/// document a new random UUID is made, and comes back together with the
/// document that keeps it.
pub fn get_client_id(stored: Option<&str>) -> (id: Result<ClientId, ConfigError>)
    ensures
        match stored {
            Some(text) => match id {
                Ok(found) => text_of(config_of(text@), KEY_CID@) == Ok::<
                    Seq<char>,
                    ConfigError,
                >(found.cid@) && found.to_store is None,
                Err(e) => text_of(config_of(text@), KEY_CID@) == Err::<
                    Seq<char>,
                    ConfigError,
                >(e),
            },
            None => {
                &&& id matches Ok(made)
                &&& is_random_uuid(made.cid@)
                &&& made.to_store matches Some(document)
                &&& document@ == client_id_document(made.cid@)
            },
        },
{
    match stored {
        Some(text) => {
            let mut cfg = Config::new();
            cfg.parse_json(text);
            match cfg.read_string(KEY_CID) {
                Ok(cid) => Ok(ClientId { cid, to_store: None }),
                Err(e) => Err(e),
            }
        },
        None => {
            let cid = new_uuid();
            let document = client_id_json(cid.as_str());
            Ok(ClientId { cid, to_store: Some(document) })
        },
    }
}

} // verus!
