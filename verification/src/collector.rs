//! The collector actor's state: per-sender aggregation of received lines
//! and rendering of snapshot reports.
//!
//! The aggregated state is owned by exactly one actor task; every other
//! component holds only a mailbox handle and sends [`Message`] values.  The
//! actor applies each message through [`handle_message`]: a text message is
//! recorded in arrival order under its sender's key, and a report request
//! is answered with a rendered snapshot on the request's one-shot reply
//! slot.  The snapshot is a serialized copy; the state itself is never
//! shared.

use crate::channels::oneshot_send;
use tokio::sync::oneshot;
use vstd::prelude::*;
use vstd::string::StringExecFns;

verus! {

broadcast use vstd::string::group_string_axioms;

/// A message sent from a client's connection handler to the collector.
#[derive(Debug)]
pub enum Message {
    /// Just some text.
    Text {
        /// Origin of message.
        sender: String,
        /// Message content.
        content: String,
    },
    /// Request for the current message report.
    Report {
        /// A oneshot channel for sending the reply.
        reply: oneshot::Sender<String>,
    },
}

/// The reserved line that requests a snapshot report from the collector.
///
/// A line matches with no terminator, a bare newline, or a
/// carriage-return-newline pair.
pub open spec fn is_report_line(s: Seq<char>) -> bool {
    s == "report"@ || s == "report\n"@ || s == "report\r\n"@
}

/// If `line` is `"report"` or `"report\n"` or `"report\r\n"`, return `true`.
pub fn is_report(line: &str) -> (r: bool)
    ensures
        r == is_report_line(line@),
{
    let l = line.to_owned();
    l == String::from_str("report") || l == String::from_str("report\n") || l == String::from_str(
        "report\r\n",
    )
}

/// A snapshot of the aggregated state: one pair per sender, in the order
/// the senders first appeared, each carrying that sender's lines in
/// arrival order.
pub type Snapshot = Seq<(Seq<char>, Seq<Seq<char>>)>;

/// One sender's aggregation: its key and its lines in arrival order.
#[derive(Debug)]
pub struct Entry {
    /// The sender this entry aggregates for.
    pub key: String,
    /// The sender's lines, oldest first.
    pub values: Vec<String>,
}

impl View for Entry {
    type V = (Seq<char>, Seq<Seq<char>>);

    open spec fn view(&self) -> Self::V {
        (self.key@, self.values.deep_view())
    }
}

/// The index of the entry for `k`, or -1 when no entry carries that key.
pub open spec fn find_key(m: Snapshot, k: Seq<char>) -> int
    decreases m.len(),
{
    if m.len() == 0 {
        -1
    } else if m[0].0 == k {
        0
    } else {
        let r = find_key(m.drop_first(), k);
        if r == -1 {
            -1
        } else {
            r + 1
        }
    }
}

/// Whether some entry carries the key `k`.
pub open spec fn has_key(m: Snapshot, k: Seq<char>) -> bool {
    find_key(m, k) >= 0
}

/// The lines aggregated for `k`, oldest first; empty when `k` never sent.
pub open spec fn values_of(m: Snapshot, k: Seq<char>) -> Seq<Seq<char>> {
    if has_key(m, k) {
        m[find_key(m, k)].1
    } else {
        Seq::empty()
    }
}

/// Every sender has at most one entry.
pub open spec fn distinct_keys(m: Snapshot) -> bool {
    forall|i: int, j: int| 0 <= i < j < m.len() ==> m[i].0 != m[j].0
}

/// How recording one line changes a snapshot: the line is appended to its
/// sender's sequence, and a sender that never sent before gains a fresh
/// entry at the end.
pub open spec fn record_step(m: Snapshot, k: Seq<char>, v: Seq<char>) -> Snapshot {
    if has_key(m, k) {
        m.update(find_key(m, k), (k, m[find_key(m, k)].1.push(v)))
    } else {
        m.push((k, seq![v]))
    }
}

/// What `find_key` finds: the first entry carrying the key, or nothing
/// anywhere when it answers -1.
proof fn lemma_find_key_spec(m: Snapshot, k: Seq<char>)
    ensures
        -1 <= find_key(m, k) < m.len(),
        find_key(m, k) == -1 ==> forall|j: int| 0 <= j < m.len() ==> m[j].0 != k,
        find_key(m, k) >= 0 ==> m[find_key(m, k)].0 == k,
        forall|j: int| 0 <= j < find_key(m, k) ==> m[j].0 != k,
    decreases m.len(),
{
    if m.len() == 0 {
    } else if m[0].0 == k {
    } else {
        let tail = m.drop_first();
        lemma_find_key_spec(tail, k);
        assert forall|j: int| 0 <= j < m.len() && (find_key(m, k) == -1 || j < find_key(
            m,
            k,
        )) implies m[j].0 != k by {
            if j > 0 {
                assert(m[j] == tail[j - 1]);
            }
        }
    }
}

/// `find_key` answers `i` exactly when the entry at `i` carries the key
/// and no earlier entry does.
proof fn lemma_find_key_at(m: Snapshot, k: Seq<char>, i: int)
    requires
        0 <= i < m.len(),
        m[i].0 == k,
        forall|j: int| 0 <= j < i ==> m[j].0 != k,
    ensures
        find_key(m, k) == i,
    decreases m.len(),
{
    if i == 0 {
    } else {
        let tail = m.drop_first();
        assert forall|j: int| 0 <= j < i - 1 implies tail[j].0 != k by {
            assert(tail[j] == m[j + 1]);
        }
        assert(tail[i - 1] == m[i]);
        lemma_find_key_at(tail, k, i - 1);
        assert(m[0].0 != k);
    }
}

/// `find_key` looks only at the keys: snapshots with the same keys in the
/// same places agree on it.
proof fn lemma_find_key_same_keys(m1: Snapshot, m2: Snapshot, k: Seq<char>)
    requires
        m1.len() == m2.len(),
        forall|j: int| 0 <= j < m1.len() ==> m1[j].0 == m2[j].0,
    ensures
        find_key(m1, k) == find_key(m2, k),
    decreases m1.len(),
{
    if m1.len() > 0 && m1[0].0 != k {
        let t1 = m1.drop_first();
        let t2 = m2.drop_first();
        assert forall|j: int| 0 <= j < t1.len() implies t1[j].0 == t2[j].0 by {
            assert(t1[j] == m1[j + 1]);
            assert(t2[j] == m2[j + 1]);
        }
        lemma_find_key_same_keys(t1, t2, k);
    }
}

/// What one recording step does, seen through lookups: the sender's
/// sequence gains the line at its end, and every other sender's aggregation
/// is untouched.
pub proof fn lemma_record_step(m: Snapshot, k: Seq<char>, v: Seq<char>)
    requires
        distinct_keys(m),
    ensures
        distinct_keys(record_step(m, k, v)),
        has_key(record_step(m, k, v), k),
        values_of(record_step(m, k, v), k) == values_of(m, k).push(v),
        forall|k2: Seq<char>| k2 != k ==> #[trigger] has_key(record_step(m, k, v), k2) == has_key(
            m,
            k2,
        ),
        forall|k2: Seq<char>| k2 != k ==> #[trigger] values_of(record_step(m, k, v), k2)
            == values_of(m, k2),
{
    lemma_find_key_spec(m, k);
    if has_key(m, k) {
        let i = find_key(m, k);
        assert forall|j: int| 0 <= j < record_step(m, k, v).len() implies record_step(m, k, v)[j].0
            == m[j].0 by {}
        lemma_find_key_same_keys(record_step(m, k, v), m, k);
        assert(values_of(record_step(m, k, v), k) == values_of(m, k).push(v));
    } else {
        lemma_find_key_at(record_step(m, k, v), k, m.len() as int);
        assert(values_of(record_step(m, k, v), k) =~= values_of(m, k).push(v));
        assert forall|i1: int, j1: int|
            0 <= i1 < j1 < record_step(m, k, v).len() implies record_step(m, k, v)[i1].0
            != record_step(m, k, v)[j1].0 by {}
    }
    assert forall|k2: Seq<char>| k2 != k implies #[trigger] has_key(record_step(m, k, v), k2)
        == has_key(m, k2) && values_of(record_step(m, k, v), k2) == values_of(m, k2) by {
        lemma_find_key_spec(m, k2);
        if has_key(m, k) {
            let i = find_key(m, k);
            lemma_find_key_same_keys(record_step(m, k, v), m, k2);
            if has_key(m, k2) {
                assert(m[find_key(m, k2)].0 == k2);
                assert(find_key(m, k2) != i);
                assert(record_step(m, k, v)[find_key(m, k2)] == m[find_key(m, k2)]);
            }
        } else {
            if has_key(m, k2) {
                let i2 = find_key(m, k2);
                assert(record_step(m, k, v)[i2] == m[i2]);
                lemma_find_key_at(record_step(m, k, v), k2, i2);
            } else {
                lemma_find_key_spec(record_step(m, k, v), k2);
                if has_key(record_step(m, k, v), k2) {
                    assert(record_step(m, k, v)[find_key(record_step(m, k, v), k2)].0 == k2);
                    assert(false);
                }
            }
        }
    }
    assert forall|k2: Seq<char>| k2 != k implies #[trigger] values_of(record_step(m, k, v), k2)
        == values_of(m, k2) by {
        assert(has_key(record_step(m, k, v), k2) == has_key(m, k2));
    }
}

/// Aggregation is order-preserving per sender: recording three lines from
/// one sender appends exactly those lines, in that order, to that sender's
/// sequence, and leaves every other sender's aggregation untouched.
pub proof fn lemma_aggregation_order_preserving(
    m: Snapshot,
    k: Seq<char>,
    x: Seq<char>,
    y: Seq<char>,
    z: Seq<char>,
)
    requires
        distinct_keys(m),
    ensures
        values_of(record_step(record_step(record_step(m, k, x), k, y), k, z), k) == values_of(m, k)
            + seq![x, y, z],
        forall|k2: Seq<char>| k2 != k ==> #[trigger] values_of(
            record_step(record_step(record_step(m, k, x), k, y), k, z),
            k2,
        ) == values_of(m, k2),
{
    let m1 = record_step(m, k, x);
    let m2 = record_step(m1, k, y);
    let m3 = record_step(m2, k, z);
    lemma_record_step(m, k, x);
    lemma_record_step(m1, k, y);
    lemma_record_step(m2, k, z);
    assert(values_of(m3, k) =~= values_of(m, k) + seq![x, y, z]);
}

/// The state the collector aggregates: every sender's lines, in arrival
/// order, keyed by sender and ordered by first appearance.
#[derive(Debug)]
pub struct Aggregate {
    entries: Vec<Entry>,
}

impl View for Aggregate {
    type V = Seq<(Seq<char>, Seq<Seq<char>>)>;

    closed spec fn view(&self) -> Self::V {
        self.entries@.map_values(|e: Entry| e@)
    }
}

impl Aggregate {
    /// The empty aggregation: nobody has sent anything.
    pub fn new() -> (r: Aggregate)
        ensures
            r@ == Seq::<(Seq<char>, Seq<Seq<char>>)>::empty(),
            distinct_keys(r@),
    {
        let r = Aggregate { entries: Vec::new() };
        proof {
            assert(r@ =~= Seq::<(Seq<char>, Seq<Seq<char>>)>::empty());
        }
        r
    }

    /// Append one line to its sender's sequence, creating the sender's
    /// entry if it is absent; arrival order is preserved.
    pub fn record(&mut self, sender: String, content: String)
        requires
            distinct_keys(old(self)@),
        ensures
            final(self)@ == record_step(old(self)@, sender@, content@),
            distinct_keys(final(self)@),
    {
        proof {
            lemma_find_key_spec(old(self)@, sender@);
        }
        let ghost m0 = self@;
        let n: usize = self.entries.len();
        let mut i: usize = 0;
        while i < n
            invariant
                self == old(self),
                m0 == self@,
                n == self.entries.len(),
                0 <= i <= n,
                forall|j: int| 0 <= j < i ==> m0[j].0 != sender@,
                distinct_keys(m0),
            decreases n - i,
        {
            if self.entries[i].key == sender {
                proof {
                    lemma_find_key_at(m0, sender@, i as int);
                }
                let mut e = self.entries.remove(i);
                e.values.push(content);
                self.entries.insert(i, e);
                proof {
                    assert(self@ =~~= record_step(m0, sender@, content@));
                    lemma_record_step(m0, sender@, content@);
                }
                return ;
            }
            i = i + 1;
        }
        self.entries.push(Entry { key: sender, values: vec![content] });
        proof {
            assert(self@ =~~= record_step(m0, sender@, content@));
            lemma_record_step(m0, sender@, content@);
        }
    }

    /// Render the snapshot report that answers a report request: the
    /// aggregation as a pretty-printed JSON object - two-space indent, one
    /// key per sender in first-appearance order, each with the array of its
    /// lines in arrival order - followed by one newline.
    pub fn report_reply(&self) -> (r: String)
        ensures
            r@ == report_text(self@),
    {
        let mut out = String::new();
        let n: usize = self.entries.len();
        if n == 0 {
            out.push('{');
            out.push('}');
            out.push('\n');
            proof {
                assert(out@ =~= report_text(self@));
            }
            return out;
        }
        out.push('{');
        out.push('\n');
        let mut i: usize = 0;
        while i < n
            invariant
                n == self.entries.len(),
                n >= 1,
                0 <= i <= n,
                out@ == seq!['{', '\n'] + json_object_items(self@.take(i as int)),
            decreases n - i,
        {
            let ghost pre = out@;
            if i > 0 {
                out.push(',');
                out.push('\n');
            }
            out.push(' ');
            out.push(' ');
            push_json_string(&mut out, self.entries[i].key.as_str());
            out.push(':');
            out.push(' ');
            push_json_array(&mut out, &self.entries[i].values);
            proof {
                assert(self@.take(i + 1).drop_last() =~= self@.take(i as int));
                assert(self@.take(i + 1).last() == self@[i as int]);
                if i == 0 {
                    assert(out@ =~= seq!['{', '\n'] + json_object_items(self@.take(i + 1)));
                } else {
                    assert(out@ =~= seq!['{', '\n'] + json_object_items(self@.take(i + 1)));
                }
            }
            i = i + 1;
        }
        out.push('\n');
        out.push('}');
        out.push('\n');
        proof {
            assert(self@.take(n as int) =~= self@);
            assert(out@ =~= report_text(self@));
        }
        out
    }
}

/// The character for one hexadecimal digit, lower case.
pub open spec fn hex_char(d: int) -> char {
    if d < 10 {
        (48 + d) as char
    } else {
        (87 + d) as char
    }
}

/// How one character appears inside a JSON string literal: quote,
/// backslash and the named control characters take their two-character
/// escapes, any other control character its four-digit hexadecimal escape,
/// and everything else stands for itself.
pub open spec fn escape_char(c: char) -> Seq<char> {
    if c == '"' {
        seq!['\\', '"']
    } else if c == '\\' {
        seq!['\\', '\\']
    } else if c == '\u{8}' {
        seq!['\\', 'b']
    } else if c == '\u{c}' {
        seq!['\\', 'f']
    } else if c == '\n' {
        seq!['\\', 'n']
    } else if c == '\r' {
        seq!['\\', 'r']
    } else if c == '\t' {
        seq!['\\', 't']
    } else if (c as int) < 32 {
        seq!['\\', 'u', '0', '0', hex_char(c as int / 16), hex_char(c as int % 16)]
    } else {
        seq![c]
    }
}

/// A whole text escaped for a JSON string literal.
pub open spec fn json_escape(s: Seq<char>) -> Seq<char>
    decreases s.len(),
{
    if s.len() == 0 {
        Seq::empty()
    } else {
        json_escape(s.drop_last()) + escape_char(s.last())
    }
}

/// A JSON string literal: the escaped text between quotes.
pub open spec fn json_string(s: Seq<char>) -> Seq<char> {
    seq!['"'] + json_escape(s) + seq!['"']
}

/// The element lines of a non-empty JSON array in the report: one string
/// literal per line, four spaces deep, separated by commas.
pub open spec fn json_array_items(vs: Seq<Seq<char>>) -> Seq<char>
    decreases vs.len(),
{
    if vs.len() == 0 {
        Seq::empty()
    } else if vs.len() == 1 {
        seq![' ', ' ', ' ', ' '] + json_string(vs[0])
    } else {
        json_array_items(vs.drop_last()) + seq![',', '\n'] + seq![' ', ' ', ' ', ' ']
            + json_string(vs.last())
    }
}

/// A JSON array in the report: empty on one line, otherwise one element
/// per line with the closing bracket two spaces deep.
pub open spec fn json_array(vs: Seq<Seq<char>>) -> Seq<char> {
    if vs.len() == 0 {
        seq!['[', ']']
    } else {
        seq!['[', '\n'] + json_array_items(vs) + seq!['\n', ' ', ' ', ']']
    }
}

/// One sender's member line in the report object: the quoted key, a colon,
/// and the array of its lines, two spaces deep.
pub open spec fn json_member(e: (Seq<char>, Seq<Seq<char>>)) -> Seq<char> {
    seq![' ', ' '] + json_string(e.0) + seq![':', ' '] + json_array(e.1)
}

/// The member lines of a non-empty report object, separated by commas.
pub open spec fn json_object_items(m: Snapshot) -> Seq<char>
    decreases m.len(),
{
    if m.len() == 0 {
        Seq::empty()
    } else if m.len() == 1 {
        json_member(m[0])
    } else {
        json_object_items(m.drop_last()) + seq![',', '\n'] + json_member(m.last())
    }
}

/// The report object: empty on one line, otherwise one member per line
/// between braces.
pub open spec fn json_object(m: Snapshot) -> Seq<char> {
    if m.len() == 0 {
        seq!['{', '}']
    } else {
        seq!['{', '\n'] + json_object_items(m) + seq!['\n', '}']
    }
}

/// The full reply to a report request: the object and a final newline.
pub open spec fn report_text(m: Snapshot) -> Seq<char> {
    json_object(m) + seq!['\n']
}

/// The character for one hexadecimal digit, lower case.
fn hex_digit(d: u32) -> (r: char)
    requires
        d < 16,
    ensures
        r == hex_char(d as int),
{
    if d < 10 {
        ((48 + d) as u8) as char
    } else {
        ((87 + d) as u8) as char
    }
}

/// Append one character to `out` in its JSON string-literal form.
fn push_escaped_char(out: &mut String, c: char)
    ensures
        final(out)@ == old(out)@ + escape_char(c),
{
    if c == '"' {
        out.push('\\');
        out.push('"');
    } else if c == '\\' {
        out.push('\\');
        out.push('\\');
    } else if c == '\u{8}' {
        out.push('\\');
        out.push('b');
    } else if c == '\u{c}' {
        out.push('\\');
        out.push('f');
    } else if c == '\n' {
        out.push('\\');
        out.push('n');
    } else if c == '\r' {
        out.push('\\');
        out.push('r');
    } else if c == '\t' {
        out.push('\\');
        out.push('t');
    } else if (c as u32) < 32 {
        let x: u32 = c as u32;
        out.push('\\');
        out.push('u');
        out.push('0');
        out.push('0');
        out.push(hex_digit(x / 16));
        out.push(hex_digit(x % 16));
    } else {
        out.push(c);
    }
    proof {
        assert(out@ =~= old(out)@ + escape_char(c));
    }
}

/// Append a whole text to `out` in its JSON string-literal form.
fn push_escaped(out: &mut String, s: &str)
    ensures
        final(out)@ == old(out)@ + json_escape(s@),
{
    let n: usize = s.unicode_len();
    let mut i: usize = 0;
    while i < n
        invariant
            n == s@.len(),
            0 <= i <= n,
            out@ == old(out)@ + json_escape(s@.take(i as int)),
        decreases n - i,
    {
        let c = s.get_char(i);
        push_escaped_char(out, c);
        proof {
            assert(s@.take(i + 1).drop_last() =~= s@.take(i as int));
            assert(s@.take(i + 1).last() == s@[i as int]);
            assert(out@ =~= old(out)@ + json_escape(s@.take(i + 1)));
        }
        i = i + 1;
    }
    proof {
        assert(s@.take(n as int) =~= s@);
    }
}

/// Append a JSON string literal holding `s` to `out`.
fn push_json_string(out: &mut String, s: &str)
    ensures
        final(out)@ == old(out)@ + json_string(s@),
{
    out.push('"');
    push_escaped(out, s);
    out.push('"');
    proof {
        assert(out@ =~= old(out)@ + json_string(s@));
    }
}

/// Append the report form of one sender's array of lines to `out`.
fn push_json_array(out: &mut String, vs: &Vec<String>)
    ensures
        final(out)@ == old(out)@ + json_array(vs.deep_view()),
{
    let n: usize = vs.len();
    if n == 0 {
        out.push('[');
        out.push(']');
        proof {
            assert(out@ =~= old(out)@ + json_array(vs.deep_view()));
        }
        return ;
    }
    out.push('[');
    out.push('\n');
    let mut i: usize = 0;
    while i < n
        invariant
            n == vs.len(),
            n >= 1,
            0 <= i <= n,
            out@ == old(out)@ + seq!['[', '\n'] + json_array_items(vs.deep_view().take(i as int)),
        decreases n - i,
    {
        if i > 0 {
            out.push(',');
            out.push('\n');
        }
        out.push(' ');
        out.push(' ');
        out.push(' ');
        out.push(' ');
        push_json_string(out, vs[i].as_str());
        proof {
            assert(vs.deep_view().take(i + 1).drop_last() =~= vs.deep_view().take(i as int));
            assert(vs.deep_view().take(i + 1).last() == vs.deep_view()[i as int]);
            assert(out@ =~= old(out)@ + seq!['[', '\n'] + json_array_items(
                vs.deep_view().take(i + 1),
            ));
        }
        i = i + 1;
    }
    out.push('\n');
    out.push(' ');
    out.push(' ');
    out.push(']');
    proof {
        assert(vs.deep_view().take(n as int) =~= vs.deep_view());
        assert(out@ =~= old(out)@ + json_array(vs.deep_view()));
    }
}

/// The outcome of applying one mailbox message.
#[derive(Debug, PartialEq)]
pub enum Handled {
    /// The text was recorded.
    Recorded,
    /// The report was rendered and handed to the requester's reply slot.
    ReportSent,
    /// The report was rendered, but the requester had already abandoned its
    /// reply slot; the undeliverable reply is handed back so the actor can
    /// log and drop it.  The aggregated state is unharmed.
    ReportAbandoned(String),
}

/// Apply one mailbox message to the aggregated state: a text message is
/// recorded under its sender, and a report request is answered - exactly
/// once - with the rendered snapshot on the request's one-shot reply slot,
/// leaving the state unchanged.
pub fn handle_message(state: &mut Aggregate, msg: Message) -> (r: Handled)
    requires
        distinct_keys(old(state)@),
    ensures
        distinct_keys(final(state)@),
        msg matches Message::Text { sender, content } ==> final(state)@ == record_step(
            old(state)@,
            sender@,
            content@,
        ) && r == Handled::Recorded,
        msg is Report ==> final(state)@ == old(state)@ && (r == Handled::ReportSent || (r
            matches Handled::ReportAbandoned(t) && t@ == report_text(old(state)@))),
{
    match msg {
        Message::Text { sender, content } => {
            state.record(sender, content);
            Handled::Recorded
        },
        Message::Report { reply } => {
            let text = state.report_reply();
            match oneshot_send(reply, text) {
                Ok(()) => Handled::ReportSent,
                Err(t) => Handled::ReportAbandoned(t),
            }
        },
    }
}

} // verus!
