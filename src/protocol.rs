//! The line protocol spoken with the worker: commands go out as one JSON
//! object per line; each line that comes back is an event, a response, or
//! neither.
use vstd::prelude::*;
use vstd::string::*;
use crate::json::{
    JsonNode, json_string, is_json_document, json_text, member_value, members, new_object, node_of,
    pack, parse, put_member, quote, single_line, take_field, u64_of, unpack, value_of, value_text,
    json_string_is_single_line,
};

verus! {

/// A command for the worker, with an optional payload.
#[derive(Debug)]
pub struct ExecutorCommand {
    pub cmd_type: String,
    pub id: String,
    pub command: String,
    pub params: Option<serde_json::Value>,
}

/// The worker's reply to a command, identified by the command's id.
#[derive(Debug)]
pub struct ExecutorResponse {
    pub resp_type: String,
    pub id: String,
    pub success: bool,
    pub data: Option<JsonNode>,
    pub error: Option<String>,
}

/// A notification the worker sends on its own, ordered by `sequence`.
#[derive(Debug)]
pub struct ExecutorEvent {
    pub event_type: String,
    pub event: String,
    pub timestamp: serde_json::Number,
    pub sequence: u32,
    pub data: JsonNode,
}

/// What one line of the worker's output turned out to be.
#[derive(Debug)]
pub enum Decoded {
    Event(ExecutorEvent),
    Response(ExecutorResponse),
    Unparsable,
}

/// What a line hands to the host: an event for the event sink, or a
/// response for the response sink.
#[derive(Debug)]
pub enum Delivery {
    Event(ExecutorEvent),
    Response(ExecutorResponse),
}

/// The members of a received JSON object that the protocol reads, each kept
/// only when it has the JSON type that the protocol gives it (`data` and
/// `error` are kept whatever they hold).
#[derive(Debug)]
pub struct Frame {
    pub type_tag: Option<String>,
    pub event: Option<String>,
    pub timestamp: Option<serde_json::Number>,
    pub sequence: Option<u64>,
    pub data: Option<JsonNode>,
    pub id: Option<String>,
    pub success: Option<bool>,
    pub error: Option<JsonNode>,
}

/// The JSON text of an optional payload: `null` when there is none.
pub open spec fn params_text(params: Option<serde_json::Value>) -> Seq<char> {
    match params {
        Some(v) => json_text(v),
        None => "null"@,
    }
}

/// The JSON object that carries a command.
pub open spec fn command_json(c: ExecutorCommand) -> Seq<char> {
    "{\"type\":"@ + json_string(c.cmd_type@) + ",\"id\":"@ + json_string(c.id@) + ",\"command\":"@
        + json_string(c.command@) + ",\"params\":"@ + params_text(c.params) + "}"@
}

/// The line that carries a command: its JSON object, then a line feed.
pub open spec fn command_line(c: ExecutorCommand) -> Seq<char> {
    command_json(c) + "\n"@
}

/// Whether a payload is an object with exactly one member, `key`, whose
/// value is the string `text`.
pub open spec fn is_text_object(p: Option<serde_json::Value>, key: Seq<char>, text: Seq<char>) -> bool {
    match p {
        Some(v) => match node_of(v) {
            JsonNode::Object(m) => {
                &&& members(m).dom() == set![key]
                &&& match node_of(members(m)[key]) {
                    JsonNode::Text(t) => t@ == text,
                    _ => false,
                }
            },
            _ => false,
        },
        None => false,
    }
}

/// The event that a frame holds, when it has every member an event needs.
pub open spec fn event_of(f: Frame) -> Option<ExecutorEvent> {
    if f.type_tag is Some && f.event is Some && f.timestamp is Some && f.sequence is Some
        && f.sequence->0 <= u32::MAX && f.data is Some {
        Some(
            ExecutorEvent {
                event_type: f.type_tag->0,
                event: f.event->0,
                timestamp: f.timestamp->0,
                sequence: f.sequence->0 as u32,
                data: f.data->0,
            },
        )
    } else {
        None
    }
}

/// An optional member: absent and `null` both mean that there is none.
pub open spec fn optional_member(n: Option<JsonNode>) -> Option<JsonNode> {
    match n {
        Some(JsonNode::Null) => None,
        other => other,
    }
}

/// Whether an `error` member is absent, `null`, or a string.
pub open spec fn error_member_ok(n: Option<JsonNode>) -> bool {
    match n {
        None => true,
        Some(JsonNode::Null) => true,
        Some(JsonNode::Text(_)) => true,
        _ => false,
    }
}

/// The error text that an acceptable `error` member holds.
pub open spec fn error_text(n: Option<JsonNode>) -> Option<String> {
    match n {
        Some(JsonNode::Text(s)) => Some(s),
        _ => None,
    }
}

/// The response that a frame holds, when it has every member a response
/// needs.
pub open spec fn response_of(f: Frame) -> Option<ExecutorResponse> {
    if f.type_tag is Some && f.id is Some && f.success is Some && error_member_ok(f.error) {
        Some(
            ExecutorResponse {
                resp_type: f.type_tag->0,
                id: f.id->0,
                success: f.success->0,
                data: optional_member(f.data),
                error: error_text(f.error),
            },
        )
    } else {
        None
    }
}

/// A frame is read as an event first, then as a response.
pub open spec fn decoded_of(f: Frame) -> Decoded {
    match event_of(f) {
        Some(e) => Decoded::Event(e),
        None => match response_of(f) {
            Some(r) => Decoded::Response(r),
            None => Decoded::Unparsable,
        },
    }
}

/// Where a decoded line goes: unparsable lines go nowhere.
pub open spec fn delivery_of(d: Decoded) -> Option<Delivery> {
    match d {
        Decoded::Event(e) => Some(Delivery::Event(e)),
        Decoded::Response(r) => Some(Delivery::Response(r)),
        Decoded::Unparsable => None,
    }
}

/// What the sinks receive from a run of decoded lines, in order.
pub open spec fn deliveries(ds: Seq<Decoded>) -> Seq<Delivery>
    decreases ds.len(),
{
    if ds.len() == 0 {
        Seq::empty()
    } else {
        let rest = deliveries(ds.drop_last());
        match delivery_of(ds.last()) {
            Some(x) => rest.push(x),
            None => rest,
        }
    }
}

/// Appends a string as a JSON string literal.
pub(crate) fn push_quoted(out: &mut String, s: &str)
    ensures
        final(out)@ == old(out)@ + json_string(s@),
{
    let q = quote(s);
    match q {
        Ok(t) => out.append(t.as_str()),
        Err(_) => {},
    }
}

/// Whether a text is an identifier in the hyphenated form: 36 characters,
/// hyphens at 8, 13, 18 and 23, lower-case hexadecimal digits elsewhere.
pub open spec fn is_uuid_text(s: Seq<char>) -> bool {
    &&& s.len() == 36
    &&& forall|i: int|
        0 <= i < 36 ==> if i == 8 || i == 13 || i == 18 || i == 23 {
            #[trigger] s[i] == '-'
        } else {
            ('0' <= s[i] <= '9') || ('a' <= s[i] <= 'f')
        }
}

/// Relies on uuid::Uuid::new_v4 and its `Display`, which writes the
/// lower-case hyphenated form (fmt.rs): a random identifier.
#[verifier::external_body]
fn new_command_id() -> (r: String)
    ensures
        is_uuid_text(r@),
{
    uuid::Uuid::new_v4().to_string()
}

/// The JSON text of an object with one member whose value is a string.
pub open spec fn member_object(key: Seq<char>, value: Seq<char>) -> Seq<char> {
    "{"@ + json_string(key) + ":"@ + json_string(value) + "}"@
}

/// Writes an object with one member whose value is a string, as a command
/// payload.
pub fn single_member(key: &str, value: &str) -> (r: String)
    ensures
        r@ == member_object(key@, value@),
{
    let mut out = String::from_str("{");
    push_quoted(&mut out, key);
    out.append(":");
    push_quoted(&mut out, value);
    out.append("}");
    out
}

impl ExecutorCommand {
    /// A new command with a fresh random identifier.
    pub fn new(command: &str, params: Option<serde_json::Value>) -> (r: ExecutorCommand)
        ensures
            r.cmd_type@ == "command"@,
            r.command@ == command@,
            r.params == params,
            is_uuid_text(r.id@),
    {
        ExecutorCommand {
            cmd_type: String::from_str("command"),
            id: new_command_id(),
            command: String::from_str(command),
            params,
        }
    }

    /// Frames the command as one line of JSON, line feed included; the
    /// JSON object itself holds no line feed.
    pub fn to_line(&self) -> (r: String)
        ensures
            r@ == command_line(*self),
            single_line(command_json(*self)),
    {
        let mut out = String::from_str("{\"type\":");
        push_quoted(&mut out, self.cmd_type.as_str());
        out.append(",\"id\":");
        push_quoted(&mut out, self.id.as_str());
        out.append(",\"command\":");
        push_quoted(&mut out, self.command.as_str());
        out.append(",\"params\":");
        match &self.params {
            Some(v) => match value_text(v) {
                Ok(t) => out.append(t.as_str()),
                Err(_) => {},
            },
            None => out.append("null"),
        }
        out.append("}");
        out.append("\n");
        proof {
            reveal_strlit("{\"type\":");
            reveal_strlit(",\"id\":");
            reveal_strlit(",\"command\":");
            reveal_strlit(",\"params\":");
            reveal_strlit("null");
            reveal_strlit("}");
            json_string_is_single_line(self.cmd_type@);
            json_string_is_single_line(self.id@);
            json_string_is_single_line(self.command@);
            lemma_single_line_concat("{\"type\":"@, json_string(self.cmd_type@));
            let a = "{\"type\":"@ + json_string(self.cmd_type@);
            lemma_single_line_concat(a, ",\"id\":"@);
            let b = a + ",\"id\":"@;
            lemma_single_line_concat(b, json_string(self.id@));
            let c = b + json_string(self.id@);
            lemma_single_line_concat(c, ",\"command\":"@);
            let d = c + ",\"command\":"@;
            lemma_single_line_concat(d, json_string(self.command@));
            let e = d + json_string(self.command@);
            lemma_single_line_concat(e, ",\"params\":"@);
            let f = e + ",\"params\":"@;
            lemma_single_line_concat(f, params_text(self.params));
            let g = f + params_text(self.params);
            lemma_single_line_concat(g, "}"@);
        }
        out
    }
}

/// Two texts without a line feed make one without a line feed.
pub proof fn lemma_single_line_concat(a: Seq<char>, b: Seq<char>)
    requires
        single_line(a),
        single_line(b),
    ensures
        single_line(a + b),
{
    assert forall|i: int| 0 <= i < (a + b).len() implies (a + b)[i] != '\n' by {
        if i < a.len() {
            assert((a + b)[i] == a[i]);
        } else {
            assert((a + b)[i] == b[i - a.len()]);
        }
    }
}

/// A payload object with one member whose value is a string.
pub fn text_object(key: &str, value: &str) -> (r: serde_json::Value)
    ensures
        is_text_object(Some(r), key@, value@),
{
    let mut m = new_object();
    let v = pack(JsonNode::Text(String::from_str(value)));
    put_member(&mut m, String::from_str(key), v);
    proof {
        vstd::set_lib::lemma_set_empty_equivalency_len(members(m).dom());
        assert(members(m).dom() =~= set![key@]);
    }
    pack(JsonNode::Object(m))
}

/// Reads a frame into the event or response it holds: an event when it has
/// every member of one, else a response when it has every member of one,
/// else nothing.
pub fn decode_frame(f: Frame) -> (r: Decoded)
    ensures
        r == decoded_of(f),
{
    let Frame { type_tag, event, timestamp, sequence, data, id, success, error } = f;
    if type_tag.is_some() && event.is_some() && timestamp.is_some() && sequence.is_some()
        && data.is_some() {
        let seq = sequence.unwrap();
        if seq <= u32::MAX as u64 {
            return Decoded::Event(
                ExecutorEvent {
                    event_type: type_tag.unwrap(),
                    event: event.unwrap(),
                    timestamp: timestamp.unwrap(),
                    sequence: seq as u32,
                    data: data.unwrap(),
                },
            );
        }
    }
    if type_tag.is_none() || id.is_none() || success.is_none() {
        return Decoded::Unparsable;
    }
    let error_field = match error {
        None => None,
        Some(JsonNode::Null) => None,
        Some(JsonNode::Text(s)) => Some(s),
        Some(_) => {
            return Decoded::Unparsable;
        },
    };
    let data_field = match data {
        Some(JsonNode::Null) => None,
        other => other,
    };
    Decoded::Response(
        ExecutorResponse {
            resp_type: type_tag.unwrap(),
            id: id.unwrap(),
            success: success.unwrap(),
            data: data_field,
            error: error_field,
        },
    )
}

/// The outermost layer of an object member, if the object has that member.
pub open spec fn node_at(ms: Map<Seq<char>, serde_json::Value>, key: Seq<char>) -> Option<JsonNode> {
    match member_value(ms, key) {
        Some(v) => Some(node_of(v)),
        None => None,
    }
}

/// An object member's text, if it is a string.
pub open spec fn text_at(ms: Map<Seq<char>, serde_json::Value>, key: Seq<char>) -> Option<String> {
    match node_at(ms, key) {
        Some(JsonNode::Text(s)) => Some(s),
        _ => None,
    }
}

/// The frame that an object's members make: each member the protocol reads,
/// kept when it has the JSON type the protocol gives it.
pub open spec fn frame_of_members(ms: Map<Seq<char>, serde_json::Value>) -> Frame {
    Frame {
        type_tag: text_at(ms, "type"@),
        event: text_at(ms, "event"@),
        timestamp: match node_at(ms, "timestamp"@) {
            Some(JsonNode::Number(n)) => Some(n),
            _ => None,
        },
        sequence: match node_at(ms, "sequence"@) {
            Some(JsonNode::Number(n)) => u64_of(n),
            _ => None,
        },
        data: node_at(ms, "data"@),
        id: text_at(ms, "id"@),
        success: match node_at(ms, "success"@) {
            Some(JsonNode::Bool(b)) => Some(b),
            _ => None,
        },
        error: node_at(ms, "error"@),
    }
}

/// What a line of the worker's output decodes to: the frame that its object
/// makes, when the line is one JSON object; else nothing.
pub open spec fn line_decoded(line: Seq<char>) -> Decoded {
    if is_json_document(line) {
        match node_of(value_of(line)) {
            JsonNode::Object(m) => decoded_of(frame_of_members(members(m))),
            _ => Decoded::Unparsable,
        }
    } else {
        Decoded::Unparsable
    }
}

/// What the sinks receive from a run of output lines, in order.
pub open spec fn line_deliveries(lines: Seq<Seq<char>>) -> Seq<Delivery> {
    deliveries(lines.map_values(|l: Seq<char>| line_decoded(l)))
}

fn member(m: &mut serde_json::Map<String, serde_json::Value>, key: &str) -> (r: Option<JsonNode>)
    ensures
        r == node_at(members(*old(m)), key@),
        members(*final(m)) == members(*old(m)).remove(key@),
{
    match take_field(m, key) {
        Some(v) => Some(unpack(v)),
        None => None,
    }
}

fn text_member(m: &mut serde_json::Map<String, serde_json::Value>, key: &str) -> (r: Option<
    String,
>)
    ensures
        r == text_at(members(*old(m)), key@),
        members(*final(m)) == members(*old(m)).remove(key@),
{
    match member(m, key) {
        Some(JsonNode::Text(s)) => Some(s),
        _ => None,
    }
}

/// Collects the members of a received object that the protocol reads.
fn read_frame(m: serde_json::Map<String, serde_json::Value>) -> (r: Frame)
    ensures
        r == frame_of_members(members(m)),
{
    let ghost ms = members(m);
    proof {
        reveal_strlit("type");
        reveal_strlit("event");
        reveal_strlit("timestamp");
        reveal_strlit("sequence");
        reveal_strlit("data");
        reveal_strlit("id");
        reveal_strlit("success");
        reveal_strlit("error");
        assert("type"@.len() == 4 && "event"@.len() == 5 && "timestamp"@.len() == 9);
        assert("sequence"@.len() == 8 && "data"@.len() == 4 && "id"@.len() == 2);
        assert("success"@.len() == 7 && "error"@.len() == 5);
        assert("type"@[0] != "data"@[0]);
        assert("event"@[1] != "error"@[1]);
    }
    let mut m = m;
    let type_tag = text_member(&mut m, "type");
    let event = text_member(&mut m, "event");
    assert(event == text_at(ms, "event"@));
    let timestamp_node = member(&mut m, "timestamp");
    assert(timestamp_node == node_at(ms, "timestamp"@));
    let timestamp = match timestamp_node {
        Some(JsonNode::Number(n)) => Some(n),
        _ => None,
    };
    assert(timestamp == frame_of_members(ms).timestamp);
    let sequence_node = member(&mut m, "sequence");
    assert(sequence_node == node_at(ms, "sequence"@));
    let sequence = match sequence_node {
        Some(JsonNode::Number(n)) => n.as_u64(),
        _ => None,
    };
    assert(sequence == frame_of_members(ms).sequence);
    let data = member(&mut m, "data");
    assert(data == node_at(ms, "data"@));
    let id = text_member(&mut m, "id");
    assert(id == text_at(ms, "id"@));
    let success_node = member(&mut m, "success");
    assert(success_node == node_at(ms, "success"@));
    let success = match success_node {
        Some(JsonNode::Bool(b)) => Some(b),
        _ => None,
    };
    assert(success == frame_of_members(ms).success);
    let error = member(&mut m, "error");
    assert(error == node_at(ms, "error"@));
    Frame { type_tag, event, timestamp, sequence, data, id, success, error }
}

/// Decodes one line of the worker's output: an event or a response when the
/// line is one JSON object with the members of one, else unparsable.
pub fn decode_line(line: &str) -> (r: Decoded)
    ensures
        r == line_decoded(line@),
{
    match parse(line) {
        Ok(v) => match unpack(v) {
            JsonNode::Object(m) => decode_frame(read_frame(m)),
            _ => Decoded::Unparsable,
        },
        Err(_) => Decoded::Unparsable,
    }
}

/// What the output reader does with one line: decodes it and hands the
/// event or response to its sink; an unparsable line goes nowhere.
pub fn read_output_line(line: &str) -> (r: Option<Delivery>)
    ensures
        r == delivery_of(line_decoded(line@)),
{
    route(decode_line(line))
}

/// Sends a decoded line to its sink: events and responses go on, an
/// unparsable line is dropped.
pub fn route(d: Decoded) -> (r: Option<Delivery>)
    ensures
        r == delivery_of(d),
{
    match d {
        Decoded::Event(e) => Some(Delivery::Event(e)),
        Decoded::Response(r) => Some(Delivery::Response(r)),
        Decoded::Unparsable => None,
    }
}

/// The frame whose members are those an event is written with.
pub open spec fn frame_of_event(e: ExecutorEvent) -> Frame {
    Frame {
        type_tag: Some(e.event_type),
        event: Some(e.event),
        timestamp: Some(e.timestamp),
        sequence: Some(e.sequence as u64),
        data: Some(e.data),
        id: None,
        success: None,
        error: None,
    }
}

/// The frame whose members are those a response is written with; absent
/// data and error are written as `null`.
pub open spec fn frame_of_response(r: ExecutorResponse) -> Frame {
    Frame {
        type_tag: Some(r.resp_type),
        event: None,
        timestamp: None,
        sequence: None,
        data: Some(
            match r.data {
                Some(d) => d,
                None => JsonNode::Null,
            },
        ),
        id: Some(r.id),
        success: Some(r.success),
        error: Some(
            match r.error {
                Some(m) => JsonNode::Text(m),
                None => JsonNode::Null,
            },
        ),
    }
}

/// An event written as a frame reads back as that same event.
pub proof fn event_round_trip(e: ExecutorEvent)
    ensures
        decoded_of(frame_of_event(e)) == Decoded::Event(e),
{
}

/// A response written as a frame reads back as that same response, unless
/// its data is itself `null`, which reads back as no data.
pub proof fn response_round_trip(r: ExecutorResponse)
    requires
        !(r.data matches Some(JsonNode::Null)),
    ensures
        decoded_of(frame_of_response(r)) == Decoded::Response(r),
{
}

proof fn lemma_deliveries_concat(a: Seq<Decoded>, b: Seq<Decoded>)
    ensures
        deliveries(a + b) == deliveries(a) + deliveries(b),
    decreases b.len(),
{
    if b.len() == 0 {
        assert(a + b =~= a);
        assert(deliveries(b) =~= Seq::<Delivery>::empty());
        assert(deliveries(a) + deliveries(b) =~= deliveries(a));
    } else {
        let b0 = b.drop_last();
        assert((a + b).drop_last() =~= a + b0);
        assert((a + b).last() == b.last());
        lemma_deliveries_concat(a, b0);
        match delivery_of(b.last()) {
            Some(x) => {
                assert(deliveries(a) + deliveries(b0).push(x) =~= (deliveries(a) + deliveries(b0)).push(x));
            },
            None => {},
        }
    }
}

/// An unparsable line between two runs of lines takes nothing away from
/// either run: the sinks receive what the lines before it give, then what
/// the lines after it give.
pub proof fn unparsable_line_is_skipped(before: Seq<Decoded>, after: Seq<Decoded>)
    ensures
        deliveries(before + seq![Decoded::Unparsable] + after) == deliveries(before) + deliveries(after),
{
    let u = seq![Decoded::Unparsable];
    lemma_deliveries_concat(before + u, after);
    lemma_deliveries_concat(before, u);
    assert(u.drop_last() =~= Seq::<Decoded>::empty());
    assert(deliveries(u.drop_last()) =~= Seq::<Delivery>::empty());
    assert(u.last() == Decoded::Unparsable);
    assert(deliveries(u) =~= Seq::<Delivery>::empty());
    assert(deliveries(before) + deliveries(u) =~= deliveries(before));
}

/// An event line reaches the event sink exactly once, in its place among
/// the other deliveries.
pub proof fn event_is_delivered_once(before: Seq<Decoded>, e: ExecutorEvent, after: Seq<Decoded>)
    ensures
        deliveries(before + seq![Decoded::Event(e)] + after) == deliveries(before).push(
            Delivery::Event(e),
        ) + deliveries(after),
{
    let u = seq![Decoded::Event(e)];
    lemma_deliveries_concat(before + u, after);
    lemma_deliveries_concat(before, u);
    assert(u.drop_last() =~= Seq::<Decoded>::empty());
    assert(deliveries(u.drop_last()) =~= Seq::<Delivery>::empty());
    assert(u.last() == Decoded::Event(e));
    assert(deliveries(u) =~= seq![Delivery::Event(e)]);
    assert(deliveries(before) + deliveries(u) =~= deliveries(before).push(Delivery::Event(e)));
}

proof fn lemma_decoded_lines_concat(a: Seq<Seq<char>>, b: Seq<Seq<char>>)
    ensures
        (a + b).map_values(|l: Seq<char>| line_decoded(l)) == a.map_values(|l: Seq<char>| line_decoded(l))
            + b.map_values(|l: Seq<char>| line_decoded(l)),
{
    assert((a + b).map_values(|l: Seq<char>| line_decoded(l)) =~= a.map_values(|l: Seq<char>| line_decoded(l))
        + b.map_values(|l: Seq<char>| line_decoded(l)));
}

/// An output line that decodes to nothing, between two runs of lines, takes
/// nothing away from either: the sinks receive what the lines before it
/// give, then what the lines after it give.
pub proof fn unparsable_output_line_is_skipped(before: Seq<Seq<char>>, line: Seq<char>, after: Seq<Seq<char>>)
    requires
        line_decoded(line) is Unparsable,
    ensures
        line_deliveries(before + seq![line] + after) == line_deliveries(before) + line_deliveries(after),
{
    let f = |l: Seq<char>| line_decoded(l);
    lemma_decoded_lines_concat(before + seq![line], after);
    lemma_decoded_lines_concat(before, seq![line]);
    assert(seq![line].map_values(f) =~= seq![Decoded::Unparsable]);
    unparsable_line_is_skipped(before.map_values(f), after.map_values(f));
}

/// An output line that decodes to an event reaches the event sink exactly
/// once, in its place among the other deliveries.
pub proof fn event_line_is_delivered_once(before: Seq<Seq<char>>, line: Seq<char>, after: Seq<Seq<char>>)
    requires
        line_decoded(line) is Event,
    ensures
        line_deliveries(before + seq![line] + after) == line_deliveries(before).push(
            Delivery::Event(line_decoded(line)->Event_0),
        ) + line_deliveries(after),
{
    let f = |l: Seq<char>| line_decoded(l);
    lemma_decoded_lines_concat(before + seq![line], after);
    lemma_decoded_lines_concat(before, seq![line]);
    assert(seq![line].map_values(f) =~= seq![Decoded::Event(line_decoded(line)->Event_0)]);
    event_is_delivered_once(before.map_values(f), line_decoded(line)->Event_0, after.map_values(f));
}

} // verus!
