//! The first message to the adapter: the `initialize` request of the Debug
//! Adapter Protocol, framed by a `Content-Length` header.

use vstd::prelude::*;
use vstd::string::*;
use vstd::slice::slice_to_vec;
use vstd::utf8::encode_utf8;
use crate::decimal::{decimal_string, decimal_text};
use crate::json::{
    bool_value, insert_member, integer_value, json_of, json_text, new_object, object_value,
    text_value, write_value, Json,
};

verus! {

/// The `arguments` member of the request: who the client is and what it can
/// do.
pub open spec fn initialize_arguments() -> Map<Seq<char>, Json> {
    map![
        "clientID"@ => Json::Text("example-client"@),
        "clientName"@ => Json::Text("Example Client"@),
        "adapterID"@ => Json::Text("example-adapter"@),
        "pathFormat"@ => Json::Text("path"@),
        "linesStartAt1"@ => Json::Bool(true),
        "columnsStartAt1"@ => Json::Bool(true),
        "supportsVariableType"@ => Json::Bool(true),
        "supportsVariablePaging"@ => Json::Bool(true),
        "supportsRunInTerminalRequest"@ => Json::Bool(true),
        "locale"@ => Json::Text("en-us"@),
    ]
}

/// The request itself: the first of the session, asking to initialize.
pub open spec fn initialize_request() -> Json {
    Json::Object(
        map![
            "type"@ => Json::Text("request"@),
            "seq"@ => Json::Integer(1),
            "command"@ => Json::Text("initialize"@),
            "arguments"@ => Json::Object(initialize_arguments()),
        ],
    )
}

/// Builds the `initialize` request.
pub fn build_initialize_request() -> (request: serde_json::Value)
    ensures
        json_of(request) == initialize_request(),
{
    let mut arguments = new_object();
    insert_member(&mut arguments, "clientID", text_value("example-client"));
    insert_member(&mut arguments, "clientName", text_value("Example Client"));
    insert_member(&mut arguments, "adapterID", text_value("example-adapter"));
    insert_member(&mut arguments, "pathFormat", text_value("path"));
    insert_member(&mut arguments, "linesStartAt1", bool_value(true));
    insert_member(&mut arguments, "columnsStartAt1", bool_value(true));
    insert_member(&mut arguments, "supportsVariableType", bool_value(true));
    insert_member(&mut arguments, "supportsVariablePaging", bool_value(true));
    insert_member(&mut arguments, "supportsRunInTerminalRequest", bool_value(true));
    insert_member(&mut arguments, "locale", text_value("en-us"));
    let mut request = new_object();
    insert_member(&mut request, "type", text_value("request"));
    insert_member(&mut request, "seq", integer_value(1));
    insert_member(&mut request, "command", text_value("initialize"));
    insert_member(&mut request, "arguments", object_value(arguments));
    object_value(request)
}

/// The number of bytes that `text` takes in UTF-8.
pub open spec fn byte_len(text: Seq<char>) -> nat {
    encode_utf8(text).len()
}

/// The header that announces a body of `length` bytes: the field name, the
/// length in decimal, and an empty line. Nothing else.
pub open spec fn header_text(length: nat) -> Seq<char> {
    "Content-Length: "@ + decimal_text(length) + "\r\n\r\n"@
}

/// A message ready to be sent: the header first, then the body, with
/// nothing between them and nothing after.
#[derive(Debug)]
pub struct Frame {
    pub header: String,
    pub body: String,
}

impl Frame {
    /// The bytes that reach the peer.
    pub open spec fn wire(&self) -> Seq<u8> {
        encode_utf8(self.header@) + encode_utf8(self.body@)
    }

    /// The writes that send the frame, in the order in which they are made:
    /// the whole header, then the whole body.
    pub fn writes(&self) -> (writes: Vec<Vec<u8>>)
        ensures
            writes@.len() == 2,
            writes@[0]@ == encode_utf8(self.header@),
            writes@[1]@ == encode_utf8(self.body@),
            writes@[0]@ + writes@[1]@ == self.wire(),
    {
        let mut writes: Vec<Vec<u8>> = Vec::new();
        writes.push(slice_to_vec(self.header.as_str().as_bytes()));
        writes.push(slice_to_vec(self.body.as_str().as_bytes()));
        writes
    }
}

/// Frames `body`: the header states the body's length in bytes.
pub fn frame(body: String) -> (frame: Frame)
    ensures
        frame.body@ == body@,
        frame.header@ == header_text(byte_len(body@)),
{
    let length: usize = body.as_str().as_bytes().len();
    let mut header = String::from_str("Content-Length: ");
    header.append(decimal_string(length as u64).as_str());
    header.append("\r\n\r\n");
    Frame { header, body }
}

/// The text of the `initialize` request as it is sent.
pub fn initialize_body() -> (body: String)
    ensures
        body@ == json_text(initialize_request()),
{
    let request = build_initialize_request();
    write_value(&request)
}

/// The adapter's address: the loopback interface and `port`.
pub open spec fn loopback_address(port: u16) -> Seq<char> {
    "127.0.0.1:"@ + decimal_text(port as nat)
}

/// Where to connect and what to send there.
#[derive(Debug)]
pub struct HandshakePlan {
    /// Host and port, as one text.
    pub address: String,
    /// The framed `initialize` request.
    pub frame: Frame,
}

/// Plans the handshake with the adapter that listens on `port`: one
/// connection to the loopback interface, and the framed `initialize` request
/// as the only message.
pub fn handshake_plan(port: u16) -> (plan: HandshakePlan)
    ensures
        plan.address@ == loopback_address(port),
        plan.frame.body@ == json_text(initialize_request()),
        plan.frame.header@ == header_text(byte_len(plan.frame.body@)),
{
    let mut address = String::from_str("127.0.0.1:");
    address.append(decimal_string(port as u64).as_str());
    HandshakePlan { address, frame: frame(initialize_body()) }
}

} // verus!
