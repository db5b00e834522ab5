//! Per-connection request handling: the request line is parsed, the request
//! is dispatched against the fixed route table, and a complete HTTP response
//! is produced.  Every request is answered: a first line without a method
//! and a path is a parse error, rejected with 400 and a structured JSON
//! body, never dropped silently.  A path that names a simulated fault
//! forces a 500 response, and the stop route asks the caller to terminate
//! the process after the response is written.

use vstd::prelude::*;
use crate::platform::{char_space, is_space_char, json_accepts, json_is_valid, now_subsec_nanos};
use crate::text::{
    all_space, contains_at, find_sub, has_sub, is_blank, lemma_find_sub, str_contains, str_eq,
    str_find,
};
use crate::http::{create_json_response, response_text};
use crate::num::{dec_str, u64_to_dec};

verus! {

/// Position right after the first whitespace run starting at `i`.
pub open spec fn next_non_space(s: Seq<char>, i: int) -> int
    decreases s.len() - i,
    when 0 <= i <= s.len()
{
    if i >= s.len() || !char_space(s[i]) {
        i
    } else {
        next_non_space(s, i + 1)
    }
}

/// Position right after the token starting at `i`.
pub open spec fn next_space(s: Seq<char>, i: int) -> int
    decreases s.len() - i,
    when 0 <= i <= s.len()
{
    if i >= s.len() || char_space(s[i]) {
        i
    } else {
        next_space(s, i + 1)
    }
}

proof fn lemma_next_non_space_unique(s: Seq<char>, i: int, j: int)
    requires
        0 <= i <= j <= s.len(),
        forall|k: int| i <= k < j ==> char_space(s[k]),
        j < s.len() ==> !char_space(s[j]),
    ensures
        next_non_space(s, i) == j,
    decreases s.len() - i,
{
    if i < s.len() && char_space(s[i]) {
        lemma_next_non_space_unique(s, i + 1, j);
    }
}

proof fn lemma_next_space_unique(s: Seq<char>, i: int, j: int)
    requires
        0 <= i <= j <= s.len(),
        forall|k: int| i <= k < j ==> !char_space(s[k]),
        j < s.len() ==> char_space(s[j]),
    ensures
        next_space(s, i) == j,
    decreases s.len() - i,
{
    if i < s.len() && !char_space(s[i]) {
        lemma_next_space_unique(s, i + 1, j);
    }
}

/// The first line of the request: up to the first line feed, with a trailing
/// carriage return removed.
pub open spec fn first_line(req: Seq<char>) -> Seq<char> {
    let e = if find_sub(req, "\n"@) == -1 {
        req.len() as int
    } else {
        find_sub(req, "\n"@)
    };
    let l = req.subrange(0, e);
    if l.len() > 0 && l.last() == '\r' {
        l.drop_last()
    } else {
        l
    }
}

/// The method and path of the request line: its first two whitespace-
/// separated tokens, or nothing when the line holds fewer than two.
pub open spec fn parse_request_line(line: Seq<char>) -> Option<(Seq<char>, Seq<char>)> {
    let m0 = next_non_space(line, 0);
    let m1 = next_space(line, m0);
    let p0 = next_non_space(line, m1);
    let p1 = next_space(line, p0);
    if p0 >= line.len() {
        None
    } else {
        Some((line.subrange(m0, m1), line.subrange(p0, p1)))
    }
}

/// Extracts the first line of a raw request.
pub fn request_first_line(request: &str) -> (r: String)
    ensures
        r@ == first_line(request@),
{
    proof {
        reveal_strlit("\n");
        lemma_find_sub(request@, "\n"@);
    }
    let n = request.unicode_len();
    let e = match str_find(request, "\n") {
        Some(i) => i,
        None => n,
    };
    let l = request.substring_char(0, e);
    let ll = l.unicode_len();
    if ll > 0 && l.get_char(ll - 1) == '\r' {
        l.substring_char(0, ll - 1).to_owned()
    } else {
        l.to_owned()
    }
}

/// Splits the request line into its method and path tokens.
pub fn parse_request_tokens(line: &str) -> (r: Option<(String, String)>)
    ensures
        r is Some ==> parse_request_line(line@) == Some(((r->0).0@, (r->0).1@)),
        r is None ==> parse_request_line(line@) is None,
{
    let n = line.unicode_len();
    let mut m0: usize = 0;
    while m0 < n && is_space_char(line.get_char(m0))
        invariant
            n == line@.len(),
            m0 <= n,
            forall|k: int| 0 <= k < m0 ==> char_space(line@[k]),
        decreases n - m0,
    {
        m0 += 1;
    }
    proof {
        lemma_next_non_space_unique(line@, 0, m0 as int);
    }
    let mut m1: usize = m0;
    while m1 < n && !is_space_char(line.get_char(m1))
        invariant
            n == line@.len(),
            m0 <= m1 <= n,
            forall|k: int| m0 <= k < m1 ==> !char_space(line@[k]),
        decreases n - m1,
    {
        m1 += 1;
    }
    proof {
        lemma_next_space_unique(line@, m0 as int, m1 as int);
    }
    let mut p0: usize = m1;
    while p0 < n && is_space_char(line.get_char(p0))
        invariant
            n == line@.len(),
            m1 <= p0 <= n,
            forall|k: int| m1 <= k < p0 ==> char_space(line@[k]),
        decreases n - p0,
    {
        p0 += 1;
    }
    proof {
        lemma_next_non_space_unique(line@, m1 as int, p0 as int);
    }
    if p0 >= n {
        return None;
    }
    let mut p1: usize = p0;
    while p1 < n && !is_space_char(line.get_char(p1))
        invariant
            n == line@.len(),
            p0 <= p1 <= n,
            forall|k: int| p0 <= k < p1 ==> !char_space(line@[k]),
        decreases n - p1,
    {
        p1 += 1;
    }
    proof {
        lemma_next_space_unique(line@, p0 as int, p1 as int);
    }
    let method = line.substring_char(m0, m1).to_owned();
    let path = line.substring_char(p0, p1).to_owned();
    Some((method, path))
}

/// The fixed route table.
#[derive(Clone, Copy, Debug, PartialEq, Eq, Structural)]
pub enum Route {
    Health,
    Models,
    Chat,
    Stop,
    Shutdown,
    NotFound,
}

/// Which route a method and path select.
pub open spec fn route_of(method: Seq<char>, path: Seq<char>) -> Route {
    if method == "GET"@ && path == "/health"@ {
        Route::Health
    } else if method == "GET"@ && path == "/v1/models"@ {
        Route::Models
    } else if method == "POST"@ && path == "/v1/chat/completions"@ {
        Route::Chat
    } else if (method == "POST"@ || method == "GET"@) && path == "/stop"@ {
        Route::Stop
    } else if method == "GET"@ && path == "/shutdown"@ {
        Route::Shutdown
    } else {
        Route::NotFound
    }
}

/// Selects the route for a method and path.
pub fn select_route(method: &str, path: &str) -> (r: Route)
    ensures
        r == route_of(method@, path@),
{
    if str_eq(method, "GET") && str_eq(path, "/health") {
        Route::Health
    } else if str_eq(method, "GET") && str_eq(path, "/v1/models") {
        Route::Models
    } else if str_eq(method, "POST") && str_eq(path, "/v1/chat/completions") {
        Route::Chat
    } else if (str_eq(method, "POST") || str_eq(method, "GET")) && str_eq(path, "/stop") {
        Route::Stop
    } else if str_eq(method, "GET") && str_eq(path, "/shutdown") {
        Route::Shutdown
    } else {
        Route::NotFound
    }
}

/// A path that names a simulated fault: it mentions "error" or "fail".
pub open spec fn is_fault_path(path: Seq<char>) -> bool {
    has_sub(path, "error"@) || has_sub(path, "fail"@)
}

/// Whether the path asks for a simulated fault.
pub fn path_is_faulty(path: &str) -> (r: bool)
    ensures
        r == is_fault_path(path@),
{
    str_contains(path, "error") || str_contains(path, "fail")
}

/// The request body: everything after the first blank line, when one exists.
pub open spec fn body_split(req: Seq<char>) -> Option<Seq<char>> {
    if find_sub(req, "\r\n\r\n"@) == -1 {
        None
    } else {
        Some(req.subrange(find_sub(req, "\r\n\r\n"@) + "\r\n\r\n"@.len(), req.len() as int))
    }
}

/// Extracts the request body, when the blank line separating it is present.
pub fn extract_body(request: &str) -> (r: Option<String>)
    ensures
        r is Some ==> body_split(request@) == Some((r->0)@),
        r is None ==> body_split(request@) is None,
{
    proof {
        reveal_strlit("\r\n\r\n");
        lemma_find_sub(request@, "\r\n\r\n"@);
    }
    let n = request.unicode_len();
    match str_find(request, "\r\n\r\n") {
        Some(i) => Some(request.substring_char(i + 4, n).to_owned()),
        None => None,
    }
}

/// The fixed response policy of the stand-in chat endpoint.  The choice is
/// made by substring checks on the raw body, in this priority order; it is a
/// placeholder policy, not content generation.
#[derive(Clone, Copy, Debug, PartialEq, Eq, Structural)]
pub enum ChatReply {
    Greeting,
    ConfigInfo,
    SimulatedFailure,
    Generic,
}

/// Which canned reply the body selects.
pub open spec fn chat_reply_of(body: Seq<char>) -> ChatReply {
    if has_sub(body, "Hello"@) || has_sub(body, "hello"@) || has_sub(body, "hi"@) {
        ChatReply::Greeting
    } else if has_sub(body, "config"@) {
        ChatReply::ConfigInfo
    } else if has_sub(body, "error"@) {
        ChatReply::SimulatedFailure
    } else {
        ChatReply::Generic
    }
}

/// Selects the canned reply for a body.
pub fn select_chat_reply(body: &str) -> (r: ChatReply)
    ensures
        r == chat_reply_of(body@),
{
    if str_contains(body, "Hello") || str_contains(body, "hello") || str_contains(body, "hi") {
        ChatReply::Greeting
    } else if str_contains(body, "config") {
        ChatReply::ConfigInfo
    } else if str_contains(body, "error") {
        ChatReply::SimulatedFailure
    } else {
        ChatReply::Generic
    }
}

/// The canned content string of a successful chat reply.
pub open spec fn chat_content(r: ChatReply) -> Seq<char> {
    match r {
        ChatReply::Greeting => "Hello! I'm an LLM running on Rust via HTTP API. How can I help you today?"@,
        ChatReply::ConfigInfo => "Current model configuration: temperature=0.7, top_p=0.9, context_size=2048"@,
        ChatReply::Generic => "I received your message. This is a simulated response from the LLM HTTP API."@,
        ChatReply::SimulatedFailure => Seq::<char>::empty(),
    }
}

/// The JSON body of the health route.
pub open spec fn health_body_text() -> Seq<char> {
    "{\"status\": \"ok\", \"message\": \"LLM API Server is running\"}"@
}

/// The JSON body of the model-list route, carrying the moment it was built.
pub open spec fn models_body_text(now: u64) -> Seq<char> {
    "{\"object\": \"list\", \"data\": [{\"id\": \"llm-rust\", \"object\": \"model\", \"created\": "@
        + dec_str(now as nat) + ", \"owned_by\": \"llm-rust\"}]}"@
}

/// The JSON acknowledgment of the stop route.
pub open spec fn stop_body_text(now: u64) -> Seq<char> {
    "{\"message\": \"Server shutdown initiated\", \"status\": \"stopping\", \"timestamp\": \""@
        + dec_str(now as nat) + "\"}"@
}

/// The JSON body of the informational shutdown route.
pub open spec fn shutdown_body_text() -> Seq<char> {
    "{\"message\": \"Alternative shutdown endpoint triggered\", \"status\": \"stopping\", \"note\": \"Use /stop for primary shutdown\"}"@
}

/// The JSON body answering an unrouted request.
pub open spec fn not_found_body_text() -> Seq<char> {
    "{\"error\": \"Not found\"}"@
}

/// The JSON body of a forced fault response.
pub open spec fn fault_body_text() -> Seq<char> {
    "{\"error\": \"Internal server error\", \"message\": \"Simulated server error\"}"@
}

/// The JSON body of a simulated chat processing failure.
pub open spec fn chat_failure_body_text() -> Seq<char> {
    "{\"error\": \"Internal server error\", \"message\": \"Simulated processing error\"}"@
}

/// The JSON body rejecting an empty chat body.
pub open spec fn empty_body_text() -> Seq<char> {
    "{\"error\": \"Request body is empty\"}"@
}

/// The JSON body rejecting a chat body that is not JSON.
pub open spec fn bad_json_body_text() -> Seq<char> {
    "{\"error\": \"Invalid JSON format\"}"@
}

/// The JSON body rejecting a request without a body section.
pub open spec fn bad_format_body_text() -> Seq<char> {
    "{\"error\": \"Invalid request format\"}"@
}

/// The JSON body of a successful chat completion: a canned reply, the moment
/// it was built, and an identifier derived from the caller's nonce.
pub open spec fn chat_body_text(r: ChatReply, now: u64, nonce: u64) -> Seq<char> {
    "{\"id\": \"chatcmpl-chat-"@ + dec_str((nonce % 1000000) as nat)
        + "\", \"object\": \"chat.completion\", \"created\": "@ + dec_str(now as nat)
        + ", \"model\": \"llm-rust\", \"choices\": [{\"index\": 0, \"message\": {\"role\": \"assistant\", \"content\": \""@
        + chat_content(r)
        + "\"}, \"finish_reason\": \"stop\"}], \"usage\": {\"prompt_tokens\": 10, \"completion_tokens\": 20, \"total_tokens\": 30}}"@
}

/// A request identifier derived from a nonce: "chat-" and the nonce's
/// last six decimal digits.
pub fn chat_id(nonce: u64) -> (r: String)
    ensures
        r@ == "chat-"@ + dec_str((nonce % 1000000) as nat),
{
    let mut s = String::from_str("chat-");
    let d = u64_to_dec(nonce % 1000000);
    s.append(d.as_str());
    s
}

/// A fresh request identifier derived from the clock's subsecond reading.
pub fn generate_id() -> (r: String)
    ensures
        exists|nonce: u64| r@ == "chat-"@ + #[trigger] dec_str((nonce % 1000000) as nat),
{
    let nanos = now_subsec_nanos();
    let r = chat_id(nanos as u64);
    proof {
        assert(r@ == "chat-"@ + dec_str(((nanos as u64) % 1000000) as nat));
    }
    r
}

/// The canned content string of a reply.
fn content_str(r: ChatReply) -> (s: &'static str)
    ensures
        s@ == chat_content(r),
{
    match r {
        ChatReply::Greeting => "Hello! I'm an LLM running on Rust via HTTP API. How can I help you today?",
        ChatReply::ConfigInfo => "Current model configuration: temperature=0.7, top_p=0.9, context_size=2048",
        ChatReply::Generic => "I received your message. This is a simulated response from the LLM HTTP API.",
        ChatReply::SimulatedFailure => {
            proof {
                reveal_strlit("");
                assert(""@ =~= Seq::<char>::empty());
            }
            ""
        },
    }
}

fn chat_body_string(r: ChatReply, now: u64, nonce: u64) -> (s: String)
    ensures
        s@ == chat_body_text(r, now, nonce),
{
    let mut s = String::from_str("{\"id\": \"chatcmpl-chat-");
    let id = u64_to_dec(nonce % 1000000);
    s.append(id.as_str());
    s.append("\", \"object\": \"chat.completion\", \"created\": ");
    let created = u64_to_dec(now);
    s.append(created.as_str());
    s.append(
        ", \"model\": \"llm-rust\", \"choices\": [{\"index\": 0, \"message\": {\"role\": \"assistant\", \"content\": \"",
    );
    s.append(content_str(r));
    s.append(
        "\"}, \"finish_reason\": \"stop\"}], \"usage\": {\"prompt_tokens\": 10, \"completion_tokens\": 20, \"total_tokens\": 30}}",
    );
    proof {
        assert(s@ =~= chat_body_text(r, now, nonce));
    }
    s
}

fn stop_body_string(now: u64) -> (s: String)
    ensures
        s@ == stop_body_text(now),
{
    let mut s = String::from_str(
        "{\"message\": \"Server shutdown initiated\", \"status\": \"stopping\", \"timestamp\": \"",
    );
    let ts = u64_to_dec(now);
    s.append(ts.as_str());
    s.append("\"}");
    proof {
        assert(s@ =~= stop_body_text(now));
    }
    s
}

fn models_body_string(now: u64) -> (s: String)
    ensures
        s@ == models_body_text(now),
{
    let mut s = String::from_str(
        "{\"object\": \"list\", \"data\": [{\"id\": \"llm-rust\", \"object\": \"model\", \"created\": ",
    );
    let ts = u64_to_dec(now);
    s.append(ts.as_str());
    s.append(", \"owned_by\": \"llm-rust\"}]}");
    proof {
        assert(s@ =~= models_body_text(now));
    }
    s
}

/// Answers a chat completion body: a complete response and its status.  A
/// body that asks for a simulated failure is answered with a fault; any
/// other body gets its canned reply.
pub fn handle_chat_completion(body: &str, now: u64, nonce: u64) -> (r: (String, u16))
    ensures
        chat_reply_of(body@) == ChatReply::SimulatedFailure ==> r.1 == 500 && r.0@
            == response_text(500, chat_failure_body_text()),
        chat_reply_of(body@) != ChatReply::SimulatedFailure ==> r.1 == 200 && r.0@
            == response_text(200, chat_body_text(chat_reply_of(body@), now, nonce)),
{
    let reply = select_chat_reply(body);
    match reply {
        ChatReply::SimulatedFailure => {
            let resp = create_json_response(
                500,
                "{\"error\": \"Internal server error\", \"message\": \"Simulated processing error\"}",
            );
            (resp, 500)
        },
        _ => {
            let b = chat_body_string(reply, now, nonce);
            let resp = create_json_response(200, b.as_str());
            (resp, 200)
        },
    }
}

/// What a connection handler should do with a request: answer it, or
/// answer it and then terminate the process.
#[derive(Debug)]
pub enum RequestOutcome {
    Reply { status: u16, response: String },
    ReplyThenStop { status: u16, response: String },
}

/// A request asks for process termination when it selects the stop route.
pub open spec fn request_stops(req: Seq<char>) -> bool {
    parse_request_line(first_line(req)) is Some && {
        let pair = parse_request_line(first_line(req))->0;
        route_of(pair.0, pair.1) == Route::Stop
    }
}

/// Status of the chat route for an optional body section.
pub open spec fn chat_status(b: Option<Seq<char>>) -> int {
    match b {
        Option::None => 400,
        Option::Some(body) => if all_space(body) {
            400
        } else if !json_accepts(body) {
            400
        } else if chat_reply_of(body) == ChatReply::SimulatedFailure {
            500
        } else {
            200
        },
    }
}

/// Response body of the chat route for an optional body section.
pub open spec fn chat_out_body(b: Option<Seq<char>>, now: u64, nonce: u64) -> Seq<char> {
    match b {
        Option::None => bad_format_body_text(),
        Option::Some(body) => if all_space(body) {
            empty_body_text()
        } else if !json_accepts(body) {
            bad_json_body_text()
        } else if chat_reply_of(body) == ChatReply::SimulatedFailure {
            chat_failure_body_text()
        } else {
            chat_body_text(chat_reply_of(body), now, nonce)
        },
    }
}

/// The status a request is answered with.  A first line without two tokens
/// is a parse error and is rejected with 400; the stop route answers
/// first; any other path that names a simulated fault is forced to 500.
pub open spec fn dispatch_status(req: Seq<char>) -> int {
    if parse_request_line(first_line(req)) is None {
        400
    } else {
        dispatch_route_status(req)
    }
}

/// The status a request with a parsed method and path is answered with.
pub open spec fn dispatch_route_status(req: Seq<char>) -> int {
    let pair = parse_request_line(first_line(req))->0;
    let method = pair.0;
    let path = pair.1;
    let r = route_of(method, path);
    if r == Route::Stop {
        200
    } else if is_fault_path(path) {
        500
    } else if r == Route::Health {
        200
    } else if r == Route::Models {
        200
    } else if r == Route::Shutdown {
        200
    } else if r == Route::Chat {
        chat_status(body_split(req))
    } else {
        404
    }
}

/// The JSON body a request is answered with.
pub open spec fn dispatch_body(req: Seq<char>, now: u64, nonce: u64) -> Seq<char> {
    if parse_request_line(first_line(req)) is None {
        bad_format_body_text()
    } else {
        dispatch_route_body(req, now, nonce)
    }
}

/// The JSON body answering a request with a parsed method and path.
pub open spec fn dispatch_route_body(req: Seq<char>, now: u64, nonce: u64) -> Seq<char> {
    let pair = parse_request_line(first_line(req))->0;
    let method = pair.0;
    let path = pair.1;
    let r = route_of(method, path);
    if r == Route::Stop {
        stop_body_text(now)
    } else if is_fault_path(path) {
        fault_body_text()
    } else if r == Route::Health {
        health_body_text()
    } else if r == Route::Models {
        models_body_text(now)
    } else if r == Route::Shutdown {
        shutdown_body_text()
    } else if r == Route::Chat {
        chat_out_body(body_split(req), now, nonce)
    } else {
        not_found_body_text()
    }
}

/// Dispatches one raw request, with the clock reading and identifier nonce
/// handed in by the caller.
pub fn dispatch_request(request: &str, now_secs: u64, id_nonce: u64) -> (r: RequestOutcome)
    ensures
        r is ReplyThenStop <==> request_stops(request@),
        r matches RequestOutcome::Reply { status, response } ==> status == dispatch_status(
            request@,
        ) && response@ == response_text(
            dispatch_status(request@),
            dispatch_body(request@, now_secs, id_nonce),
        ),
        r matches RequestOutcome::ReplyThenStop { status, response } ==> status == 200
            && response@ == response_text(200, stop_body_text(now_secs)),
{
    let line = request_first_line(request);
    match parse_request_tokens(line.as_str()) {
        Option::None => {
            let resp = create_json_response(400, "{\"error\": \"Invalid request format\"}");
            RequestOutcome::Reply { status: 400, response: resp }
        },
        Option::Some((method, path)) => {
            let route = select_route(method.as_str(), path.as_str());
            match route {
                Route::Stop => {
                    let b = stop_body_string(now_secs);
                    let resp = create_json_response(200, b.as_str());
                    RequestOutcome::ReplyThenStop { status: 200, response: resp }
                },
                _ => {
                    if path_is_faulty(path.as_str()) {
                        let resp = create_json_response(
                            500,
                            "{\"error\": \"Internal server error\", \"message\": \"Simulated server error\"}",
                        );
                        return RequestOutcome::Reply { status: 500, response: resp };
                    }
                    match route {
                        Route::Health => {
                            let resp = create_json_response(
                                200,
                                "{\"status\": \"ok\", \"message\": \"LLM API Server is running\"}",
                            );
                            RequestOutcome::Reply { status: 200, response: resp }
                        },
                        Route::Models => {
                            let b = models_body_string(now_secs);
                            let resp = create_json_response(200, b.as_str());
                            RequestOutcome::Reply { status: 200, response: resp }
                        },
                        Route::Shutdown => {
                            let resp = create_json_response(
                                200,
                                "{\"message\": \"Alternative shutdown endpoint triggered\", \"status\": \"stopping\", \"note\": \"Use /stop for primary shutdown\"}",
                            );
                            RequestOutcome::Reply { status: 200, response: resp }
                        },
                        Route::Chat => {
                            match extract_body(request) {
                                Option::None => {
                                    let resp = create_json_response(
                                        400,
                                        "{\"error\": \"Invalid request format\"}",
                                    );
                                    RequestOutcome::Reply { status: 400, response: resp }
                                },
                                Option::Some(b) => {
                                    if is_blank(b.as_str()) {
                                        let resp = create_json_response(
                                            400,
                                            "{\"error\": \"Request body is empty\"}",
                                        );
                                        RequestOutcome::Reply { status: 400, response: resp }
                                    } else if !json_is_valid(b.as_str()) {
                                        let resp = create_json_response(
                                            400,
                                            "{\"error\": \"Invalid JSON format\"}",
                                        );
                                        RequestOutcome::Reply { status: 400, response: resp }
                                    } else {
                                        let (resp, status) = handle_chat_completion(
                                            b.as_str(),
                                            now_secs,
                                            id_nonce,
                                        );
                                        RequestOutcome::Reply { status, response: resp }
                                    }
                                },
                            }
                        },
                        _ => {
                            let resp = create_json_response(
                                404,
                                "{\"error\": \"Not found\"}",
                            );
                            RequestOutcome::Reply { status: 404, response: resp }
                        },
                    }
                },
            }
        },
    }
}

/// Dispatches one raw request, reading the clock for the timestamps and the
/// identifier that the response may carry.
pub fn handle_request(request: &str) -> (r: RequestOutcome)
    ensures
        r is ReplyThenStop <==> request_stops(request@),
        r matches RequestOutcome::Reply { status, response } ==> status == dispatch_status(
            request@,
        ) && exists|now: u64, nonce: u64|
            response@ == response_text(
                dispatch_status(request@),
                #[trigger] dispatch_body(request@, now, nonce),
            ),
        r matches RequestOutcome::ReplyThenStop { status, response } ==> status == 200 && exists|
            now: u64,
        |
            response@ == response_text(200, #[trigger] stop_body_text(now)),
{
    let now = crate::platform::get_unix_timestamp();
    let nanos = now_subsec_nanos();
    dispatch_request(request, now, nanos as u64)
}

proof fn lemma_stop_path_not_faulty()
    ensures
        !is_fault_path("/stop"@),
{
    reveal_strlit("/stop");
    reveal_strlit("error");
    reveal_strlit("fail");
    assert forall|i: int| !contains_at("/stop"@, "error"@, i) by {
        if contains_at("/stop"@, "error"@, i) {
            assert("/stop"@.subrange(i, i + 5)[0] == "error"@[0]);
            assert("/stop"@[i] == 'e');
        }
    }
    assert forall|i: int| !contains_at("/stop"@, "fail"@, i) by {
        if contains_at("/stop"@, "fail"@, i) {
            assert("/stop"@.subrange(i, i + 4)[0] == "fail"@[0]);
            assert("/stop"@[i] == 'f');
        }
    }
}

proof fn lemma_health_path_not_faulty()
    ensures
        !is_fault_path("/health"@),
{
    reveal_strlit("/health");
    reveal_strlit("error");
    reveal_strlit("fail");
    assert forall|i: int| !contains_at("/health"@, "error"@, i) by {
        if contains_at("/health"@, "error"@, i) {
            assert("/health"@.subrange(i, i + 5)[1] == "error"@[1]);
            assert("/health"@[i + 1] == 'r');
        }
    }
    assert forall|i: int| !contains_at("/health"@, "fail"@, i) by {
        if contains_at("/health"@, "fail"@, i) {
            assert("/health"@.subrange(i, i + 4)[0] == "fail"@[0]);
            assert("/health"@[i] == 'f');
        }
    }
}

proof fn lemma_chat_path_not_faulty()
    ensures
        !is_fault_path("/v1/chat/completions"@),
{
    reveal_strlit("/v1/chat/completions");
    reveal_strlit("error");
    reveal_strlit("fail");
    assert forall|i: int| !contains_at("/v1/chat/completions"@, "error"@, i) by {
        if contains_at("/v1/chat/completions"@, "error"@, i) {
            assert("/v1/chat/completions"@.subrange(i, i + 5)[0] == "error"@[0]);
            assert("/v1/chat/completions"@.subrange(i, i + 5)[1] == "error"@[1]);
            assert("/v1/chat/completions"@[i] == 'e');
            assert("/v1/chat/completions"@[i + 1] == 'r');
        }
    }
    assert forall|i: int| !contains_at("/v1/chat/completions"@, "fail"@, i) by {
        if contains_at("/v1/chat/completions"@, "fail"@, i) {
            assert("/v1/chat/completions"@.subrange(i, i + 4)[0] == "fail"@[0]);
            assert("/v1/chat/completions"@[i] == 'f');
        }
    }
}

proof fn lemma_concat_has_sub(a: Seq<char>, b: Seq<char>, c: Seq<char>)
    ensures
        has_sub(a + b + c, b),
{
    assert((a + b + c).subrange(a.len() as int, a.len() + b.len() as int) =~= b);
    assert(contains_at(a + b + c, b, a.len() as int));
}

/// Law: a parsed request whose path mentions "error" or "fail" is answered
/// with status 500, whatever its method selects.
pub proof fn lemma_fault_path_forces_500(req: Seq<char>, method: Seq<char>, path: Seq<char>)
    requires
        parse_request_line(first_line(req)) == Some((method, path)),
        is_fault_path(path),
    ensures
        dispatch_status(req) == 500,
        forall|now: u64, nonce: u64| #[trigger] dispatch_body(req, now, nonce) == fault_body_text(),
{
    if route_of(method, path) == Route::Stop {
        lemma_stop_path_not_faulty();
    }
}

/// Law: a request whose line parses to GET /health is always answered 200
/// with the fixed ok body, whatever clock reading or nonce is in hand.
pub proof fn lemma_health_always_ok(req: Seq<char>, now: u64, nonce: u64)
    requires
        parse_request_line(first_line(req)) == Some(("GET"@, "/health"@)),
    ensures
        dispatch_status(req) == 200,
        dispatch_body(req, now, nonce) == health_body_text(),
{
    lemma_health_path_not_faulty();
}

/// Law: a chat completion whose body section is present, not blank, and
/// accepted as JSON is answered 200, with a canned reply whose content is a
/// non-empty string carried inside the response body.  Bodies that mention
/// "error" are excluded: they ask for the simulated failure instead.
pub proof fn lemma_chat_valid_json_ok(
    req: Seq<char>,
    method: Seq<char>,
    path: Seq<char>,
    body: Seq<char>,
    now: u64,
    nonce: u64,
)
    requires
        parse_request_line(first_line(req)) == Some((method, path)),
        route_of(method, path) == Route::Chat,
        body_split(req) == Some(body),
        !all_space(body),
        json_accepts(body),
        !has_sub(body, "error"@),
    ensures
        dispatch_status(req) == 200,
        dispatch_body(req, now, nonce) == chat_body_text(chat_reply_of(body), now, nonce),
        chat_content(chat_reply_of(body)).len() > 0,
        has_sub(dispatch_body(req, now, nonce), chat_content(chat_reply_of(body))),
{
    lemma_chat_path_not_faulty();
    reveal_strlit("Hello! I'm an LLM running on Rust via HTTP API. How can I help you today?");
    reveal_strlit("Current model configuration: temperature=0.7, top_p=0.9, context_size=2048");
    reveal_strlit("I received your message. This is a simulated response from the LLM HTTP API.");
    let rep = chat_reply_of(body);
    let a = "{\"id\": \"chatcmpl-chat-"@ + dec_str((nonce % 1000000) as nat)
        + "\", \"object\": \"chat.completion\", \"created\": "@ + dec_str(now as nat)
        + ", \"model\": \"llm-rust\", \"choices\": [{\"index\": 0, \"message\": {\"role\": \"assistant\", \"content\": \""@;
    let c = "\"}, \"finish_reason\": \"stop\"}], \"usage\": {\"prompt_tokens\": 10, \"completion_tokens\": 20, \"total_tokens\": 30}}"@;
    assert(chat_body_text(rep, now, nonce) =~= a + chat_content(rep) + c);
    lemma_concat_has_sub(a, chat_content(rep), c);
}

/// Law: a chat completion without a body section, or with a blank one, is
/// answered exactly 400.
pub proof fn lemma_chat_blank_body_rejected(req: Seq<char>, method: Seq<char>, path: Seq<char>)
    requires
        parse_request_line(first_line(req)) == Some((method, path)),
        route_of(method, path) == Route::Chat,
        body_split(req) is None || all_space(body_split(req)->0),
    ensures
        dispatch_status(req) == 400,
        forall|now: u64, nonce: u64|
            #[trigger] dispatch_body(req, now, nonce) == (if body_split(req) is None {
                bad_format_body_text()
            } else {
                empty_body_text()
            }),
{
    lemma_chat_path_not_faulty();
}

/// Law: a chat completion whose body section is present and not blank but
/// is rejected by the JSON parser is answered exactly 400, with the fixed
/// rejection body.
pub proof fn lemma_chat_invalid_json_rejected(
    req: Seq<char>,
    method: Seq<char>,
    path: Seq<char>,
    body: Seq<char>,
    now: u64,
    nonce: u64,
)
    requires
        parse_request_line(first_line(req)) == Some((method, path)),
        route_of(method, path) == Route::Chat,
        body_split(req) == Some(body),
        !all_space(body),
        !json_accepts(body),
    ensures
        dispatch_status(req) == 400,
        dispatch_body(req, now, nonce) == bad_json_body_text(),
{
    lemma_chat_path_not_faulty();
}

/// Law: a parsed request for the stop path, by POST or GET, asks for
/// process termination and is acknowledged with 200.
pub proof fn lemma_stop_requests_termination(req: Seq<char>, method: Seq<char>)
    requires
        parse_request_line(first_line(req)) == Some((method, "/stop"@)),
        method == "POST"@ || method == "GET"@,
    ensures
        request_stops(req),
        dispatch_status(req) == 200,
{
    reveal_strlit("GET");
    reveal_strlit("POST");
    reveal_strlit("/health");
    reveal_strlit("/v1/models");
    reveal_strlit("/v1/chat/completions");
    reveal_strlit("/stop");
    assert("/stop"@.len() == 5);
    assert("/health"@.len() == 7);
    assert("GET"@.len() == 3);
    assert("POST"@.len() == 4);
    assert(route_of(method, "/stop"@) == Route::Stop);
}

/// Law: a request whose first line lacks a method or a path is a parse
/// error: it is still answered, with status 400 and the structured
/// invalid-request-format body, never by closing the connection silently.
pub proof fn lemma_malformed_line_rejected(req: Seq<char>, now: u64, nonce: u64)
    requires
        parse_request_line(first_line(req)) is None,
    ensures
        dispatch_status(req) == 400,
        dispatch_body(req, now, nonce) == bad_format_body_text(),
        !request_stops(req),
{
}

/// Law: every request is answered with one of the four statuses of the
/// error taxonomy: 200, 400, 404 or 500.
pub proof fn lemma_status_taxonomy(req: Seq<char>)
    ensures
        dispatch_status(req) == 200 || dispatch_status(req) == 400 || dispatch_status(req) == 404
            || dispatch_status(req) == 500,
{
}

} // verus!
