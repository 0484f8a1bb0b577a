//! What the daemon does with each line a client sends: blank lines are
//! skipped, unparsable ones answered with a parse error, notifications run
//! without an answer, and requests run and are answered with their id.

use vstd::prelude::*;
use crate::io::output::Response;
use crate::json::JsonValue;
use crate::output::table::trim_end;
use crate::rpc::dispatch::{Dispatcher, Routed, routed_as};
use crate::rpc::protocol::error_codes::PARSE_ERROR;
use crate::rpc::protocol::{is_response_of, RpcRequest, RpcResponse};
use crate::storage::paths::{config_dir_in, joined_path, socket_file};
use crate::text::{char_is_whitespace, is_ws, owned, push_str};

verus! {

/// Where the daemon listens when nothing else is configured and no
/// configuration directory is known.
pub const FALLBACK_SOCKET: &'static str = "/tmp/spotify-cli.sock";

/// Server settings.
#[derive(Debug)]
pub struct ServerConfig {
    pub socket_path: String,
}

impl Default for ServerConfig {
    /// The socket in the configuration directory, else `/tmp/spotify-cli.sock`.
    fn default() -> (c: Self)
        ensures
            (exists|h: Seq<char>| c.socket_path@ == joined_path(#[trigger] config_dir_in(h), "daemon.sock"@))
                || c.socket_path@ == FALLBACK_SOCKET@,
    {
        let socket_path = match socket_file() {
            Ok(p) => p,
            Err(_) => owned(FALLBACK_SOCKET),
        };
        proof {
            reveal_strlit("/tmp/spotify-cli.sock");
            reveal_strlit("daemon.sock");
        }
        ServerConfig { socket_path }
    }
}

/// `s` without leading whitespace.
pub open spec fn trim_start(s: Seq<char>) -> Seq<char>
    decreases s.len(),
{
    if s.len() > 0 && is_ws(s[0]) {
        trim_start(s.drop_first())
    } else {
        s
    }
}

/// Whether a line holds only whitespace.
pub fn is_blank(line: &str) -> (b: bool)
    ensures
        b == (trim_end(line@).len() == 0),
{
    let n = line.unicode_len();
    let mut k: usize = n;
    assert(line@.take(n as int) =~= line@);
    while k > 0 && char_is_whitespace(line.get_char(k - 1))
        invariant
            k <= line@.len(),
            n == line@.len(),
            trim_end(line@) == trim_end(line@.take(k as int)),
        decreases k,
    {
        assert(line@.take(k as int).drop_last() =~= line@.take(k - 1));
        k = k - 1;
    }
    proof {
        if k > 0 {
            assert(line@.take(k as int).last() == line@[k - 1]);
        }
    }
    k == 0
}

/// The line without surrounding whitespace (`str::trim`).
pub fn trim_line(line: &str) -> (r: String)
    ensures
        r@ == trim_start(trim_end(line@)),
{
    let t = crate::output::table::trim_end_string(&owned(line));
    let n = t.as_str().unicode_len();
    let mut k: usize = 0;
    assert(t@.skip(0) =~= t@);
    while k < n && char_is_whitespace(t.as_str().get_char(k))
        invariant
            k <= n,
            n == t@.len(),
            trim_start(t@) == trim_start(t@.skip(k as int)),
        decreases n - k,
    {
        assert(t@.skip(k as int).drop_first() =~= t@.skip(k + 1));
        k = k + 1;
    }
    proof {
        if k < n {
            assert(t@.skip(k as int)[0] == t@[k as int]);
        }
    }
    let r = owned(t.as_str().substring_char(k, n));
    assert(r@ =~= t@.skip(k as int));
    r
}

/// What to do with one line from a client.
pub enum LineStep {
    /// A blank line: nothing.
    Skip,
    /// Answer at once.
    Answer(RpcResponse),
    /// Run the routed request; answer with its id unless it is a
    /// notification.
    Run { routed: Routed, id: Option<JsonValue> },
}

/// The answer to a line that did not parse.
pub fn parse_error_response(reason: &str) -> (r: RpcResponse)
    ensures
        r.id == JsonValue::Null,
        r.result is None,
        match r.error {
            Some(e) => e.code == PARSE_ERROR && e.message@ == "Parse error: "@ + reason@ && e.data is None,
            None => false,
        },
{
    let mut m = owned("Parse error: ");
    push_str(&mut m, reason);
    RpcResponse::error(JsonValue::Null, PARSE_ERROR, m.as_str(), None)
}

/// The step for a line that is not blank, given what parsing it gave.
pub fn request_step(dispatcher: &Dispatcher, parsed: Result<RpcRequest, String>) -> (s: LineStep)
    ensures
        match parsed {
            Err(reason) => match s {
                LineStep::Answer(r) => r.id == JsonValue::Null && match r.error {
                    Some(e) => e.code == PARSE_ERROR && e.message@ == "Parse error: "@ + reason@,
                    None => false,
                },
                _ => false,
            },
            Ok(req) => s matches LineStep::Run { routed, id } && routed_as(routed, req.method@, req.params)
                && id == req.id,
        },
{
    match parsed {
        Err(reason) => LineStep::Answer(parse_error_response(reason.as_str())),
        Ok(req) => {
            let routed = dispatcher.route(&req);
            LineStep::Run { routed, id: req.id }
        },
    }
}

/// The answer to a request that ran: none for a notification, else the
/// command's response under the request's id.
pub fn answer(id: Option<JsonValue>, response: Response) -> (r: Option<RpcResponse>)
    ensures
        id is None ==> r is None,
        id matches Some(i) ==> (r matches Some(resp) && is_response_of(resp, i, response)),
{
    match id {
        None => None,
        Some(i) => Some(RpcResponse::from_response(i, response)),
    }
}

} // verus!
