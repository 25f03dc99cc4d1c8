//! The long-poll session: the cursor, the one-round poll step with its
//! skip-but-advance rule, and the request shapes the remote calls are
//! issued with.

use vstd::prelude::*;
use vstd::string::StringExecFns;

use crate::envelope::{ApiFailure, ApiFailureV, env_result, open_envelope};
use crate::json::{Json, as_u64, obj_get, parse_document, parsed_document, slookup};
use crate::num::{dec_seq, dec_seq_i64, i64_to_dec, u64_to_dec};
use crate::schema::{
    EventBatch, PollServer, PollServerV, dec_batch, dec_server, dec_ts, decode_batch,
    decode_server, decode_ts, decode_user_array, dec_user_array, UserRecord, UserV,
};

verus! {

/// The poll cursor: the server/key credential pair and the `ts` marker
/// of the next long-poll window.
#[derive(Clone, Debug)]
pub struct PollCursor {
    pub key: String,
    pub server: String,
    pub ts: i64,
}

pub struct PollCursorV {
    pub key: Seq<char>,
    pub server: Seq<char>,
    pub ts: i64,
}

impl PollCursor {
    pub open spec fn dv(self) -> PollCursorV {
        PollCursorV { key: self.key@, server: self.server@, ts: self.ts }
    }
}

/// What one poll round yields: a decoded batch, a skipped batch whose
/// cursor still advanced, or a fatal round with no usable marker.
#[derive(Debug)]
pub enum PollOutcome {
    Batch(EventBatch),
    Skipped { ts: i64 },
    Fatal,
}

/// The `ts` marker read loosely off the raw document, before the typed
/// decode is attempted: the safety net that keeps the cursor moving.
pub open spec fn loose_ts(j: Json) -> Option<i64> {
    match j {
        Json::Obj(entries) => match slookup(entries@, "ts"@) {
            Some(t) => dec_ts(t),
            None => None,
        },
        _ => None,
    }
}

/// Reads the loose marker, exactly as `loose_ts` says.
pub fn extract_loose_ts(doc: &Json) -> (r: Option<i64>)
    ensures
        r == loose_ts(*doc),
{
    match doc {
        Json::Obj(entries) => match obj_get(entries, "ts") {
            Some(t) => decode_ts(t),
            None => None,
        },
        _ => None,
    }
}

/// The protocol writes the marker twice; the loose read and the typed
/// read can never disagree on a batch that decodes.
pub proof fn lemma_ts_reads_agree(doc: Json)
    ensures
        dec_batch(doc) matches Some(b) ==> loose_ts(doc) == Some(b.ts),
{
}

/// What the get-long-poll-server call's body means: the triple on
/// success, a domain error or a malformed body otherwise.
pub open spec fn server_response(doc: Json) -> Result<PollServerV, ApiFailureV> {
    match env_result(doc) {
        None => Err(ApiFailureV::Malformed),
        Some(r) => match r {
            Err(e) => Err(ApiFailureV::Domain(e)),
            Ok(inner) => match dec_server(inner) {
                Some(p) => Ok(p),
                None => Err(ApiFailureV::Malformed),
            },
        },
    }
}

/// Decodes the get-long-poll-server call's body, exactly as
/// `server_response` says.
pub fn decode_server_response(doc: &Json) -> (r: Result<PollServer, ApiFailure>)
    ensures
        r matches Ok(p) ==> server_response(*doc) == Ok::<PollServerV, ApiFailureV>(p.dv()),
        r matches Err(f) ==> server_response(*doc) == Err::<PollServerV, ApiFailureV>(f.dv()),
{
    match open_envelope(doc) {
        Ok(inner) => match decode_server(inner) {
            Some(p) => Ok(p),
            None => Err(ApiFailure::Malformed),
        },
        Err(f) => Err(f),
    }
}

/// What the user-lookup call's body means: one user record on success.
pub open spec fn user_response(doc: Json) -> Result<UserV, ApiFailureV> {
    match env_result(doc) {
        None => Err(ApiFailureV::Malformed),
        Some(r) => match r {
            Err(e) => Err(ApiFailureV::Domain(e)),
            Ok(inner) => match dec_user_array(inner) {
                Some(u) => Ok(u),
                None => Err(ApiFailureV::Malformed),
            },
        },
    }
}

/// Decodes the user-lookup call's body, exactly as `user_response`
/// says.
pub fn decode_user_response(doc: &Json) -> (r: Result<UserRecord, ApiFailure>)
    ensures
        r matches Ok(u) ==> user_response(*doc) == Ok::<UserV, ApiFailureV>(u.dv()),
        r matches Err(f) ==> user_response(*doc) == Err::<UserV, ApiFailureV>(f.dv()),
{
    match open_envelope(doc) {
        Ok(inner) => match decode_user_array(inner) {
            Some(u) => Ok(u),
            None => Err(ApiFailure::Malformed),
        },
        Err(f) => Err(f),
    }
}

/// What the send-message call's body means: the sent message's
/// identifier on success.
pub open spec fn send_response(doc: Json) -> Result<u64, ApiFailureV> {
    match env_result(doc) {
        None => Err(ApiFailureV::Malformed),
        Some(r) => match r {
            Err(e) => Err(ApiFailureV::Domain(e)),
            Ok(inner) => match as_u64(inner) {
                Some(id) => Ok(id),
                None => Err(ApiFailureV::Malformed),
            },
        },
    }
}

/// Decodes the send-message call's body, exactly as `send_response`
/// says.
pub fn decode_send_response(doc: &Json) -> (r: Result<u64, ApiFailure>)
    ensures
        r matches Ok(id) ==> send_response(*doc) == Ok::<u64, ApiFailureV>(id),
        r matches Err(f) ==> send_response(*doc) == Err::<u64, ApiFailureV>(f.dv()),
{
    match open_envelope(doc) {
        Ok(inner) => match crate::json::exec_as_u64(inner) {
            Some(id) => Ok(id),
            None => Err(ApiFailure::Malformed),
        },
        Err(f) => Err(f),
    }
}

/// The long-poll request line: the resolved server, the credential,
/// the cursor and the bounded wait.
pub open spec fn poll_url_spec(c: PollCursorV, wait: u64) -> Seq<char> {
    c.server + "?act=a_check&key="@ + c.key + "&ts="@ + dec_seq_i64(c.ts as int) + "&wait="@
        + dec_seq(wait as nat)
}

/// The long-poll ingestion session: owns the cursor, advances it once
/// per round, and never lets a payload that fails the typed decode
/// stall the loop.
#[derive(Debug)]
pub struct Session {
    pub cursor: PollCursor,
    pub wait: u64,
}

impl Session {
    /// Opens a session from the get-long-poll-server body; fatal on
    /// any error, since there is no session without the triple.
    pub fn initialize(doc: &Json, wait: u64) -> (r: Result<Session, ApiFailure>)
        ensures
            r matches Ok(s) ==> (server_response(*doc) matches Ok(p) && s.cursor.key@ == p.key
                && s.cursor.server@ == p.server && s.cursor.ts == p.ts && s.wait == wait),
            r matches Err(f) ==> server_response(*doc) == Err::<PollServerV, ApiFailureV>(
                f.dv(),
            ),
    {
        match decode_server_response(doc) {
            Ok(p) => Ok(
                Session {
                    cursor: PollCursor { key: p.key, server: p.server, ts: p.ts },
                    wait,
                },
            ),
            Err(f) => Err(f),
        }
    }

    /// Renders the poll request line, exactly `poll_url_spec`.
    pub fn poll_url(&self) -> (r: String)
        ensures
            r@ == poll_url_spec(self.cursor.dv(), self.wait),
    {
        let mut s = self.cursor.server.clone();
        s.append("?act=a_check&key=");
        s.append(self.cursor.key.as_str());
        s.append("&ts=");
        let ts = i64_to_dec(self.cursor.ts);
        s.append(ts.as_str());
        s.append("&wait=");
        let w = u64_to_dec(self.wait);
        s.append(w.as_str());
        proof {
            assert(s@ =~= poll_url_spec(self.cursor.dv(), self.wait));
        }
        s
    }

    /// One poll round over an already-parsed response body.
    ///
    /// The marker is read loosely first and the cursor advances on it
    /// unconditionally; without any usable marker the round is fatal
    /// and the cursor holds. Only then is the typed decode attempted:
    /// a body that fails it yields no events but keeps the advanced
    /// cursor, so the session never re-polls a stale window; a body
    /// that passes yields its events under its own (agreeing) marker.
    pub fn poll_once(&mut self, doc: &Json) -> (r: PollOutcome)
        ensures
            final(self).cursor.key == old(self).cursor.key,
            final(self).cursor.server == old(self).cursor.server,
            final(self).wait == old(self).wait,
            loose_ts(*doc) is None ==> (r is Fatal && final(self).cursor.ts
                == old(self).cursor.ts),
            loose_ts(*doc) matches Some(t) ==> (dec_batch(*doc) is None ==> (r matches
                PollOutcome::Skipped { ts } && ts == t && final(self).cursor.ts == t)),
            dec_batch(*doc) matches Some(b) ==> (r matches PollOutcome::Batch(batch)
                && batch.dv() == b && final(self).cursor.ts == b.ts),
    {
        let t = match extract_loose_ts(doc) {
            Some(t) => t,
            None => {
                proof {
                    lemma_ts_reads_agree(*doc);
                }
                return PollOutcome::Fatal;
            },
        };
        self.cursor.ts = t;
        match decode_batch(doc) {
            Some(batch) => {
                self.cursor.ts = batch.ts;
                PollOutcome::Batch(batch)
            },
            None => PollOutcome::Skipped { ts: t },
        }
    }

    /// One poll round over the raw response text. A text that is not
    /// JSON at all carries no marker, so the round is fatal and the
    /// cursor holds; otherwise the round proceeds as `poll_once`.
    pub fn poll_round(&mut self, body: &str) -> (r: PollOutcome)
        ensures
            final(self).cursor.key == old(self).cursor.key,
            final(self).cursor.server == old(self).cursor.server,
            final(self).wait == old(self).wait,
            parsed_document(body@) is None ==> (r is Fatal
                && final(self).cursor.ts == old(self).cursor.ts),
            parsed_document(body@) matches Some(doc) ==> (loose_ts(doc) is None ==> (r is Fatal
                && final(self).cursor.ts == old(self).cursor.ts)),
            parsed_document(body@) matches Some(doc) ==> (loose_ts(doc) matches Some(t) ==> (
            dec_batch(doc) is None ==> (r matches PollOutcome::Skipped { ts } && ts == t
                && final(self).cursor.ts == t))),
            parsed_document(body@) matches Some(doc) ==> (dec_batch(doc) matches Some(b) ==> (
            r matches PollOutcome::Batch(batch) && batch.dv() == b && final(self).cursor.ts
                == b.ts)),
    {
        match parse_document(body) {
            Some(doc) => self.poll_once(&doc),
            None => PollOutcome::Fatal,
        }
    }
}

/// The account-side client state: the token, the group and the bounded
/// poll wait the session is opened with.
#[derive(Clone, Debug)]
pub struct Bot {
    pub token: String,
    pub group_id: u64,
    pub wait: u64,
}

impl Bot {
    /// A fresh client with the default 25-second poll wait.
    pub fn new(token: String, group_id: u64) -> (r: Bot)
        ensures
            r.token == token,
            r.group_id == group_id,
            r.wait == 25,
    {
        Bot { token, group_id, wait: 25 }
    }

    /// The query of the get-long-poll-server call.
    pub fn long_poll_server_params(&self) -> (r: Vec<(String, String)>)
        ensures
            r@.len() == 3,
            r@[0].0@ == "group_id"@ && r@[0].1@ == dec_seq(self.group_id as nat),
            r@[1].0@ == "access_token"@ && r@[1].1@ == self.token@,
            r@[2].0@ == "v"@ && r@[2].1@ == "5.199"@,
    {
        let mut v: Vec<(String, String)> = Vec::new();
        v.push(("group_id".to_owned(), u64_to_dec(self.group_id)));
        v.push(("access_token".to_owned(), self.token.clone()));
        v.push(("v".to_owned(), "5.199".to_owned()));
        v
    }

    /// The query of the user-lookup call for a sender.
    pub fn users_get_params(&self, from_id: i64) -> (r: Vec<(String, String)>)
        ensures
            r@.len() == 3,
            r@[0].0@ == "user_ids"@ && r@[0].1@ == dec_seq_i64(from_id as int),
            r@[1].0@ == "access_token"@ && r@[1].1@ == self.token@,
            r@[2].0@ == "v"@ && r@[2].1@ == "5.199"@,
    {
        let mut v: Vec<(String, String)> = Vec::new();
        v.push(("user_ids".to_owned(), i64_to_dec(from_id)));
        v.push(("access_token".to_owned(), self.token.clone()));
        v.push(("v".to_owned(), "5.199".to_owned()));
        v
    }

    /// The query of the send-message call to a fixed conversation.
    pub fn send_message_params(&self, peer_id: u64, text: &str) -> (r: Vec<(String, String)>)
        ensures
            r@.len() == 6,
            r@[0].0@ == "peer_id"@ && r@[0].1@ == dec_seq(peer_id as nat),
            r@[1].0@ == "random_id"@ && r@[1].1@ == "0"@,
            r@[2].0@ == "message"@ && r@[2].1@ == text@,
            r@[3].0@ == "group_id"@ && r@[3].1@ == dec_seq(self.group_id as nat),
            r@[4].0@ == "access_token"@ && r@[4].1@ == self.token@,
            r@[5].0@ == "v"@ && r@[5].1@ == "5.199"@,
    {
        let mut v: Vec<(String, String)> = Vec::new();
        v.push(("peer_id".to_owned(), u64_to_dec(peer_id)));
        v.push(("random_id".to_owned(), "0".to_owned()));
        v.push(("message".to_owned(), text.to_owned()));
        v.push(("group_id".to_owned(), u64_to_dec(self.group_id)));
        v.push(("access_token".to_owned(), self.token.clone()));
        v.push(("v".to_owned(), "5.199".to_owned()));
        v
    }
}

/// The method endpoint of a remote call.
pub fn api_url(method: &str) -> (r: String)
    ensures
        r@ == "http://api.vk.com/method/"@ + method@,
{
    let mut s = "http://api.vk.com/method/".to_owned();
    s.append(method);
    s
}

} // verus!
