//! The bridge-facing message shapes and the pure translator between
//! them and the inbound schema: inbound messages become relay requests
//! (with the sender's resolved name), relay responses become the
//! display text of the send-message call.

use vstd::prelude::*;
use vstd::string::StringExecFns;

use crate::num::{dec_seq, u64_to_dec};
use crate::schema::{Message, MessageV, UpdateEvent, UpdateV, UserRecord, UserV};

verus! {

/// The text encoding of a relay body.
#[derive(Clone, Copy, PartialEq, Eq, Debug)]
pub enum TextFormat {
    Plain,
}

/// A relay message body: text, or media rendered as empty text.
#[derive(Clone, Debug, PartialEq)]
pub enum RelayBody {
    Text { format: TextFormat, value: String },
    Media,
}

/// The request shape pushed onto the outbound stream.
#[derive(Clone, Debug, PartialEq)]
pub struct RelayRequest {
    pub reply_msg_id: Option<String>,
    pub created_at: i64,
    pub author: Option<String>,
    pub is_silent: bool,
    pub body: Option<RelayBody>,
}

/// The response shape received on the inbound stream; it carries the
/// origin `client` alongside the author.
#[derive(Clone, Debug, PartialEq)]
pub struct RelayResponse {
    pub reply_msg_id: Option<String>,
    pub created_at: i64,
    pub author: Option<String>,
    pub is_silent: bool,
    pub client: String,
    pub body: Option<RelayBody>,
}

pub enum RelayBodyV {
    Text { format: TextFormat, value: Seq<char> },
    Media,
}

pub struct RelayRequestV {
    pub reply_msg_id: Option<Seq<char>>,
    pub created_at: i64,
    pub author: Option<Seq<char>>,
    pub is_silent: bool,
    pub body: Option<RelayBodyV>,
}

pub struct RelayResponseV {
    pub reply_msg_id: Option<Seq<char>>,
    pub created_at: i64,
    pub author: Option<Seq<char>>,
    pub is_silent: bool,
    pub client: Seq<char>,
    pub body: Option<RelayBodyV>,
}

impl RelayBody {
    pub open spec fn dv(self) -> RelayBodyV {
        match self {
            RelayBody::Text { format, value } => RelayBodyV::Text { format, value: value@ },
            RelayBody::Media => RelayBodyV::Media,
        }
    }
}

pub open spec fn dv_opt_text(s: Option<String>) -> Option<Seq<char>> {
    match s {
        Some(t) => Some(t@),
        None => None,
    }
}

pub open spec fn dv_opt_body(b: Option<RelayBody>) -> Option<RelayBodyV> {
    match b {
        Some(x) => Some(x.dv()),
        None => None,
    }
}

impl RelayRequest {
    pub open spec fn dv(self) -> RelayRequestV {
        RelayRequestV {
            reply_msg_id: dv_opt_text(self.reply_msg_id),
            created_at: self.created_at,
            author: dv_opt_text(self.author),
            is_silent: self.is_silent,
            body: dv_opt_body(self.body),
        }
    }
}

impl RelayResponse {
    pub open spec fn dv(self) -> RelayResponseV {
        RelayResponseV {
            reply_msg_id: dv_opt_text(self.reply_msg_id),
            created_at: self.created_at,
            author: dv_opt_text(self.author),
            is_silent: self.is_silent,
            client: self.client@,
            body: dv_opt_body(self.body),
        }
    }
}

/// Why translating one message for relay failed; either condition is
/// fatal for that message's forwarding only.
#[derive(Clone, Copy, PartialEq, Eq, Debug)]
pub enum TranslateError {
    AuthorMissing,
    TimestampOutOfRange,
}

/// The author line of a relay request: the literal `Unknown` for a
/// community or system sender, the looked-up `first last` pair for a
/// user sender, nothing when the lookup failed (no name is made up).
pub open spec fn author_text(m: MessageV, lookup: Option<UserV>) -> Option<Seq<char>> {
    if m.from_id <= 0 {
        Some("Unknown"@)
    } else {
        match lookup {
            Some(u) => Some(u.first_name + " "@ + u.last_name),
            None => None,
        }
    }
}

/// What an inbound message translates to, given the outcome of the
/// sender lookup: a plain-text relay request whose reply identifier is
/// the stringified reply id exactly when a reply is present.
pub open spec fn translate_spec(m: MessageV, lookup: Option<UserV>) -> Result<
    RelayRequestV,
    TranslateError,
> {
    match author_text(m, lookup) {
        None => Err(TranslateError::AuthorMissing),
        Some(a) => {
            if m.date > i64::MAX as u64 {
                Err(TranslateError::TimestampOutOfRange)
            } else {
                Ok(
                    RelayRequestV {
                        reply_msg_id: match m.reply {
                            Some(r) => Some(dec_seq(r.id as nat)),
                            None => None,
                        },
                        created_at: m.date as i64,
                        author: Some(a),
                        is_silent: false,
                        body: Some(RelayBodyV::Text { format: TextFormat::Plain, value: m.text }),
                    },
                )
            }
        },
    }
}

/// Translates one inbound message, exactly as `translate_spec` says.
pub fn to_relay_request(m: &Message, lookup: Option<&UserRecord>) -> (r: Result<
    RelayRequest,
    TranslateError,
>)
    ensures
        r matches Ok(q) ==> translate_spec(
            m.dv(),
            match lookup {
                Some(u) => Some(u.dv()),
                None => None,
            },
        ) == Ok::<RelayRequestV, TranslateError>(q.dv()),
        r matches Err(e) ==> translate_spec(
            m.dv(),
            match lookup {
                Some(u) => Some(u.dv()),
                None => None,
            },
        ) == Err::<RelayRequestV, TranslateError>(e),
{
    let author: String = if m.from_id <= 0 {
        "Unknown".to_owned()
    } else {
        match lookup {
            Some(u) => {
                let mut a = u.first_name.clone();
                a.append(" ");
                a.append(u.last_name.as_str());
                a
            },
            None => {
                return Err(TranslateError::AuthorMissing);
            },
        }
    };
    if m.date > i64::MAX as u64 {
        return Err(TranslateError::TimestampOutOfRange);
    }
    let reply_msg_id: Option<String> = match &m.reply {
        Some(r) => Some(u64_to_dec(r.id)),
        None => None,
    };
    proof {
        if m.reply is Some {
            let b = m.reply->0;
            assert(m.dv().reply == Some(Box::new((*b).dv())));
            assert((*b).dv().id == (*b).id);
        }
    }
    Ok(
        RelayRequest {
            reply_msg_id,
            created_at: m.date as i64,
            author: Some(author),
            is_silent: false,
            body: Some(RelayBody::Text { format: TextFormat::Plain, value: m.text.clone() }),
        },
    )
}

/// Translating is a function of the message and the lookup outcome
/// alone: two translations of the same message under the same lookup
/// are identical.
pub proof fn lemma_translate_idempotent(
    m: MessageV,
    lookup: Option<UserV>,
    r1: Result<RelayRequestV, TranslateError>,
    r2: Result<RelayRequestV, TranslateError>,
)
    requires
        r1 == translate_spec(m, lookup),
        r2 == translate_spec(m, lookup),
    ensures
        r1 == r2,
{
}

/// A community or system sender needs no lookup: whatever the lookup
/// returned, the translation is the same, with the author `Unknown`.
pub proof fn lemma_no_lookup_for_community(m: MessageV, l1: Option<UserV>, l2: Option<UserV>)
    requires
        m.from_id <= 0,
    ensures
        translate_spec(m, l1) == translate_spec(m, l2),
        translate_spec(m, l1) matches Ok(q) ==> q.author == Some("Unknown"@),
{
}

/// A user sender's author line is exactly the looked-up name pair, and
/// a failed lookup is fatal for that message.
pub proof fn lemma_author_from_lookup(m: MessageV, lookup: Option<UserV>)
    requires
        m.from_id > 0,
    ensures
        translate_spec(m, lookup) matches Ok(q) ==> (lookup matches Some(u) ==> q.author == Some(
            u.first_name + " "@ + u.last_name,
        )),
        lookup is None ==> translate_spec(m, lookup) == Err::<RelayRequestV, TranslateError>(
            TranslateError::AuthorMissing,
        ),
{
}

/// The reply identifier carries over exactly when a reply is present,
/// as its decimal rendering.
pub proof fn lemma_reply_id_carries(m: MessageV, lookup: Option<UserV>)
    ensures
        translate_spec(m, lookup) matches Ok(q) ==> (q.reply_msg_id is Some <==> m.reply is Some),
        translate_spec(m, lookup) matches Ok(q) ==> (m.reply matches Some(p) ==> q.reply_msg_id
            == Some(dec_seq(p.id as nat))),
{
}

/// The text a relay body displays as: absent bodies display a note,
/// media bodies display as empty text.
pub open spec fn body_text(b: Option<RelayBodyV>) -> Seq<char> {
    match b {
        None => "no text"@,
        Some(RelayBodyV::Text { format, value }) => value,
        Some(RelayBodyV::Media) => Seq::empty(),
    }
}

/// The optional first line naming the replied-to message.
pub open spec fn reply_line(r: Option<Seq<char>>) -> Seq<char> {
    match r {
        Some(id) => "reply to: "@ + id,
        None => Seq::empty(),
    }
}

/// The display text of a relay response, as the send-message call
/// delivers it.
pub open spec fn render_spec(resp: RelayResponseV) -> Seq<char> {
    "\n"@ + reply_line(resp.reply_msg_id) + "\n["@ + (match resp.author {
        Some(a) => a,
        None => Seq::empty(),
    }) + " from "@ + resp.client + "]: "@ + body_text(resp.body)
}

/// Renders a relay response for delivery, exactly `render_spec`.
pub fn render_outbound(resp: &RelayResponse) -> (r: String)
    ensures
        r@ == render_spec(resp.dv()),
{
    let mut s = "\n".to_owned();
    match &resp.reply_msg_id {
        Some(id) => {
            s.append("reply to: ");
            s.append(id.as_str());
        },
        None => {},
    }
    s.append("\n[");
    match &resp.author {
        Some(a) => {
            s.append(a.as_str());
        },
        None => {},
    }
    s.append(" from ");
    s.append(resp.client.as_str());
    s.append("]: ");
    match &resp.body {
        None => {
            s.append("no text");
        },
        Some(b) => match b {
            RelayBody::Text { format, value } => {
                s.append(value.as_str());
            },
            RelayBody::Media => {},
        },
    }
    proof {
        assert(s@ =~= render_spec(resp.dv()));
    }
    s
}

/// Which message a long-poll event carries to the handler.
pub open spec fn dispatched(e: UpdateV) -> MessageV {
    match e {
        UpdateV::MessageNew { message } => message,
    }
}

/// Demultiplexes one event by its tag and hands the message out,
/// exactly as `dispatched` says.
pub fn dispatch(event: UpdateEvent) -> (r: Message)
    ensures
        r.dv() == dispatched(event.dv()),
{
    match event {
        UpdateEvent::MessageNew { message } => message,
    }
}

} // verus!
