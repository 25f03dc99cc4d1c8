//! The inbound message schema: the typed shapes the long-poll protocol
//! delivers, and their strict decoders from a parsed document. The
//! schema is closed: an unknown key, a missing field, a wrong type or
//! an unrecognised tag fails the decode of the whole value.

use vstd::prelude::*;

use crate::json::{
    Json, as_i64, get_bool, get_i64, get_text, get_u64, lemma_slookup_decreases, obj_get,
    obj_strict, req_bool, req_i64, req_text, req_u64, slookup, str_eq, strict_obj, views_of,
};
use crate::num::dec_i64_of;

verus! {

broadcast use vstd::std_specs::vec::group_vec_axioms;

/// The size classes a photo rendition is tagged with.
#[derive(Clone, Copy, PartialEq, Eq, Debug)]
pub enum SizeKind {
    Small,
    Medium,
    X,
    Y,
    Z,
    W,
    O,
    P,
    Q,
    R,
}

/// One rendition of a photo attachment.
#[derive(Clone, Debug)]
pub struct Size {
    pub height: u64,
    pub width: u64,
    pub kind: SizeKind,
    pub url: String,
}

/// An attachment, tagged by its type string; the schema is closed, so
/// any tag but a photo's fails the decode.
#[derive(Clone, Debug)]
pub enum Attachment {
    Photo { owner_id: u64, id: u64, access_key: String, sizes: Vec<Size> },
}

/// An inbound message: a tree, owned by the event that produced it and
/// read-only after construction.
#[derive(Debug)]
pub struct Message {
    pub id: u64,
    pub peer_id: u64,
    pub from_id: i64,
    pub date: u64,
    pub text: String,
    pub reply: Option<Box<Message>>,
    pub attachments: Vec<Attachment>,
    pub fwd_messages: Vec<Message>,
}

/// A long-poll event; the tag set is closed.
#[derive(Debug)]
pub enum UpdateEvent {
    MessageNew { message: Message },
}

/// One successfully decoded long-poll batch.
#[derive(Debug)]
pub struct EventBatch {
    pub ts: i64,
    pub updates: Vec<UpdateEvent>,
}

/// A record of the user-lookup call.
#[derive(Clone, Debug)]
pub struct UserRecord {
    pub id: u64,
    pub first_name: String,
    pub last_name: String,
    pub can_access_closed: bool,
    pub is_closed: bool,
}

/// The server/key/cursor triple the session is initialised from.
#[derive(Clone, Debug)]
pub struct PollServer {
    pub key: String,
    pub server: String,
    pub ts: i64,
}

pub struct SizeV {
    pub height: u64,
    pub width: u64,
    pub kind: SizeKind,
    pub url: Seq<char>,
}

pub enum AttachmentV {
    Photo { owner_id: u64, id: u64, access_key: Seq<char>, sizes: Seq<SizeV> },
}

pub struct MessageV {
    pub id: u64,
    pub peer_id: u64,
    pub from_id: i64,
    pub date: u64,
    pub text: Seq<char>,
    pub reply: Option<Box<MessageV>>,
    pub attachments: Seq<AttachmentV>,
    pub fwd_messages: Seq<MessageV>,
}

pub enum UpdateV {
    MessageNew { message: MessageV },
}

pub struct BatchV {
    pub ts: i64,
    pub updates: Seq<UpdateV>,
}

pub struct UserV {
    pub id: u64,
    pub first_name: Seq<char>,
    pub last_name: Seq<char>,
    pub can_access_closed: bool,
    pub is_closed: bool,
}

pub struct PollServerV {
    pub key: Seq<char>,
    pub server: Seq<char>,
    pub ts: i64,
}

impl Size {
    pub open spec fn dv(self) -> SizeV {
        SizeV { height: self.height, width: self.width, kind: self.kind, url: self.url@ }
    }
}

pub open spec fn dv_sizes(s: Seq<Size>) -> Seq<SizeV>
    decreases s,
{
    if s.len() == 0 {
        Seq::empty()
    } else {
        seq![s[0].dv()] + dv_sizes(s.drop_first())
    }
}

pub proof fn lemma_dv_sizes(s: Seq<Size>)
    ensures
        dv_sizes(s).len() == s.len(),
        forall|i: int| 0 <= i < s.len() ==> dv_sizes(s)[i] == s[i].dv(),
    decreases s.len(),
{
    if s.len() > 0 {
        lemma_dv_sizes(s.drop_first());
    }
}

impl Attachment {
    pub open spec fn dv(self) -> AttachmentV {
        match self {
            Attachment::Photo { owner_id, id, access_key, sizes } => AttachmentV::Photo {
                owner_id,
                id,
                access_key: access_key@,
                sizes: dv_sizes(sizes@),
            },
        }
    }
}

pub open spec fn dv_attachments(s: Seq<Attachment>) -> Seq<AttachmentV>
    decreases s,
{
    if s.len() == 0 {
        Seq::empty()
    } else {
        seq![s[0].dv()] + dv_attachments(s.drop_first())
    }
}

pub proof fn lemma_dv_attachments(s: Seq<Attachment>)
    ensures
        dv_attachments(s).len() == s.len(),
        forall|i: int| 0 <= i < s.len() ==> dv_attachments(s)[i] == s[i].dv(),
    decreases s.len(),
{
    if s.len() > 0 {
        lemma_dv_attachments(s.drop_first());
    }
}

impl Message {
    pub open spec fn dv(self) -> MessageV
        decreases self,
    {
        MessageV {
            id: self.id,
            peer_id: self.peer_id,
            from_id: self.from_id,
            date: self.date,
            text: self.text@,
            reply: match self.reply {
                Some(b) => Some(Box::new((*b).dv())),
                None => None,
            },
            attachments: dv_attachments(self.attachments@),
            fwd_messages: dv_messages(self.fwd_messages@),
        }
    }
}

pub open spec fn dv_messages(s: Seq<Message>) -> Seq<MessageV>
    decreases s,
{
    if s.len() == 0 {
        Seq::empty()
    } else {
        seq![s[0].dv()] + dv_messages(s.drop_first())
    }
}

pub proof fn lemma_dv_messages(s: Seq<Message>)
    ensures
        dv_messages(s).len() == s.len(),
        forall|i: int| 0 <= i < s.len() ==> dv_messages(s)[i] == s[i].dv(),
    decreases s.len(),
{
    if s.len() > 0 {
        lemma_dv_messages(s.drop_first());
    }
}

impl UpdateEvent {
    pub open spec fn dv(self) -> UpdateV {
        match self {
            UpdateEvent::MessageNew { message } => UpdateV::MessageNew { message: message.dv() },
        }
    }
}

pub open spec fn dv_updates(s: Seq<UpdateEvent>) -> Seq<UpdateV>
    decreases s,
{
    if s.len() == 0 {
        Seq::empty()
    } else {
        seq![s[0].dv()] + dv_updates(s.drop_first())
    }
}

pub proof fn lemma_dv_updates(s: Seq<UpdateEvent>)
    ensures
        dv_updates(s).len() == s.len(),
        forall|i: int| 0 <= i < s.len() ==> dv_updates(s)[i] == s[i].dv(),
    decreases s.len(),
{
    if s.len() > 0 {
        lemma_dv_updates(s.drop_first());
    }
}

impl EventBatch {
    pub open spec fn dv(self) -> BatchV {
        BatchV { ts: self.ts, updates: dv_updates(self.updates@) }
    }
}

impl UserRecord {
    pub open spec fn dv(self) -> UserV {
        UserV {
            id: self.id,
            first_name: self.first_name@,
            last_name: self.last_name@,
            can_access_closed: self.can_access_closed,
            is_closed: self.is_closed,
        }
    }
}

impl PollServer {
    pub open spec fn dv(self) -> PollServerV {
        PollServerV { key: self.key@, server: self.server@, ts: self.ts }
    }
}

pub open spec fn size_keys() -> Seq<Seq<char>> {
    seq!["height"@, "width"@, "type"@, "url"@]
}

/// The rendition tag letters the schema knows.
pub open spec fn size_kind_of(t: Seq<char>) -> Option<SizeKind> {
    if t == "s"@ {
        Some(SizeKind::Small)
    } else if t == "m"@ {
        Some(SizeKind::Medium)
    } else if t == "x"@ {
        Some(SizeKind::X)
    } else if t == "y"@ {
        Some(SizeKind::Y)
    } else if t == "z"@ {
        Some(SizeKind::Z)
    } else if t == "w"@ {
        Some(SizeKind::W)
    } else if t == "o"@ {
        Some(SizeKind::O)
    } else if t == "p"@ {
        Some(SizeKind::P)
    } else if t == "q"@ {
        Some(SizeKind::Q)
    } else if t == "r"@ {
        Some(SizeKind::R)
    } else {
        None
    }
}

/// What a size object decodes to, strictly.
pub open spec fn dec_size(j: Json) -> Option<SizeV> {
    match j {
        Json::Obj(entries) => {
            let e = entries@;
            if !strict_obj(e, size_keys()) {
                None
            } else {
                match (req_u64(e, "height"@), req_u64(e, "width"@), req_text(e, "type"@), req_text(e, "url"@)) {
                    (Some(h), Some(w), Some(t), Some(u)) => match size_kind_of(t) {
                        Some(k) => Some(SizeV { height: h, width: w, kind: k, url: u }),
                        None => None,
                    },
                    _ => None,
                }
            }
        },
        _ => None,
    }
}

/// What a list of size objects decodes to: all or nothing.
pub open spec fn dec_size_list(items: Seq<Json>) -> Option<Seq<SizeV>>
    decreases items,
{
    if items.len() == 0 {
        Some(Seq::empty())
    } else {
        match (dec_size(items[0]), dec_size_list(items.drop_first())) {
            (Some(h), Some(t)) => Some(seq![h] + t),
            _ => None,
        }
    }
}

proof fn lemma_dec_size_list(items: Seq<Json>)
    ensures
        dec_size_list(items) is Some <==> (forall|i: int|
            0 <= i < items.len() ==> dec_size(#[trigger] items[i]) is Some),
        dec_size_list(items) matches Some(s) ==> s.len() == items.len() && (forall|i: int|
            0 <= i < items.len() ==> s[i] == dec_size(#[trigger] items[i])->0),
    decreases items.len(),
{
    if items.len() > 0 {
        let rest = items.drop_first();
        lemma_dec_size_list(rest);
        assert(forall|i: int| 0 <= i < rest.len() ==> #[trigger] rest[i] == items[i + 1]);
        if forall|i: int| 0 <= i < items.len() ==> dec_size(#[trigger] items[i]) is Some {
            assert forall|i: int| 0 <= i < rest.len() implies dec_size(#[trigger] rest[i]) is Some by {
                assert(rest[i] == items[i + 1]);
                assert(dec_size(items[i + 1]) is Some);
            }
            assert(dec_size_list(rest) is Some);
            assert(dec_size(items[0]) is Some);
        }
        if dec_size_list(items) is Some {
            assert(dec_size(items[0]) is Some);
            assert(dec_size_list(rest) is Some);
            assert forall|i: int| 0 <= i < items.len() implies dec_size(#[trigger] items[i]) is Some by {
                if i > 0 {
                    assert(items[i] == rest[i - 1]);
                    assert(dec_size(rest[i - 1]) is Some);
                }
            }
        }
        match dec_size_list(items) {
            Some(s) => {
                let t = dec_size_list(rest)->0;
                assert(s == seq![dec_size(items[0])->0] + t);
                assert forall|i: int|
                    0 <= i < items.len() implies s[i] == dec_size(#[trigger] items[i])->0 by {
                    if i > 0 {
                        assert(items[i] == rest[i - 1]);
                        assert(s[i] == t[i - 1]);
                        assert(t[i - 1] == dec_size(rest[i - 1])->0);
                    }
                }
            },
            None => {},
        }
    }
}

fn size_kind_from(t: &str) -> (r: Option<SizeKind>)
    ensures
        r == size_kind_of(t@),
{
    if str_eq(t, "s") {
        Some(SizeKind::Small)
    } else if str_eq(t, "m") {
        Some(SizeKind::Medium)
    } else if str_eq(t, "x") {
        Some(SizeKind::X)
    } else if str_eq(t, "y") {
        Some(SizeKind::Y)
    } else if str_eq(t, "z") {
        Some(SizeKind::Z)
    } else if str_eq(t, "w") {
        Some(SizeKind::W)
    } else if str_eq(t, "o") {
        Some(SizeKind::O)
    } else if str_eq(t, "p") {
        Some(SizeKind::P)
    } else if str_eq(t, "q") {
        Some(SizeKind::Q)
    } else if str_eq(t, "r") {
        Some(SizeKind::R)
    } else {
        None
    }
}

/// Decodes one size object, exactly as `dec_size` says.
pub fn decode_size(j: &Json) -> (r: Option<Size>)
    ensures
        r is Some <==> dec_size(*j) is Some,
        r matches Some(s) ==> dec_size(*j) == Some(s.dv()),
{
    match j {
        Json::Obj(entries) => {
            let allowed: Vec<&str> = vec!["height", "width", "type", "url"];
            proof {
                assert(views_of(allowed@) =~= size_keys());
            }
            if !obj_strict(entries, &allowed) {
                return None;
            }
            let h = get_u64(entries, "height");
            let w = get_u64(entries, "width");
            let t = get_text(entries, "type");
            let u = get_text(entries, "url");
            match (h, w, t, u) {
                (Some(h), Some(w), Some(t), Some(u)) => match size_kind_from(t.as_str()) {
                    Some(k) => Some(Size { height: h, width: w, kind: k, url: u }),
                    None => None,
                },
                _ => None,
            }
        },
        _ => None,
    }
}

/// Decodes a whole size list, exactly as `dec_size_list` says.
pub fn decode_sizes(items: &Vec<Json>) -> (r: Option<Vec<Size>>)
    ensures
        r is Some <==> dec_size_list(items@) is Some,
        r matches Some(v) ==> dec_size_list(items@) == Some(dv_sizes(v@)),
{
    let n = items.len();
    let mut out: Vec<Size> = Vec::new();
    let mut k: usize = 0;
    while k < n
        invariant
            0 <= k <= n,
            n == items@.len(),
            out@.len() == k,
            forall|i: int| 0 <= i < k ==> dec_size(#[trigger] items@[i]) is Some,
            forall|i: int| 0 <= i < k ==> (#[trigger] out@[i]).dv() == dec_size(items@[i])->0,
        decreases n - k,
    {
        match decode_size(&items[k]) {
            Some(s) => out.push(s),
            None => {
                proof {
                    lemma_dec_size_list(items@);
                }
                return None;
            },
        }
        k += 1;
    }
    proof {
        lemma_dec_size_list(items@);
        lemma_dv_sizes(out@);
        match dec_size_list(items@) {
            Some(s) => {
                assert(s =~= dv_sizes(out@));
            },
            None => {},
        }
    }
    Some(out)
}

pub open spec fn photo_keys() -> Seq<Seq<char>> {
    seq!["owner_id"@, "id"@, "access_key"@, "sizes"@]
}

pub open spec fn attachment_keys() -> Seq<Seq<char>> {
    seq!["type"@, "photo"@]
}

/// What a photo object decodes to, strictly.
pub open spec fn dec_photo(j: Json) -> Option<AttachmentV> {
    match j {
        Json::Obj(entries) => {
            let e = entries@;
            if !strict_obj(e, photo_keys()) {
                None
            } else {
                match (req_u64(e, "owner_id"@), req_u64(e, "id"@), req_text(e, "access_key"@)) {
                    (Some(o), Some(i), Some(a)) => match slookup(e, "sizes"@) {
                        Some(Json::Arr(items)) => match dec_size_list(items@) {
                            Some(s) => Some(
                                AttachmentV::Photo { owner_id: o, id: i, access_key: a, sizes: s },
                            ),
                            None => None,
                        },
                        _ => None,
                    },
                    _ => None,
                }
            }
        },
        _ => None,
    }
}

/// What an attachment object decodes to: the tag must read `photo`,
/// any other tag fails the decode (the schema is closed).
pub open spec fn dec_attachment(j: Json) -> Option<AttachmentV> {
    match j {
        Json::Obj(entries) => {
            let e = entries@;
            if !strict_obj(e, attachment_keys()) {
                None
            } else if req_text(e, "type"@) != Some("photo"@) {
                None
            } else {
                match slookup(e, "photo"@) {
                    Some(p) => dec_photo(p),
                    None => None,
                }
            }
        },
        _ => None,
    }
}

fn decode_photo(j: &Json) -> (r: Option<Attachment>)
    ensures
        r is Some <==> dec_photo(*j) is Some,
        r matches Some(a) ==> dec_photo(*j) == Some(a.dv()),
{
    match j {
        Json::Obj(entries) => {
            let allowed: Vec<&str> = vec!["owner_id", "id", "access_key", "sizes"];
            proof {
                assert(views_of(allowed@) =~= photo_keys());
            }
            if !obj_strict(entries, &allowed) {
                return None;
            }
            let o = get_u64(entries, "owner_id");
            let i = get_u64(entries, "id");
            let a = get_text(entries, "access_key");
            match (o, i, a) {
                (Some(o), Some(i), Some(a)) => match obj_get(entries, "sizes") {
                    Some(Json::Arr(items)) => match decode_sizes(items) {
                        Some(s) => Some(
                            Attachment::Photo { owner_id: o, id: i, access_key: a, sizes: s },
                        ),
                        None => None,
                    },
                    _ => None,
                },
                _ => None,
            }
        },
        _ => None,
    }
}

/// Decodes one attachment, exactly as `dec_attachment` says.
pub fn decode_attachment(j: &Json) -> (r: Option<Attachment>)
    ensures
        r is Some <==> dec_attachment(*j) is Some,
        r matches Some(a) ==> dec_attachment(*j) == Some(a.dv()),
{
    match j {
        Json::Obj(entries) => {
            let allowed: Vec<&str> = vec!["type", "photo"];
            proof {
                assert(views_of(allowed@) =~= attachment_keys());
            }
            if !obj_strict(entries, &allowed) {
                return None;
            }
            match get_text(entries, "type") {
                Some(t) => {
                    if !str_eq(t.as_str(), "photo") {
                        return None;
                    }
                },
                None => {
                    return None;
                },
            }
            match obj_get(entries, "photo") {
                Some(p) => decode_photo(p),
                None => None,
            }
        },
        _ => None,
    }
}

/// What a list of attachment objects decodes to: all or nothing.
pub open spec fn dec_attachment_list(items: Seq<Json>) -> Option<Seq<AttachmentV>>
    decreases items,
{
    if items.len() == 0 {
        Some(Seq::empty())
    } else {
        match (dec_attachment(items[0]), dec_attachment_list(items.drop_first())) {
            (Some(h), Some(t)) => Some(seq![h] + t),
            _ => None,
        }
    }
}

proof fn lemma_dec_attachment_list(items: Seq<Json>)
    ensures
        dec_attachment_list(items) is Some <==> (forall|i: int|
            0 <= i < items.len() ==> dec_attachment(#[trigger] items[i]) is Some),
        dec_attachment_list(items) matches Some(s) ==> s.len() == items.len() && (forall|i: int|
            0 <= i < items.len() ==> s[i] == dec_attachment(#[trigger] items[i])->0),
    decreases items.len(),
{
    if items.len() > 0 {
        let rest = items.drop_first();
        lemma_dec_attachment_list(rest);
        assert(forall|i: int| 0 <= i < rest.len() ==> #[trigger] rest[i] == items[i + 1]);
        if forall|i: int| 0 <= i < items.len() ==> dec_attachment(#[trigger] items[i]) is Some {
            assert forall|i: int|
                0 <= i < rest.len() implies dec_attachment(#[trigger] rest[i]) is Some by {
                assert(rest[i] == items[i + 1]);
                assert(dec_attachment(items[i + 1]) is Some);
            }
            assert(dec_attachment_list(rest) is Some);
            assert(dec_attachment(items[0]) is Some);
        }
        if dec_attachment_list(items) is Some {
            assert forall|i: int|
                0 <= i < items.len() implies dec_attachment(#[trigger] items[i]) is Some by {
                if i > 0 {
                    assert(items[i] == rest[i - 1]);
                    assert(dec_attachment(rest[i - 1]) is Some);
                }
            }
        }
        match dec_attachment_list(items) {
            Some(s) => {
                let t = dec_attachment_list(rest)->0;
                assert(s == seq![dec_attachment(items[0])->0] + t);
                assert forall|i: int|
                    0 <= i < items.len() implies s[i] == dec_attachment(#[trigger] items[i])->0 by {
                    if i > 0 {
                        assert(items[i] == rest[i - 1]);
                        assert(s[i] == t[i - 1]);
                        assert(t[i - 1] == dec_attachment(rest[i - 1])->0);
                    }
                }
            },
            None => {},
        }
    }
}

/// Decodes a whole attachment list, exactly as `dec_attachment_list`
/// says.
pub fn decode_attachments(items: &Vec<Json>) -> (r: Option<Vec<Attachment>>)
    ensures
        r is Some <==> dec_attachment_list(items@) is Some,
        r matches Some(v) ==> dec_attachment_list(items@) == Some(dv_attachments(v@)),
{
    let n = items.len();
    let mut out: Vec<Attachment> = Vec::new();
    let mut k: usize = 0;
    while k < n
        invariant
            0 <= k <= n,
            n == items@.len(),
            out@.len() == k,
            forall|i: int| 0 <= i < k ==> dec_attachment(#[trigger] items@[i]) is Some,
            forall|i: int| 0 <= i < k ==> (#[trigger] out@[i]).dv() == dec_attachment(items@[i])->0,
        decreases n - k,
    {
        match decode_attachment(&items[k]) {
            Some(a) => out.push(a),
            None => {
                proof {
                    lemma_dec_attachment_list(items@);
                }
                return None;
            },
        }
        k += 1;
    }
    proof {
        lemma_dec_attachment_list(items@);
        lemma_dv_attachments(out@);
        match dec_attachment_list(items@) {
            Some(s) => {
                assert(s =~= dv_attachments(out@));
            },
            None => {},
        }
    }
    Some(out)
}

pub open spec fn message_keys() -> Seq<Seq<char>> {
    seq![
        "id"@,
        "peer_id"@,
        "from_id"@,
        "date"@,
        "text"@,
        "reply_message"@,
        "attachments"@,
        "fwd_messages"@,
    ]
}

/// What a message object decodes to, strictly. `reply_message` may be
/// absent (no reply) and `fwd_messages` may be absent (none forwarded);
/// every other field is required.
pub open spec fn dec_message(j: Json) -> Option<MessageV>
    decreases j,
    via dec_message_dec
{
    match j {
        Json::Obj(entries) => {
            let e = entries@;
            if !strict_obj(e, message_keys()) {
                None
            } else {
                match (
                    req_u64(e, "id"@),
                    req_u64(e, "peer_id"@),
                    req_i64(e, "from_id"@),
                    req_u64(e, "date"@),
                    req_text(e, "text"@),
                ) {
                    (Some(id), Some(peer), Some(from), Some(date), Some(text)) => {
                        let att = match slookup(e, "attachments"@) {
                            Some(Json::Arr(items)) => dec_attachment_list(items@),
                            _ => None,
                        };
                        let fwd = match slookup(e, "fwd_messages"@) {
                            Some(Json::Arr(items)) => dec_message_list(items@),
                            Some(_) => None,
                            None => Some(Seq::empty()),
                        };
                        let rep = match slookup(e, "reply_message"@) {
                            Some(rj) => match dec_message(rj) {
                                Some(m) => Some(Some(Box::new(m))),
                                None => None,
                            },
                            None => Some(None),
                        };
                        match (att, fwd, rep) {
                            (Some(a), Some(f), Some(r)) => Some(
                                MessageV {
                                    id,
                                    peer_id: peer,
                                    from_id: from,
                                    date,
                                    text,
                                    reply: r,
                                    attachments: a,
                                    fwd_messages: f,
                                },
                            ),
                            _ => None,
                        }
                    },
                    _ => None,
                }
            }
        },
        _ => None,
    }
}

/// What a list of message objects decodes to: all or nothing.
pub open spec fn dec_message_list(items: Seq<Json>) -> Option<Seq<MessageV>>
    decreases items,
{
    if items.len() == 0 {
        Some(Seq::empty())
    } else {
        match (dec_message(items[0]), dec_message_list(items.drop_first())) {
            (Some(h), Some(t)) => Some(seq![h] + t),
            _ => None,
        }
    }
}

#[via_fn]
proof fn dec_message_dec(j: Json) {
    match j {
        Json::Obj(entries) => {
            assert(decreases_to!(j => entries));
            assert(decreases_to!(entries => entries@));
            if slookup(entries@, "reply_message"@) is Some {
                lemma_slookup_decreases(entries@, "reply_message"@);
            }
            match slookup(entries@, "fwd_messages"@) {
                Some(fj) => {
                    lemma_slookup_decreases(entries@, "fwd_messages"@);
                    match fj {
                        Json::Arr(items) => {
                            assert(decreases_to!(fj => items));
                            assert(decreases_to!(items => items@));
                        },
                        _ => {},
                    }
                },
                None => {},
            }
        },
        _ => {},
    }
}

proof fn lemma_dec_message_list(items: Seq<Json>)
    ensures
        dec_message_list(items) is Some <==> (forall|i: int|
            0 <= i < items.len() ==> dec_message(#[trigger] items[i]) is Some),
        dec_message_list(items) matches Some(s) ==> s.len() == items.len() && (forall|i: int|
            0 <= i < items.len() ==> s[i] == dec_message(#[trigger] items[i])->0),
    decreases items.len(),
{
    if items.len() > 0 {
        let rest = items.drop_first();
        lemma_dec_message_list(rest);
        assert(forall|i: int| 0 <= i < rest.len() ==> #[trigger] rest[i] == items[i + 1]);
        if forall|i: int| 0 <= i < items.len() ==> dec_message(#[trigger] items[i]) is Some {
            assert forall|i: int|
                0 <= i < rest.len() implies dec_message(#[trigger] rest[i]) is Some by {
                assert(rest[i] == items[i + 1]);
                assert(dec_message(items[i + 1]) is Some);
            }
            assert(dec_message_list(rest) is Some);
            assert(dec_message(items[0]) is Some);
        }
        if dec_message_list(items) is Some {
            assert forall|i: int|
                0 <= i < items.len() implies dec_message(#[trigger] items[i]) is Some by {
                if i > 0 {
                    assert(items[i] == rest[i - 1]);
                    assert(dec_message(rest[i - 1]) is Some);
                }
            }
        }
        match dec_message_list(items) {
            Some(s) => {
                let t = dec_message_list(rest)->0;
                assert(s == seq![dec_message(items[0])->0] + t);
                assert forall|i: int|
                    0 <= i < items.len() implies s[i] == dec_message(#[trigger] items[i])->0 by {
                    if i > 0 {
                        assert(items[i] == rest[i - 1]);
                        assert(s[i] == t[i - 1]);
                        assert(t[i - 1] == dec_message(rest[i - 1])->0);
                    }
                }
            },
            None => {},
        }
    }
}

/// Decodes one message object, exactly as `dec_message` says.
#[verifier::loop_isolation(false)]
pub fn decode_message(j: &Json) -> (r: Option<Message>)
    ensures
        r is Some <==> dec_message(*j) is Some,
        r matches Some(m) ==> dec_message(*j) == Some(m.dv()),
    decreases *j,
{
    match j {
        Json::Obj(entries) => {
            let allowed: Vec<&str> = vec![
                "id",
                "peer_id",
                "from_id",
                "date",
                "text",
                "reply_message",
                "attachments",
                "fwd_messages",
            ];
            proof {
                assert(views_of(allowed@) =~= message_keys());
            }
            if !obj_strict(entries, &allowed) {
                return None;
            }
            let id = get_u64(entries, "id");
            let peer = get_u64(entries, "peer_id");
            let from = get_i64(entries, "from_id");
            let date = get_u64(entries, "date");
            let text = get_text(entries, "text");
            match (id, peer, from, date, text) {
                (Some(id), Some(peer), Some(from), Some(date), Some(text)) => {
                    let attachments = match obj_get(entries, "attachments") {
                        Some(Json::Arr(items)) => match decode_attachments(items) {
                            Some(v) => v,
                            None => {
                                return None;
                            },
                        },
                        _ => {
                            return None;
                        },
                    };
                    let fwd_messages = match obj_get(entries, "fwd_messages") {
                        Some(fj) => match fj {
                            Json::Arr(items) => {
                                proof {
                                    lemma_slookup_decreases(entries@, "fwd_messages"@);
                                    assert(decreases_to!(*fj => *items));
                                    assert(decreases_to!(*items => items@));
                                }
                                let n = items.len();
                                let mut out: Vec<Message> = Vec::new();
                                let mut k: usize = 0;
                                while k < n
                                    invariant
                                        0 <= k <= n,
                                        out@.len() == k,
                                        forall|i: int|
                                            0 <= i < k ==> dec_message(
                                                #[trigger] items@[i],
                                            ) is Some,
                                        forall|i: int|
                                            0 <= i < k ==> (#[trigger] out@[i]).dv()
                                                == dec_message(items@[i])->0,
                                    decreases n - k,
                                {
                                    proof {
                                        assert(decreases_to!(items@ => items@[k as int]));
                                    }
                                    match decode_message(&items[k]) {
                                        Some(m) => out.push(m),
                                        None => {
                                            proof {
                                                lemma_dec_message_list(items@);
                                            }
                                            return None;
                                        },
                                    }
                                    k += 1;
                                }
                                proof {
                                    lemma_dec_message_list(items@);
                                    lemma_dv_messages(out@);
                                    match dec_message_list(items@) {
                                        Some(s) => {
                                            assert(s =~= dv_messages(out@));
                                        },
                                        None => {},
                                    }
                                }
                                out
                            },
                            _ => {
                                return None;
                            },
                        },
                        None => Vec::new(),
                    };
                    let reply = match obj_get(entries, "reply_message") {
                        Some(rj) => {
                            proof {
                                lemma_slookup_decreases(entries@, "reply_message"@);
                            }
                            match decode_message(rj) {
                                Some(rm) => Some(Box::new(rm)),
                                None => {
                                    return None;
                                },
                            }
                        },
                        None => None,
                    };
                    proof {
                        if fwd_messages@.len() == 0 {
                            assert(dv_messages(fwd_messages@) =~= Seq::<MessageV>::empty());
                        }
                    }
                    Some(
                        Message {
                            id,
                            peer_id: peer,
                            from_id: from,
                            date,
                            text,
                            reply,
                            attachments,
                            fwd_messages,
                        },
                    )
                },
                _ => None,
            }
        },
        _ => None,
    }
}

pub open spec fn update_keys() -> Seq<Seq<char>> {
    seq!["type"@, "object"@]
}

pub open spec fn object_keys() -> Seq<Seq<char>> {
    seq!["message"@]
}

/// What an update object decodes to: the tag must read `message_new`;
/// any other tag fails the decode of the whole batch (the schema is
/// closed).
pub open spec fn dec_update(j: Json) -> Option<UpdateV> {
    match j {
        Json::Obj(entries) => {
            let e = entries@;
            if !strict_obj(e, update_keys()) {
                None
            } else if req_text(e, "type"@) != Some("message_new"@) {
                None
            } else {
                match slookup(e, "object"@) {
                    Some(Json::Obj(oe)) => {
                        if !strict_obj(oe@, object_keys()) {
                            None
                        } else {
                            match slookup(oe@, "message"@) {
                                Some(mj) => match dec_message(mj) {
                                    Some(m) => Some(UpdateV::MessageNew { message: m }),
                                    None => None,
                                },
                                None => None,
                            }
                        }
                    },
                    _ => None,
                }
            }
        },
        _ => None,
    }
}

/// What a list of update objects decodes to: all or nothing.
pub open spec fn dec_update_list(items: Seq<Json>) -> Option<Seq<UpdateV>>
    decreases items,
{
    if items.len() == 0 {
        Some(Seq::empty())
    } else {
        match (dec_update(items[0]), dec_update_list(items.drop_first())) {
            (Some(h), Some(t)) => Some(seq![h] + t),
            _ => None,
        }
    }
}

proof fn lemma_dec_update_list(items: Seq<Json>)
    ensures
        dec_update_list(items) is Some <==> (forall|i: int|
            0 <= i < items.len() ==> dec_update(#[trigger] items[i]) is Some),
        dec_update_list(items) matches Some(s) ==> s.len() == items.len() && (forall|i: int|
            0 <= i < items.len() ==> s[i] == dec_update(#[trigger] items[i])->0),
    decreases items.len(),
{
    if items.len() > 0 {
        let rest = items.drop_first();
        lemma_dec_update_list(rest);
        assert(forall|i: int| 0 <= i < rest.len() ==> #[trigger] rest[i] == items[i + 1]);
        if forall|i: int| 0 <= i < items.len() ==> dec_update(#[trigger] items[i]) is Some {
            assert forall|i: int|
                0 <= i < rest.len() implies dec_update(#[trigger] rest[i]) is Some by {
                assert(rest[i] == items[i + 1]);
                assert(dec_update(items[i + 1]) is Some);
            }
            assert(dec_update_list(rest) is Some);
            assert(dec_update(items[0]) is Some);
        }
        if dec_update_list(items) is Some {
            assert forall|i: int|
                0 <= i < items.len() implies dec_update(#[trigger] items[i]) is Some by {
                if i > 0 {
                    assert(items[i] == rest[i - 1]);
                    assert(dec_update(rest[i - 1]) is Some);
                }
            }
        }
        match dec_update_list(items) {
            Some(s) => {
                let t = dec_update_list(rest)->0;
                assert(s == seq![dec_update(items[0])->0] + t);
                assert forall|i: int|
                    0 <= i < items.len() implies s[i] == dec_update(#[trigger] items[i])->0 by {
                    if i > 0 {
                        assert(items[i] == rest[i - 1]);
                        assert(s[i] == t[i - 1]);
                        assert(t[i - 1] == dec_update(rest[i - 1])->0);
                    }
                }
            },
            None => {},
        }
    }
}

/// Decodes one update, exactly as `dec_update` says.
pub fn decode_update(j: &Json) -> (r: Option<UpdateEvent>)
    ensures
        r is Some <==> dec_update(*j) is Some,
        r matches Some(u) ==> dec_update(*j) == Some(u.dv()),
{
    match j {
        Json::Obj(entries) => {
            let allowed: Vec<&str> = vec!["type", "object"];
            proof {
                assert(views_of(allowed@) =~= update_keys());
            }
            if !obj_strict(entries, &allowed) {
                return None;
            }
            match get_text(entries, "type") {
                Some(t) => {
                    if !str_eq(t.as_str(), "message_new") {
                        return None;
                    }
                },
                None => {
                    return None;
                },
            }
            match obj_get(entries, "object") {
                Some(Json::Obj(oe)) => {
                    let inner: Vec<&str> = vec!["message"];
                    proof {
                        assert(views_of(inner@) =~= object_keys());
                    }
                    if !obj_strict(oe, &inner) {
                        return None;
                    }
                    match obj_get(oe, "message") {
                        Some(mj) => match decode_message(mj) {
                            Some(m) => Some(UpdateEvent::MessageNew { message: m }),
                            None => None,
                        },
                        None => None,
                    }
                },
                _ => None,
            }
        },
        _ => None,
    }
}

/// The cursor marker as the protocol writes it: a decimal text, or a
/// bare integer that fits.
pub open spec fn dec_ts(j: Json) -> Option<i64> {
    match j {
        Json::Str(s) => dec_i64_of(s@),
        _ => as_i64(j),
    }
}

/// Reads a cursor marker, exactly as `dec_ts` says.
pub fn decode_ts(j: &Json) -> (r: Option<i64>)
    ensures
        r == dec_ts(*j),
{
    match j {
        Json::Str(s) => crate::num::parse_dec_i64(s.as_str()),
        _ => crate::json::exec_as_i64(j),
    }
}

pub open spec fn batch_keys() -> Seq<Seq<char>> {
    seq!["ts"@, "updates"@]
}

/// What a whole long-poll response body decodes to, strictly.
pub open spec fn dec_batch(j: Json) -> Option<BatchV> {
    match j {
        Json::Obj(entries) => {
            let e = entries@;
            if !strict_obj(e, batch_keys()) {
                None
            } else {
                let ts = match slookup(e, "ts"@) {
                    Some(tj) => dec_ts(tj),
                    None => None,
                };
                match ts {
                    Some(t) => match slookup(e, "updates"@) {
                        Some(Json::Arr(items)) => match dec_update_list(items@) {
                            Some(u) => Some(BatchV { ts: t, updates: u }),
                            None => None,
                        },
                        _ => None,
                    },
                    None => None,
                }
            }
        },
        _ => None,
    }
}

/// Decodes a whole long-poll response body, exactly as `dec_batch`
/// says.
#[verifier::loop_isolation(false)]
pub fn decode_batch(j: &Json) -> (r: Option<EventBatch>)
    ensures
        r is Some <==> dec_batch(*j) is Some,
        r matches Some(b) ==> dec_batch(*j) == Some(b.dv()),
{
    match j {
        Json::Obj(entries) => {
            let allowed: Vec<&str> = vec!["ts", "updates"];
            proof {
                assert(views_of(allowed@) =~= batch_keys());
            }
            if !obj_strict(entries, &allowed) {
                return None;
            }
            let ts = match obj_get(entries, "ts") {
                Some(tj) => match decode_ts(tj) {
                    Some(t) => t,
                    None => {
                        return None;
                    },
                },
                None => {
                    return None;
                },
            };
            match obj_get(entries, "updates") {
                Some(Json::Arr(items)) => {
                    let n = items.len();
                    let mut out: Vec<UpdateEvent> = Vec::new();
                    let mut k: usize = 0;
                    while k < n
                        invariant
                            0 <= k <= n,
                            n == items@.len(),
                            out@.len() == k,
                            forall|i: int| 0 <= i < k ==> dec_update(#[trigger] items@[i]) is Some,
                            forall|i: int|
                                0 <= i < k ==> (#[trigger] out@[i]).dv() == dec_update(
                                    items@[i],
                                )->0,
                        decreases n - k,
                    {
                        match decode_update(&items[k]) {
                            Some(u) => out.push(u),
                            None => {
                                proof {
                                    lemma_dec_update_list(items@);
                                }
                                return None;
                            },
                        }
                        k += 1;
                    }
                    proof {
                        lemma_dec_update_list(items@);
                        lemma_dv_updates(out@);
                        match dec_update_list(items@) {
                            Some(s) => {
                                assert(s =~= dv_updates(out@));
                            },
                            None => {},
                        }
                    }
                    Some(EventBatch { ts, updates: out })
                },
                _ => None,
            }
        },
        _ => None,
    }
}

pub open spec fn user_keys() -> Seq<Seq<char>> {
    seq!["id"@, "first_name"@, "last_name"@, "can_access_closed"@, "is_closed"@]
}

/// What a user record decodes to, strictly.
pub open spec fn dec_user(j: Json) -> Option<UserV> {
    match j {
        Json::Obj(entries) => {
            let e = entries@;
            if !strict_obj(e, user_keys()) {
                None
            } else {
                match (
                    req_u64(e, "id"@),
                    req_text(e, "first_name"@),
                    req_text(e, "last_name"@),
                    req_bool(e, "can_access_closed"@),
                    req_bool(e, "is_closed"@),
                ) {
                    (Some(id), Some(f), Some(l), Some(c), Some(cl)) => Some(
                        UserV {
                            id,
                            first_name: f,
                            last_name: l,
                            can_access_closed: c,
                            is_closed: cl,
                        },
                    ),
                    _ => None,
                }
            }
        },
        _ => None,
    }
}

/// What the user-lookup payload decodes to: an array of exactly one
/// user record.
pub open spec fn dec_user_array(j: Json) -> Option<UserV> {
    match j {
        Json::Arr(items) => {
            if items@.len() == 1 {
                dec_user(items@[0])
            } else {
                None
            }
        },
        _ => None,
    }
}

/// Decodes one user record, exactly as `dec_user` says.
pub fn decode_user(j: &Json) -> (r: Option<UserRecord>)
    ensures
        r is Some <==> dec_user(*j) is Some,
        r matches Some(u) ==> dec_user(*j) == Some(u.dv()),
{
    match j {
        Json::Obj(entries) => {
            let allowed: Vec<&str> = vec![
                "id",
                "first_name",
                "last_name",
                "can_access_closed",
                "is_closed",
            ];
            proof {
                assert(views_of(allowed@) =~= user_keys());
            }
            if !obj_strict(entries, &allowed) {
                return None;
            }
            let id = get_u64(entries, "id");
            let f = get_text(entries, "first_name");
            let l = get_text(entries, "last_name");
            let c = get_bool(entries, "can_access_closed");
            let cl = get_bool(entries, "is_closed");
            match (id, f, l, c, cl) {
                (Some(id), Some(f), Some(l), Some(c), Some(cl)) => Some(
                    UserRecord {
                        id,
                        first_name: f,
                        last_name: l,
                        can_access_closed: c,
                        is_closed: cl,
                    },
                ),
                _ => None,
            }
        },
        _ => None,
    }
}

/// Decodes the user-lookup payload, exactly as `dec_user_array` says.
pub fn decode_user_array(j: &Json) -> (r: Option<UserRecord>)
    ensures
        r is Some <==> dec_user_array(*j) is Some,
        r matches Some(u) ==> dec_user_array(*j) == Some(u.dv()),
{
    match j {
        Json::Arr(items) => {
            if items.len() == 1 {
                decode_user(&items[0])
            } else {
                None
            }
        },
        _ => None,
    }
}

pub open spec fn server_keys() -> Seq<Seq<char>> {
    seq!["key"@, "server"@, "ts"@]
}

/// What the get-long-poll-server payload decodes to, strictly.
pub open spec fn dec_server(j: Json) -> Option<PollServerV> {
    match j {
        Json::Obj(entries) => {
            let e = entries@;
            if !strict_obj(e, server_keys()) {
                None
            } else {
                let ts = match slookup(e, "ts"@) {
                    Some(tj) => dec_ts(tj),
                    None => None,
                };
                match (req_text(e, "key"@), req_text(e, "server"@), ts) {
                    (Some(k), Some(s), Some(t)) => Some(PollServerV { key: k, server: s, ts: t }),
                    _ => None,
                }
            }
        },
        _ => None,
    }
}

/// Decodes the get-long-poll-server payload, exactly as `dec_server`
/// says.
pub fn decode_server(j: &Json) -> (r: Option<PollServer>)
    ensures
        r is Some <==> dec_server(*j) is Some,
        r matches Some(p) ==> dec_server(*j) == Some(p.dv()),
{
    match j {
        Json::Obj(entries) => {
            let allowed: Vec<&str> = vec!["key", "server", "ts"];
            proof {
                assert(views_of(allowed@) =~= server_keys());
            }
            if !obj_strict(entries, &allowed) {
                return None;
            }
            let ts = match obj_get(entries, "ts") {
                Some(tj) => match decode_ts(tj) {
                    Some(t) => Some(t),
                    None => None,
                },
                None => None,
            };
            let k = get_text(entries, "key");
            let s = get_text(entries, "server");
            match (k, s, ts) {
                (Some(k), Some(s), Some(t)) => Some(PollServer { key: k, server: s, ts: t }),
                _ => None,
            }
        },
        _ => None,
    }
}

} // verus!
