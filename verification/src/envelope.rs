//! The remote call envelope: every response decodes against a
//! success-or-error wrapper, and the error side carries a structured
//! domain error with a closed code enumeration kept numerically open.

use vstd::prelude::*;
use vstd::string::StringExecFns;

use crate::json::{
    Json, get_text, get_u64, obj_get, obj_strict, req_text, req_u64, slookup, str_eq, strict_obj,
    views_of,
};
use crate::num::{dec_seq, u64_to_dec};

verus! {

broadcast use vstd::std_specs::vec::group_vec_axioms;

/// The closed set of remote error codes the service documents; a code
/// outside it still decodes (the numeric value is kept open).
#[derive(Clone, Copy, PartialEq, Eq, Debug)]
pub enum ErrorCode {
    NotFound,
    CanTSendMessagesForUsersFromBlacklist,
    CanTSendMessagesForUsersWithoutPermission,
    CanTSendMessagesToThisUserDueToTheirPrivacySettings,
    KeyboardFormatIsInvalid,
    ThisIsAChatBotFeatureChangeThisStatusInSettings,
    TooManyForwardedMessages,
    MessageIsTooLong,
    YouDonTHaveAccessToThisChat,
    CanTForwardTheseMessages,
    YouLeftThisChat,
    YouAreNotAdminOfThisChat,
    ContactNotFound,
    TooManyPostsInMessages,
    CannotUseThisIntent,
    LimitsOverflowForThisIntent,
    ChatWasDisabled,
    ChatNotSupported,
    CanTSendMessageReplyTimedOut,
    YouCanTAccessDonutChatWithoutSubscription,
    MessageCannotBeForwarded,
    AppActionIsRestrictedForConversationsWithCommunities,
    YouAreRestrictedToWriteToAChat,
    YouHasSpamRestriction,
    WritingIsDisabledForThisChat,
}

/// Which documented code a numeric value names, if any.
pub open spec fn code_of(n: u64) -> Option<ErrorCode> {
    if n == 104 {
        Some(ErrorCode::NotFound)
    } else if n == 900 {
        Some(ErrorCode::CanTSendMessagesForUsersFromBlacklist)
    } else if n == 901 {
        Some(ErrorCode::CanTSendMessagesForUsersWithoutPermission)
    } else if n == 902 {
        Some(ErrorCode::CanTSendMessagesToThisUserDueToTheirPrivacySettings)
    } else if n == 911 {
        Some(ErrorCode::KeyboardFormatIsInvalid)
    } else if n == 912 {
        Some(ErrorCode::ThisIsAChatBotFeatureChangeThisStatusInSettings)
    } else if n == 913 {
        Some(ErrorCode::TooManyForwardedMessages)
    } else if n == 914 {
        Some(ErrorCode::MessageIsTooLong)
    } else if n == 917 {
        Some(ErrorCode::YouDonTHaveAccessToThisChat)
    } else if n == 921 {
        Some(ErrorCode::CanTForwardTheseMessages)
    } else if n == 922 {
        Some(ErrorCode::YouLeftThisChat)
    } else if n == 925 {
        Some(ErrorCode::YouAreNotAdminOfThisChat)
    } else if n == 936 {
        Some(ErrorCode::ContactNotFound)
    } else if n == 940 {
        Some(ErrorCode::TooManyPostsInMessages)
    } else if n == 943 {
        Some(ErrorCode::CannotUseThisIntent)
    } else if n == 944 {
        Some(ErrorCode::LimitsOverflowForThisIntent)
    } else if n == 945 {
        Some(ErrorCode::ChatWasDisabled)
    } else if n == 946 {
        Some(ErrorCode::ChatNotSupported)
    } else if n == 950 {
        Some(ErrorCode::CanTSendMessageReplyTimedOut)
    } else if n == 962 {
        Some(ErrorCode::YouCanTAccessDonutChatWithoutSubscription)
    } else if n == 969 {
        Some(ErrorCode::MessageCannotBeForwarded)
    } else if n == 979 {
        Some(ErrorCode::AppActionIsRestrictedForConversationsWithCommunities)
    } else if n == 983 {
        Some(ErrorCode::YouAreRestrictedToWriteToAChat)
    } else if n == 984 {
        Some(ErrorCode::YouHasSpamRestriction)
    } else if n == 1012 {
        Some(ErrorCode::WritingIsDisabledForThisChat)
    } else {
        None
    }
}

/// Maps a numeric code to the documented enumeration, exactly as
/// `code_of` says.
pub fn error_kind(n: u64) -> (r: Option<ErrorCode>)
    ensures
        r == code_of(n),
{
    match n {
        104 => Some(ErrorCode::NotFound),
        900 => Some(ErrorCode::CanTSendMessagesForUsersFromBlacklist),
        901 => Some(ErrorCode::CanTSendMessagesForUsersWithoutPermission),
        902 => Some(ErrorCode::CanTSendMessagesToThisUserDueToTheirPrivacySettings),
        911 => Some(ErrorCode::KeyboardFormatIsInvalid),
        912 => Some(ErrorCode::ThisIsAChatBotFeatureChangeThisStatusInSettings),
        913 => Some(ErrorCode::TooManyForwardedMessages),
        914 => Some(ErrorCode::MessageIsTooLong),
        917 => Some(ErrorCode::YouDonTHaveAccessToThisChat),
        921 => Some(ErrorCode::CanTForwardTheseMessages),
        922 => Some(ErrorCode::YouLeftThisChat),
        925 => Some(ErrorCode::YouAreNotAdminOfThisChat),
        936 => Some(ErrorCode::ContactNotFound),
        940 => Some(ErrorCode::TooManyPostsInMessages),
        943 => Some(ErrorCode::CannotUseThisIntent),
        944 => Some(ErrorCode::LimitsOverflowForThisIntent),
        945 => Some(ErrorCode::ChatWasDisabled),
        946 => Some(ErrorCode::ChatNotSupported),
        950 => Some(ErrorCode::CanTSendMessageReplyTimedOut),
        962 => Some(ErrorCode::YouCanTAccessDonutChatWithoutSubscription),
        969 => Some(ErrorCode::MessageCannotBeForwarded),
        979 => Some(ErrorCode::AppActionIsRestrictedForConversationsWithCommunities),
        983 => Some(ErrorCode::YouAreRestrictedToWriteToAChat),
        984 => Some(ErrorCode::YouHasSpamRestriction),
        1012 => Some(ErrorCode::WritingIsDisabledForThisChat),
        _ => None,
    }
}

/// The documented name of a code, as the diagnostics print it.
pub open spec fn code_label(c: ErrorCode) -> Seq<char> {
    match c {
        ErrorCode::NotFound => "NotFound"@,
        ErrorCode::CanTSendMessagesForUsersFromBlacklist => "CanTSendMessagesForUsersFromBlacklist"@,
        ErrorCode::CanTSendMessagesForUsersWithoutPermission => "CanTSendMessagesForUsersWithoutPermission"@,
        ErrorCode::CanTSendMessagesToThisUserDueToTheirPrivacySettings => "CanTSendMessagesToThisUserDueToTheirPrivacySettings"@,
        ErrorCode::KeyboardFormatIsInvalid => "KeyboardFormatIsInvalid"@,
        ErrorCode::ThisIsAChatBotFeatureChangeThisStatusInSettings => "ThisIsAChatBotFeatureChangeThisStatusInSettings"@,
        ErrorCode::TooManyForwardedMessages => "TooManyForwardedMessages"@,
        ErrorCode::MessageIsTooLong => "MessageIsTooLong"@,
        ErrorCode::YouDonTHaveAccessToThisChat => "YouDonTHaveAccessToThisChat"@,
        ErrorCode::CanTForwardTheseMessages => "CanTForwardTheseMessages"@,
        ErrorCode::YouLeftThisChat => "YouLeftThisChat"@,
        ErrorCode::YouAreNotAdminOfThisChat => "YouAreNotAdminOfThisChat"@,
        ErrorCode::ContactNotFound => "ContactNotFound"@,
        ErrorCode::TooManyPostsInMessages => "TooManyPostsInMessages"@,
        ErrorCode::CannotUseThisIntent => "CannotUseThisIntent"@,
        ErrorCode::LimitsOverflowForThisIntent => "LimitsOverflowForThisIntent"@,
        ErrorCode::ChatWasDisabled => "ChatWasDisabled"@,
        ErrorCode::ChatNotSupported => "ChatNotSupported"@,
        ErrorCode::CanTSendMessageReplyTimedOut => "CanTSendMessageReplyTimedOut"@,
        ErrorCode::YouCanTAccessDonutChatWithoutSubscription => "YouCanTAccessDonutChatWithoutSubscription"@,
        ErrorCode::MessageCannotBeForwarded => "MessageCannotBeForwarded"@,
        ErrorCode::AppActionIsRestrictedForConversationsWithCommunities => "AppActionIsRestrictedForConversationsWithCommunities"@,
        ErrorCode::YouAreRestrictedToWriteToAChat => "YouAreRestrictedToWriteToAChat"@,
        ErrorCode::YouHasSpamRestriction => "YouHasSpamRestriction"@,
        ErrorCode::WritingIsDisabledForThisChat => "WritingIsDisabledForThisChat"@,
    }
}

/// Renders a code's documented name, exactly `code_label`.
pub fn code_name(c: ErrorCode) -> (r: &'static str)
    ensures
        r@ == code_label(c),
{
    match c {
        ErrorCode::NotFound => "NotFound",
        ErrorCode::CanTSendMessagesForUsersFromBlacklist => "CanTSendMessagesForUsersFromBlacklist",
        ErrorCode::CanTSendMessagesForUsersWithoutPermission => "CanTSendMessagesForUsersWithoutPermission",
        ErrorCode::CanTSendMessagesToThisUserDueToTheirPrivacySettings => "CanTSendMessagesToThisUserDueToTheirPrivacySettings",
        ErrorCode::KeyboardFormatIsInvalid => "KeyboardFormatIsInvalid",
        ErrorCode::ThisIsAChatBotFeatureChangeThisStatusInSettings => "ThisIsAChatBotFeatureChangeThisStatusInSettings",
        ErrorCode::TooManyForwardedMessages => "TooManyForwardedMessages",
        ErrorCode::MessageIsTooLong => "MessageIsTooLong",
        ErrorCode::YouDonTHaveAccessToThisChat => "YouDonTHaveAccessToThisChat",
        ErrorCode::CanTForwardTheseMessages => "CanTForwardTheseMessages",
        ErrorCode::YouLeftThisChat => "YouLeftThisChat",
        ErrorCode::YouAreNotAdminOfThisChat => "YouAreNotAdminOfThisChat",
        ErrorCode::ContactNotFound => "ContactNotFound",
        ErrorCode::TooManyPostsInMessages => "TooManyPostsInMessages",
        ErrorCode::CannotUseThisIntent => "CannotUseThisIntent",
        ErrorCode::LimitsOverflowForThisIntent => "LimitsOverflowForThisIntent",
        ErrorCode::ChatWasDisabled => "ChatWasDisabled",
        ErrorCode::ChatNotSupported => "ChatNotSupported",
        ErrorCode::CanTSendMessageReplyTimedOut => "CanTSendMessageReplyTimedOut",
        ErrorCode::YouCanTAccessDonutChatWithoutSubscription => "YouCanTAccessDonutChatWithoutSubscription",
        ErrorCode::MessageCannotBeForwarded => "MessageCannotBeForwarded",
        ErrorCode::AppActionIsRestrictedForConversationsWithCommunities => "AppActionIsRestrictedForConversationsWithCommunities",
        ErrorCode::YouAreRestrictedToWriteToAChat => "YouAreRestrictedToWriteToAChat",
        ErrorCode::YouHasSpamRestriction => "YouHasSpamRestriction",
        ErrorCode::WritingIsDisabledForThisChat => "WritingIsDisabledForThisChat",
    }
}

/// One key/value pair the remote service echoes back with an error.
#[derive(Clone, Debug)]
pub struct RequestParam {
    pub key: String,
    pub value: String,
}

/// The structured domain error of the remote service. The numeric code
/// is kept as received, so codes outside the documented set still
/// decode.
#[derive(Clone, Debug)]
pub struct VkError {
    pub code: u64,
    pub message: String,
    pub request_params: Vec<RequestParam>,
}

/// How a remote call fails: the body did not decode, or the service
/// answered with a domain error.
#[derive(Debug)]
pub enum ApiFailure {
    Malformed,
    Domain(VkError),
}

pub struct RequestParamV {
    pub key: Seq<char>,
    pub value: Seq<char>,
}

pub struct VkErrorV {
    pub code: u64,
    pub message: Seq<char>,
    pub request_params: Seq<RequestParamV>,
}

pub enum ApiFailureV {
    Malformed,
    Domain(VkErrorV),
}

impl RequestParam {
    pub open spec fn dv(self) -> RequestParamV {
        RequestParamV { key: self.key@, value: self.value@ }
    }
}

pub open spec fn dv_params(s: Seq<RequestParam>) -> Seq<RequestParamV>
    decreases s,
{
    if s.len() == 0 {
        Seq::empty()
    } else {
        seq![s[0].dv()] + dv_params(s.drop_first())
    }
}

pub proof fn lemma_dv_params(s: Seq<RequestParam>)
    ensures
        dv_params(s).len() == s.len(),
        forall|i: int| 0 <= i < s.len() ==> dv_params(s)[i] == s[i].dv(),
    decreases s.len(),
{
    if s.len() > 0 {
        lemma_dv_params(s.drop_first());
    }
}

impl VkError {
    pub open spec fn dv(self) -> VkErrorV {
        VkErrorV { code: self.code, message: self.message@, request_params: dv_params(self.request_params@) }
    }

    /// Which documented code this error carries, if any.
    pub fn kind(&self) -> (r: Option<ErrorCode>)
        ensures
            r == code_of(self.code),
    {
        error_kind(self.code)
    }
}

impl ApiFailure {
    pub open spec fn dv(self) -> ApiFailureV {
        match self {
            ApiFailure::Malformed => ApiFailureV::Malformed,
            ApiFailure::Domain(e) => ApiFailureV::Domain(e.dv()),
        }
    }
}

pub open spec fn param_keys() -> Seq<Seq<char>> {
    seq!["key"@, "value"@]
}

/// What one echoed parameter object decodes to, strictly.
pub open spec fn dec_param(j: Json) -> Option<RequestParamV> {
    match j {
        Json::Obj(entries) => {
            let e = entries@;
            if !strict_obj(e, param_keys()) {
                None
            } else {
                match (req_text(e, "key"@), req_text(e, "value"@)) {
                    (Some(k), Some(v)) => Some(RequestParamV { key: k, value: v }),
                    _ => None,
                }
            }
        },
        _ => None,
    }
}

/// What a list of echoed parameters decodes to: all or nothing.
pub open spec fn dec_param_list(items: Seq<Json>) -> Option<Seq<RequestParamV>>
    decreases items,
{
    if items.len() == 0 {
        Some(Seq::empty())
    } else {
        match (dec_param(items[0]), dec_param_list(items.drop_first())) {
            (Some(h), Some(t)) => Some(seq![h] + t),
            _ => None,
        }
    }
}

proof fn lemma_dec_param_list(items: Seq<Json>)
    ensures
        dec_param_list(items) is Some <==> (forall|i: int|
            0 <= i < items.len() ==> dec_param(#[trigger] items[i]) is Some),
        dec_param_list(items) matches Some(s) ==> s.len() == items.len() && (forall|i: int|
            0 <= i < items.len() ==> s[i] == dec_param(#[trigger] items[i])->0),
    decreases items.len(),
{
    if items.len() > 0 {
        let rest = items.drop_first();
        lemma_dec_param_list(rest);
        assert(forall|i: int| 0 <= i < rest.len() ==> #[trigger] rest[i] == items[i + 1]);
        if forall|i: int| 0 <= i < items.len() ==> dec_param(#[trigger] items[i]) is Some {
            assert forall|i: int|
                0 <= i < rest.len() implies dec_param(#[trigger] rest[i]) is Some by {
                assert(rest[i] == items[i + 1]);
                assert(dec_param(items[i + 1]) is Some);
            }
            assert(dec_param_list(rest) is Some);
            assert(dec_param(items[0]) is Some);
        }
        if dec_param_list(items) is Some {
            assert forall|i: int|
                0 <= i < items.len() implies dec_param(#[trigger] items[i]) is Some by {
                if i > 0 {
                    assert(items[i] == rest[i - 1]);
                    assert(dec_param(rest[i - 1]) is Some);
                }
            }
        }
        match dec_param_list(items) {
            Some(s) => {
                let t = dec_param_list(rest)->0;
                assert(s == seq![dec_param(items[0])->0] + t);
                assert forall|i: int|
                    0 <= i < items.len() implies s[i] == dec_param(#[trigger] items[i])->0 by {
                    if i > 0 {
                        assert(items[i] == rest[i - 1]);
                        assert(s[i] == t[i - 1]);
                        assert(t[i - 1] == dec_param(rest[i - 1])->0);
                    }
                }
            },
            None => {},
        }
    }
}

pub open spec fn error_keys() -> Seq<Seq<char>> {
    seq!["error_code"@, "error_msg"@, "request_params"@]
}

/// What the error side of the envelope decodes to, strictly.
pub open spec fn dec_vk_error(j: Json) -> Option<VkErrorV> {
    match j {
        Json::Obj(entries) => {
            let e = entries@;
            if !strict_obj(e, error_keys()) {
                None
            } else {
                match (req_u64(e, "error_code"@), req_text(e, "error_msg"@)) {
                    (Some(c), Some(m)) => match slookup(e, "request_params"@) {
                        Some(Json::Arr(items)) => match dec_param_list(items@) {
                            Some(ps) => Some(VkErrorV { code: c, message: m, request_params: ps }),
                            None => None,
                        },
                        _ => None,
                    },
                    _ => None,
                }
            }
        },
        _ => None,
    }
}

/// What the whole response envelope holds: exactly one key, either the
/// payload under `response` or a domain error under `error`; anything
/// else is a decode failure.
pub open spec fn env_result(doc: Json) -> Option<Result<Json, VkErrorV>> {
    match doc {
        Json::Obj(entries) => {
            let e = entries@;
            if e.len() != 1 {
                None
            } else if e[0].0@ == "response"@ {
                Some(Ok(e[0].1))
            } else if e[0].0@ == "error"@ {
                match dec_vk_error(e[0].1) {
                    Some(err) => Some(Err(err)),
                    None => None,
                }
            } else {
                None
            }
        },
        _ => None,
    }
}

#[verifier::loop_isolation(false)]
fn decode_vk_error(j: &Json) -> (r: Option<VkError>)
    ensures
        r is Some <==> dec_vk_error(*j) is Some,
        r matches Some(e) ==> dec_vk_error(*j) == Some(e.dv()),
{
    match j {
        Json::Obj(entries) => {
            let allowed: Vec<&str> = vec!["error_code", "error_msg", "request_params"];
            proof {
                assert(views_of(allowed@) =~= error_keys());
            }
            if !obj_strict(entries, &allowed) {
                return None;
            }
            let c = get_u64(entries, "error_code");
            let m = get_text(entries, "error_msg");
            match (c, m) {
                (Some(c), Some(m)) => match obj_get(entries, "request_params") {
                    Some(Json::Arr(items)) => {
                        let n = items.len();
                        let mut out: Vec<RequestParam> = Vec::new();
                        let mut k: usize = 0;
                        while k < n
                            invariant
                                0 <= k <= n,
                                n == items@.len(),
                                out@.len() == k,
                                forall|i: int|
                                    0 <= i < k ==> dec_param(#[trigger] items@[i]) is Some,
                                forall|i: int|
                                    0 <= i < k ==> (#[trigger] out@[i]).dv() == dec_param(
                                        items@[i],
                                    )->0,
                            decreases n - k,
                        {
                            match decode_param(&items[k]) {
                                Some(p) => out.push(p),
                                None => {
                                    proof {
                                        lemma_dec_param_list(items@);
                                    }
                                    return None;
                                },
                            }
                            k += 1;
                        }
                        proof {
                            lemma_dec_param_list(items@);
                            lemma_dv_params(out@);
                            match dec_param_list(items@) {
                                Some(s) => {
                                    assert(s =~= dv_params(out@));
                                },
                                None => {},
                            }
                        }
                        Some(VkError { code: c, message: m, request_params: out })
                    },
                    _ => None,
                },
                _ => None,
            }
        },
        _ => None,
    }
}

fn decode_param(j: &Json) -> (r: Option<RequestParam>)
    ensures
        r is Some <==> dec_param(*j) is Some,
        r matches Some(p) ==> dec_param(*j) == Some(p.dv()),
{
    match j {
        Json::Obj(entries) => {
            let allowed: Vec<&str> = vec!["key", "value"];
            proof {
                assert(views_of(allowed@) =~= param_keys());
            }
            if !obj_strict(entries, &allowed) {
                return None;
            }
            match (get_text(entries, "key"), get_text(entries, "value")) {
                (Some(k), Some(v)) => Some(RequestParam { key: k, value: v }),
                _ => None,
            }
        },
        _ => None,
    }
}

/// Opens the response envelope, exactly as `env_result` says: the
/// payload on success, the domain error or a decode failure otherwise.
pub fn open_envelope<'a>(doc: &'a Json) -> (r: Result<&'a Json, ApiFailure>)
    ensures
        match r {
            Ok(inner) => env_result(*doc) == Some(Ok::<Json, VkErrorV>(*inner)),
            Err(f) => match f {
                ApiFailure::Malformed => env_result(*doc) is None,
                ApiFailure::Domain(e) => env_result(*doc) == Some(Err::<Json, VkErrorV>(e.dv())),
            },
        },
{
    match doc {
        Json::Obj(entries) => {
            if entries.len() != 1 {
                return Err(ApiFailure::Malformed);
            }
            if str_eq(entries[0].0.as_str(), "response") {
                Ok(&entries[0].1)
            } else if str_eq(entries[0].0.as_str(), "error") {
                match decode_vk_error(&entries[0].1) {
                    Some(e) => Err(ApiFailure::Domain(e)),
                    None => Err(ApiFailure::Malformed),
                }
            } else {
                Err(ApiFailure::Malformed)
            }
        },
        _ => Err(ApiFailure::Malformed),
    }
}

/// The unknown-code label the diagnostics fall back to.
pub open spec fn label_of(n: u64) -> Seq<char> {
    match code_of(n) {
        Some(c) => code_label(c),
        None => "Unknown"@,
    }
}

/// The rendering of the echoed parameters, one indented line each.
pub open spec fn params_text(ps: Seq<RequestParamV>) -> Seq<char>
    decreases ps,
{
    if ps.len() == 0 {
        Seq::empty()
    } else {
        "   "@ + ps[0].key + ": "@ + ps[0].value + ",\n"@ + params_text(ps.drop_first())
    }
}

/// The diagnostic text of a domain error: the message, the code's name
/// and number, then each echoed parameter on its own line.
pub open spec fn describe_spec(e: VkErrorV) -> Seq<char> {
    e.message + " ("@ + label_of(e.code) + "#"@ + dec_seq(e.code as nat) + "):\n"@ + params_text(
        e.request_params,
    )
}

fn render_params(ps: &Vec<RequestParam>, k: usize) -> (r: String)
    requires
        k <= ps@.len(),
    ensures
        r@ == params_text(dv_params(ps@).skip(k as int)),
    decreases ps@.len() - k,
{
    proof {
        lemma_dv_params(ps@);
    }
    if k == ps.len() {
        proof {
            assert(dv_params(ps@).skip(k as int) =~= Seq::<RequestParamV>::empty());
        }
        String::new()
    } else {
        let mut s = "   ".to_owned();
        s.append(ps[k].key.as_str());
        s.append(": ");
        s.append(ps[k].value.as_str());
        s.append(",\n");
        let rest = render_params(ps, k + 1);
        s.append(rest.as_str());
        proof {
            let d = dv_params(ps@);
            assert(d.skip(k as int)[0] == d[k as int]);
            assert(d.skip(k as int).drop_first() =~= d.skip(k as int + 1));
            assert(s@ =~= "   "@ + d[k as int].key + ": "@ + d[k as int].value + ",\n"@
                + params_text(d.skip(k as int + 1)));
        }
        s
    }
}

impl VkError {
    /// Renders the diagnostic text, exactly `describe_spec`.
    pub fn describe(&self) -> (r: String)
        ensures
            r@ == describe_spec(self.dv()),
    {
        let mut s = self.message.clone();
        s.append(" (");
        let label: &str = match error_kind(self.code) {
            Some(c) => code_name(c),
            None => "Unknown",
        };
        s.append(label);
        s.append("#");
        let num = u64_to_dec(self.code);
        s.append(num.as_str());
        s.append("):\n");
        let ps = render_params(&self.request_params, 0);
        s.append(ps.as_str());
        proof {
            assert(dv_params(self.request_params@).skip(0) =~= dv_params(self.request_params@));
            assert(s@ =~= describe_spec(self.dv()));
        }
        s
    }
}

} // verus!
