//! The callback record and its decomposition from a callback URL.
use vstd::prelude::*;
use crate::text::same_text;

verus! {

/// What an OAuth redirect reports back to the shell.
///
/// Every field but `raw_url` is present only when its query key occurs in
/// the URL.
#[derive(Clone, Debug, PartialEq, Eq)]
pub struct CallbackRecord {
    pub platform: Option<String>,
    pub action: Option<String>,
    pub error: Option<String>,
    pub raw_url: String,
    pub need_bind: Option<bool>,
    pub token: Option<String>,
    pub oauth_key: Option<String>,
    pub nickname: Option<String>,
    pub avatar: Option<String>,
    pub email: Option<String>,
    pub message: Option<String>,
    pub error_code: Option<String>,
    pub bind_success: Option<bool>,
}

/// The mathematical value of a [`CallbackRecord`].
pub struct RecordView {
    pub platform: Option<Seq<char>>,
    pub action: Option<Seq<char>>,
    pub error: Option<Seq<char>>,
    pub raw_url: Seq<char>,
    pub need_bind: Option<bool>,
    pub token: Option<Seq<char>>,
    pub oauth_key: Option<Seq<char>>,
    pub nickname: Option<Seq<char>>,
    pub avatar: Option<Seq<char>>,
    pub email: Option<Seq<char>>,
    pub message: Option<Seq<char>>,
    pub error_code: Option<Seq<char>>,
    pub bind_success: Option<bool>,
}

impl View for CallbackRecord {
    type V = RecordView;

    open spec fn view(&self) -> RecordView {
        RecordView {
            platform: self.platform.deep_view(),
            action: self.action.deep_view(),
            error: self.error.deep_view(),
            raw_url: self.raw_url@,
            need_bind: self.need_bind,
            token: self.token.deep_view(),
            oauth_key: self.oauth_key.deep_view(),
            nickname: self.nickname.deep_view(),
            avatar: self.avatar.deep_view(),
            email: self.email.deep_view(),
            message: self.message.deep_view(),
            error_code: self.error_code.deep_view(),
            bind_success: self.bind_success,
        }
    }
}

/// The value of the last pair whose key is `key`, if any pair has it.
pub open spec fn last_value(pairs: Seq<(Seq<char>, Seq<char>)>, key: Seq<char>) -> Option<Seq<char>>
    decreases pairs.len(),
{
    if pairs.len() == 0 {
        None
    } else if pairs.last().0 == key {
        Some(pairs.last().1)
    } else {
        last_value(pairs.drop_last(), key)
    }
}

/// A boolean field is true exactly when its text is `true`.
pub open spec fn flag_value(v: Option<Seq<char>>) -> Option<bool> {
    match v {
        Some(s) => Some(s == "true"@),
        None => None,
    }
}

/// The record of a URL that carries no recognised query key.
pub open spec fn empty_record(raw: Seq<char>) -> RecordView {
    RecordView {
        platform: None,
        action: None,
        error: None,
        raw_url: raw,
        need_bind: None,
        token: None,
        oauth_key: None,
        nickname: None,
        avatar: None,
        email: None,
        message: None,
        error_code: None,
        bind_success: None,
    }
}

/// The record of `raw` whose query decomposes into `pairs`.
pub open spec fn record_of_pairs(raw: Seq<char>, pairs: Seq<(Seq<char>, Seq<char>)>) -> RecordView {
    RecordView {
        platform: last_value(pairs, "platform"@),
        action: last_value(pairs, "action"@),
        error: last_value(pairs, "error"@),
        raw_url: raw,
        need_bind: flag_value(last_value(pairs, "needBind"@)),
        token: last_value(pairs, "token"@),
        oauth_key: last_value(pairs, "oauthKey"@),
        nickname: last_value(pairs, "nickname"@),
        avatar: last_value(pairs, "avatar"@),
        email: last_value(pairs, "email"@),
        message: last_value(pairs, "message"@),
        error_code: last_value(pairs, "errorCode"@),
        bind_success: flag_value(last_value(pairs, "bindSuccess"@)),
    }
}

/// The record of `raw`, given its query pairs, or `None` where `raw` is no URL.
pub open spec fn record_of_query(raw: Seq<char>, query: Option<Seq<(Seq<char>, Seq<char>)>>) -> RecordView {
    match query {
        Some(pairs) => record_of_pairs(raw, pairs),
        None => empty_record(raw),
    }
}

/// Whether the URL parser accepts `s` as an absolute URL.
pub uninterp spec fn url_accepts(s: Seq<char>) -> bool;

/// The decoded key/value pairs of the query of the URL that `s` parses to.
pub uninterp spec fn url_query_pairs(s: Seq<char>) -> Seq<(Seq<char>, Seq<char>)>;

/// The query pairs of `s`, or `None` where `s` is no URL.
pub open spec fn query_of_url(s: Seq<char>) -> Option<Seq<(Seq<char>, Seq<char>)>> {
    if url_accepts(s) {
        Some(url_query_pairs(s))
    } else {
        None
    }
}

/// The record that a callback URL stands for.
pub open spec fn parsed_record(url: Seq<char>) -> RecordView {
    record_of_query(url, query_of_url(url))
}

impl RecordView {
    /// The record after one more query pair: the field whose key is `key`
    /// takes `value`; a pair with an unknown key changes nothing.
    pub open spec fn with_pair(self, key: Seq<char>, value: Seq<char>) -> RecordView {
        let text = |k: Seq<char>, prev: Option<Seq<char>>| if key == k { Some(value) } else { prev };
        let flag = |k: Seq<char>, prev: Option<bool>| if key == k { Some(value == "true"@) } else { prev };
        RecordView {
            platform: text("platform"@, self.platform),
            action: text("action"@, self.action),
            error: text("error"@, self.error),
            raw_url: self.raw_url,
            need_bind: flag("needBind"@, self.need_bind),
            token: text("token"@, self.token),
            oauth_key: text("oauthKey"@, self.oauth_key),
            nickname: text("nickname"@, self.nickname),
            avatar: text("avatar"@, self.avatar),
            email: text("email"@, self.email),
            message: text("message"@, self.message),
            error_code: text("errorCode"@, self.error_code),
            bind_success: flag("bindSuccess"@, self.bind_success),
        }
    }
}

proof fn lemma_record_of_pairs_push(
    raw: Seq<char>,
    pairs: Seq<(Seq<char>, Seq<char>)>,
    pair: (Seq<char>, Seq<char>),
)
    ensures
        record_of_pairs(raw, pairs.push(pair)) == record_of_pairs(raw, pairs).with_pair(pair.0, pair.1),
{
    assert(pairs.push(pair).drop_last() == pairs);
}

fn copy_text(t: &Option<String>) -> (r: Option<String>)
    ensures
        r.deep_view() == t.deep_view(),
{
    match t {
        Some(s) => Some(s.clone()),
        None => None,
    }
}

impl CallbackRecord {
    /// The record of `raw_url` with every optional field absent.
    pub fn empty(raw_url: &str) -> (r: CallbackRecord)
        ensures
            r@ == empty_record(raw_url@),
    {
        CallbackRecord {
            platform: None,
            action: None,
            error: None,
            raw_url: raw_url.to_owned(),
            need_bind: None,
            token: None,
            oauth_key: None,
            nickname: None,
            avatar: None,
            email: None,
            message: None,
            error_code: None,
            bind_success: None,
        }
    }

    /// A record with the same fields.
    pub fn duplicate(&self) -> (r: CallbackRecord)
        ensures
            r@ == self@,
    {
        CallbackRecord {
            platform: copy_text(&self.platform),
            action: copy_text(&self.action),
            error: copy_text(&self.error),
            raw_url: self.raw_url.clone(),
            need_bind: self.need_bind,
            token: copy_text(&self.token),
            oauth_key: copy_text(&self.oauth_key),
            nickname: copy_text(&self.nickname),
            avatar: copy_text(&self.avatar),
            email: copy_text(&self.email),
            message: copy_text(&self.message),
            error_code: copy_text(&self.error_code),
            bind_success: self.bind_success,
        }
    }

    /// Copies the field that `key` names from `value`; unknown keys are ignored.
    pub fn apply_pair(&mut self, key: &str, value: &str)
        ensures
            final(self)@ == old(self)@.with_pair(key@, value@),
    {
        // The recognised keys are pairwise distinct: by length, else by
        // their first or second character.
        proof {
            reveal_strlit("platform");
            reveal_strlit("action");
            reveal_strlit("error");
            reveal_strlit("message");
            reveal_strlit("errorCode");
            reveal_strlit("needBind");
            reveal_strlit("token");
            reveal_strlit("oauthKey");
            reveal_strlit("nickname");
            reveal_strlit("avatar");
            reveal_strlit("email");
            reveal_strlit("bindSuccess");
            assert("platform"@.len() == 8);
            assert("action"@.len() == 6);
            assert("error"@.len() == 5);
            assert("message"@.len() == 7);
            assert("errorCode"@.len() == 9);
            assert("needBind"@.len() == 8);
            assert("token"@.len() == 5);
            assert("oauthKey"@.len() == 8);
            assert("nickname"@.len() == 8);
            assert("avatar"@.len() == 6);
            assert("email"@.len() == 5);
            assert("bindSuccess"@.len() == 11);
            assert("platform"@[0] == 'p');
            assert("needBind"@[0] == 'n');
            assert("oauthKey"@[0] == 'o');
            assert("nickname"@[0] == 'n');
            assert("action"@[0] == 'a');
            assert("avatar"@[0] == 'a');
            assert("error"@[0] == 'e');
            assert("token"@[0] == 't');
            assert("email"@[0] == 'e');
            assert("needBind"@[1] == 'e');
            assert("nickname"@[1] == 'i');
            assert("action"@[1] == 'c');
            assert("avatar"@[1] == 'v');
            assert("error"@[1] == 'r');
            assert("email"@[1] == 'm');
        }
        if same_text(key, "platform") {
            self.platform = Some(value.to_owned());
        } else if same_text(key, "action") {
            self.action = Some(value.to_owned());
        } else if same_text(key, "error") {
            self.error = Some(value.to_owned());
        } else if same_text(key, "message") {
            self.message = Some(value.to_owned());
        } else if same_text(key, "errorCode") {
            self.error_code = Some(value.to_owned());
        } else if same_text(key, "needBind") {
            self.need_bind = Some(same_text(value, "true"));
        } else if same_text(key, "token") {
            self.token = Some(value.to_owned());
        } else if same_text(key, "oauthKey") {
            self.oauth_key = Some(value.to_owned());
        } else if same_text(key, "nickname") {
            self.nickname = Some(value.to_owned());
        } else if same_text(key, "avatar") {
            self.avatar = Some(value.to_owned());
        } else if same_text(key, "email") {
            self.email = Some(value.to_owned());
        } else if same_text(key, "bindSuccess") {
            self.bind_success = Some(same_text(value, "true"));
        }
    }
}

/// The record of `url` given the outcome of decomposing its query: the
/// fields of the recognised keys, the last occurrence of a key winning.
pub fn record_from_query(url: &str, query: Option<Vec<(String, String)>>) -> (r: CallbackRecord)
    ensures
        r@ == record_of_query(url@, query.deep_view()),
{
    let mut rec = CallbackRecord::empty(url);
    match query {
        None => rec,
        Some(pairs) => {
            let n = pairs.len();
            let mut i: usize = 0;
            assert(pairs.deep_view().take(0) == Seq::<(Seq<char>, Seq<char>)>::empty());
            while i < n
                invariant
                    n == pairs.len(),
                    i <= n,
                    rec@ == record_of_pairs(url@, pairs.deep_view().take(i as int)),
                decreases n - i,
            {
                let pair = &pairs[i];
                rec.apply_pair(pair.0.as_str(), pair.1.as_str());
                proof {
                    let dv = pairs.deep_view();
                    assert(dv.take(i + 1) == dv.take(i as int).push(dv[i as int]));
                    lemma_record_of_pairs_push(url@, dv.take(i as int), dv[i as int]);
                }
                i = i + 1;
            }
            assert(pairs.deep_view().take(n as int) == pairs.deep_view());
            rec
        },
    }
}

/// Decomposes a callback URL into its record. Never fails: text that is no
/// URL gives the record with every optional field absent.
pub fn parse_oauth_callback_url(url: &str) -> (r: CallbackRecord)
    ensures
        r@ == parsed_record(url@),
        !url@.contains(':') ==> r@ == empty_record(url@),
{
    let query = decode_query(url);
    record_from_query(url, query)
}

/// Relies on `url::Url::parse` (accepts or rejects the text; a text without
/// a `:` has no scheme and, with no base, is rejected) and on
/// `url::Url::query_pairs` (the percent-decoded pairs of the query, in order).
#[verifier::external_body]
fn decode_query(s: &str) -> (r: Option<Vec<(String, String)>>)
    ensures
        r is Some <==> url_accepts(s@),
        r is Some ==> r->0.deep_view() == url_query_pairs(s@),
        !s@.contains(':') ==> r is None,
{
    match url::Url::parse(s) {
        Ok(u) => Some(u.query_pairs().map(|(k, v)| (k.into_owned(), v.into_owned())).collect()),
        Err(_) => None,
    }
}

} // verus!

verus! {

/// Whether `url` is a URL whose query holds a pair with key `key`.
pub open spec fn key_in_query(url: Seq<char>, key: Seq<char>) -> bool {
    url_accepts(url) && exists|i: int|
        0 <= i < url_query_pairs(url).len() && (#[trigger] url_query_pairs(url)[i]).0 == key
}

proof fn lemma_last_value_some(pairs: Seq<(Seq<char>, Seq<char>)>, key: Seq<char>)
    ensures
        last_value(pairs, key) is Some <==> exists|i: int|
            0 <= i < pairs.len() && (#[trigger] pairs[i]).0 == key,
    decreases pairs.len(),
{
    if pairs.len() > 0 {
        let rest = pairs.drop_last();
        lemma_last_value_some(rest, key);
        if pairs.last().0 != key {
            if exists|i: int| 0 <= i < pairs.len() && (#[trigger] pairs[i]).0 == key {
                let i = choose|i: int| 0 <= i < pairs.len() && (#[trigger] pairs[i]).0 == key;
                assert(rest[i] == pairs[i]);
            }
            if exists|i: int| 0 <= i < rest.len() && (#[trigger] rest[i]).0 == key {
                let i = choose|i: int| 0 <= i < rest.len() && (#[trigger] rest[i]).0 == key;
                assert(pairs[i] == rest[i]);
            }
        }
    }
}

/// Parsing depends on the text alone: the same text always gives the same
/// record.
pub proof fn parsing_is_deterministic(u1: Seq<char>, u2: Seq<char>)
    requires
        u1 == u2,
    ensures
        parsed_record(u1) == parsed_record(u2),
{
}

/// A field of the parsed record is present exactly when its key occurs in
/// the URL's query; a key that does not occur leaves its field absent rather
/// than empty, and the raw URL is always kept verbatim.
pub proof fn absent_keys_stay_absent(url: Seq<char>)
    ensures
        parsed_record(url).raw_url == url,
        parsed_record(url).platform is Some <==> key_in_query(url, "platform"@),
        parsed_record(url).action is Some <==> key_in_query(url, "action"@),
        parsed_record(url).error is Some <==> key_in_query(url, "error"@),
        parsed_record(url).message is Some <==> key_in_query(url, "message"@),
        parsed_record(url).error_code is Some <==> key_in_query(url, "errorCode"@),
        parsed_record(url).need_bind is Some <==> key_in_query(url, "needBind"@),
        parsed_record(url).token is Some <==> key_in_query(url, "token"@),
        parsed_record(url).oauth_key is Some <==> key_in_query(url, "oauthKey"@),
        parsed_record(url).nickname is Some <==> key_in_query(url, "nickname"@),
        parsed_record(url).avatar is Some <==> key_in_query(url, "avatar"@),
        parsed_record(url).email is Some <==> key_in_query(url, "email"@),
        parsed_record(url).bind_success is Some <==> key_in_query(url, "bindSuccess"@),
{
    let pairs = url_query_pairs(url);
    lemma_last_value_some(pairs, "platform"@);
    lemma_last_value_some(pairs, "action"@);
    lemma_last_value_some(pairs, "error"@);
    lemma_last_value_some(pairs, "message"@);
    lemma_last_value_some(pairs, "errorCode"@);
    lemma_last_value_some(pairs, "needBind"@);
    lemma_last_value_some(pairs, "token"@);
    lemma_last_value_some(pairs, "oauthKey"@);
    lemma_last_value_some(pairs, "nickname"@);
    lemma_last_value_some(pairs, "avatar"@);
    lemma_last_value_some(pairs, "email"@);
    lemma_last_value_some(pairs, "bindSuccess"@);
}

} // verus!
