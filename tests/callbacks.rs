use oauth_deeplink::desktop;
use oauth_deeplink::mobile;
use oauth_deeplink::{
    is_oauth_callback, parse_oauth_callback_url, record_from_query, same_text, starts_with_text,
    CallbackCache, CallbackRecord, CALLBACK_PREFIX, OAUTH_CALLBACK_EVENT,
};

fn s(t: &str) -> Option<String> {
    Some(t.to_string())
}

fn assert_only_raw(r: &CallbackRecord, raw: &str) {
    assert_eq!(r, &CallbackRecord::empty(raw));
    assert_eq!(r.raw_url, raw);
    assert_eq!(r.platform, None);
    assert_eq!(r.action, None);
    assert_eq!(r.error, None);
    assert_eq!(r.message, None);
    assert_eq!(r.error_code, None);
    assert_eq!(r.need_bind, None);
    assert_eq!(r.token, None);
    assert_eq!(r.oauth_key, None);
    assert_eq!(r.nickname, None);
    assert_eq!(r.avatar, None);
    assert_eq!(r.email, None);
    assert_eq!(r.bind_success, None);
}

#[test]
fn login_callback_fields() {
    let u = "app://oauth/callback?platform=github&action=login&token=abc&needBind=false";
    let r = parse_oauth_callback_url(u);
    assert_eq!(r.raw_url, u);
    assert_eq!(r.platform, s("github"));
    assert_eq!(r.action, s("login"));
    assert_eq!(r.token, s("abc"));
    assert_eq!(r.need_bind, Some(false));
    assert_eq!(r.error, None);
    assert_eq!(r.message, None);
    assert_eq!(r.error_code, None);
    assert_eq!(r.oauth_key, None);
    assert_eq!(r.nickname, None);
    assert_eq!(r.avatar, None);
    assert_eq!(r.email, None);
    assert_eq!(r.bind_success, None);
}

#[test]
fn bind_success_callback() {
    let u = "app://oauth/callback?bindSuccess=true";
    let r = parse_oauth_callback_url(u);
    let mut expected = CallbackRecord::empty(u);
    expected.bind_success = Some(true);
    assert_eq!(r, expected);
}

#[test]
fn not_a_url_gives_bare_record() {
    let r = parse_oauth_callback_url("not a url");
    assert_only_raw(&r, "not a url");
}

#[test]
fn parsing_twice_gives_same_record() {
    let u = "jiwuchat://oauth/callback?platform=gitee&oauthKey=k1&errorCode=E42";
    assert_eq!(parse_oauth_callback_url(u), parse_oauth_callback_url(u));
}

#[test]
fn absent_keys_are_absent_and_empty_values_are_empty() {
    let r = parse_oauth_callback_url("jiwuchat://oauth/callback?message=&email=a%40b.c");
    assert_eq!(r.message, s(""));
    assert_eq!(r.email, s("a@b.c"));
    assert_eq!(r.platform, None);
    assert_eq!(r.token, None);
}

#[test]
fn repeated_key_keeps_last_value() {
    let r = parse_oauth_callback_url("jiwuchat://oauth/callback?platform=a&platform=b");
    assert_eq!(r.platform, s("b"));
}

#[test]
fn flags_compare_literally() {
    let r = parse_oauth_callback_url("jiwuchat://oauth/callback?needBind=True&bindSuccess=yes");
    assert_eq!(r.need_bind, Some(false));
    assert_eq!(r.bind_success, Some(false));
    let r = parse_oauth_callback_url("jiwuchat://oauth/callback?needBind=true");
    assert_eq!(r.need_bind, Some(true));
}

#[test]
fn unknown_keys_are_ignored() {
    let u = "jiwuchat://oauth/callback?code=xyz&state=s1&foo=bar";
    assert_only_raw(&parse_oauth_callback_url(u), u);
}

#[test]
fn query_values_are_decoded() {
    let r = parse_oauth_callback_url(
        "jiwuchat://oauth/callback?nickname=J%C3%BCrgen+X&avatar=https%3A%2F%2Fimg%2Fa.png",
    );
    assert_eq!(r.nickname, s("J\u{fc}rgen X"));
    assert_eq!(r.avatar, s("https://img/a.png"));
}

#[test]
fn all_recognised_keys() {
    let u = "jiwuchat://oauth/callback?platform=p&action=bind&error=e&message=m&errorCode=c\
             &needBind=true&token=t&oauthKey=o&nickname=n&avatar=a&email=x&bindSuccess=false";
    let r = parse_oauth_callback_url(u);
    let expected = CallbackRecord {
        platform: s("p"),
        action: s("bind"),
        error: s("e"),
        raw_url: u.to_string(),
        need_bind: Some(true),
        token: s("t"),
        oauth_key: s("o"),
        nickname: s("n"),
        avatar: s("a"),
        email: s("x"),
        message: s("m"),
        error_code: s("c"),
        bind_success: Some(false),
    };
    assert_eq!(r, expected);
}

#[test]
fn record_from_given_pairs() {
    let pairs = vec![
        ("action".to_string(), "login".to_string()),
        ("needBind".to_string(), "true".to_string()),
        ("other".to_string(), "1".to_string()),
        ("action".to_string(), "bind".to_string()),
    ];
    let r = record_from_query("raw", Some(pairs));
    assert_eq!(r.raw_url, "raw");
    assert_eq!(r.action, s("bind"));
    assert_eq!(r.need_bind, Some(true));
    assert_eq!(r.platform, None);
    assert_only_raw(&record_from_query("raw", None), "raw");
    assert_only_raw(&record_from_query("raw", Some(vec![])), "raw");
}

#[test]
fn apply_pair_sets_one_field() {
    let mut r = CallbackRecord::empty("x");
    r.apply_pair("oauthKey", "k");
    r.apply_pair("unknown", "v");
    assert_eq!(r.oauth_key, s("k"));
    assert_eq!(r.duplicate(), r);
}

#[test]
fn callback_predicate() {
    assert_eq!(CALLBACK_PREFIX, "jiwuchat://oauth/callback");
    assert!(is_oauth_callback("jiwuchat://oauth/callback"));
    assert!(is_oauth_callback("jiwuchat://oauth/callback?platform=github"));
    assert!(!is_oauth_callback("jiwuchat://oauth/other"));
    assert!(!is_oauth_callback("app://oauth/callback?platform=github"));
    assert!(!is_oauth_callback("https://example.com/oauth/callback"));
    assert!(!is_oauth_callback(""));
    assert!(!is_oauth_callback("jiwuchat://oauth/call"));
}

#[test]
fn text_helpers() {
    assert!(same_text("abc", "abc"));
    assert!(!same_text("abc", "abd"));
    assert!(!same_text("abc", "ab"));
    assert!(same_text("", ""));
    assert!(starts_with_text("hello", "he"));
    assert!(starts_with_text("hello", ""));
    assert!(!starts_with_text("he", "hello"));
    assert!(!starts_with_text("hello", "hx"));
}

#[test]
fn desktop_runtime_non_callback_is_ignored() {
    assert_eq!(desktop::handle_runtime_url("https://example.com/"), None);
    assert_eq!(desktop::handle_runtime_url("app://oauth/callback?token=t"), None);
}

#[test]
fn desktop_runtime_callback_emits_and_focuses() {
    let u = "jiwuchat://oauth/callback?platform=github&token=abc";
    let a = desktop::handle_runtime_url(u).expect("callback URL");
    assert!(a.focus_window);
    assert_eq!(a.payload, parse_oauth_callback_url(u));
    assert_eq!(a.payload.token, s("abc"));
    assert_eq!(OAUTH_CALLBACK_EVENT, "oauth-callback");
}

#[test]
fn desktop_startup_one_emission_per_callback() {
    let urls = vec![
        "jiwuchat://oauth/callback?platform=a".to_string(),
        "https://example.com/".to_string(),
        "jiwuchat://oauth/callback?platform=b".to_string(),
        "jiwuchat://settings".to_string(),
        "jiwuchat://oauth/callback?platform=c".to_string(),
    ];
    let r = desktop::handle_startup_urls(&urls);
    assert_eq!(r.len(), 3);
    for e in &r {
        assert_eq!(e.delay_ms, 500);
    }
    assert_eq!(r[0].payload.platform, s("a"));
    assert_eq!(r[1].payload.platform, s("b"));
    assert_eq!(r[2].payload.platform, s("c"));
    assert_eq!(r[2].payload.raw_url, urls[4]);
}

#[test]
fn desktop_startup_without_callbacks() {
    assert!(desktop::handle_startup_urls(&vec![]).is_empty());
    assert!(desktop::handle_startup_urls(&vec!["https://x.y/".to_string()]).is_empty());
}

#[test]
fn mobile_cache_starts_empty() {
    assert_eq!(CallbackCache::new().latest(), None);
}

#[test]
fn mobile_runtime_caches_emits_and_focuses() {
    let mut cache = CallbackCache::new();
    let u = "jiwuchat://oauth/callback?action=bind&bindSuccess=true";
    let a = mobile::handle_runtime_url(&mut cache, u).expect("callback URL");
    assert!(a.focus_window);
    assert_eq!(a.payload.bind_success, Some(true));
    assert_eq!(cache.latest(), Some(parse_oauth_callback_url(u)));
    assert_eq!(mobile::handle_runtime_url(&mut cache, "https://x.y/"), None);
    assert_eq!(cache.latest(), Some(parse_oauth_callback_url(u)));
    let v = "jiwuchat://oauth/callback?action=login";
    mobile::handle_runtime_url(&mut cache, v).expect("callback URL");
    assert_eq!(cache.latest().unwrap().action, s("login"));
}

#[test]
fn mobile_startup_delays_and_caches_last() {
    let mut cache = CallbackCache::new();
    let urls = vec![
        "jiwuchat://oauth/callback?token=1".to_string(),
        "jiwuchat://oauth/callback?token=2".to_string(),
        "other".to_string(),
    ];
    let r = mobile::handle_startup_urls(&mut cache, &urls);
    assert_eq!(r.len(), 2);
    assert!(r.iter().all(|e| e.delay_ms == 200));
    assert_eq!(cache.latest().unwrap().token, s("2"));
    let none = mobile::handle_startup_urls(&mut cache, &vec!["other".to_string()]);
    assert!(none.is_empty());
    assert_eq!(cache.latest().unwrap().token, s("2"));
}

#[test]
fn cache_store_replaces() {
    let mut cache = CallbackCache::new();
    cache.store(CallbackRecord::empty("a"));
    cache.store(CallbackRecord::empty("b"));
    assert_eq!(cache.latest().unwrap().raw_url, "b");
}
