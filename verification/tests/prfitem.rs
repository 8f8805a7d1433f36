use prfitem::enhance::{EnhanceKind, EnhanceRefs, Templates};
use prfitem::prfitem::{
    default_allow_auto_update, EncryptedSubscriptionCache, PrfError, PrfExtra, PrfItem, PrfOption,
};
use prfitem::sources::{ItemSource, ProxyType};
use prfitem::response::get_last_part_and_decode;
use prfitem::subscription_decrypt::DecryptError;
use reqwest::header::HeaderMap;

fn templates() -> Templates {
    Templates {
        local: "local-template".to_string(),
        merge: "merge-template".to_string(),
        merge_empty: "merge-empty-template".to_string(),
        script: "script-template".to_string(),
        rules: "rules-template".to_string(),
        proxies: "proxies-template".to_string(),
        groups: "groups-template".to_string(),
    }
}

fn option() -> PrfOption {
    PrfOption::default()
}

const PROFILE: &str = "proxies:\n  - name: a\n    type: direct\n";

#[test]
fn allow_auto_update_defaults_to_true() {
    assert_eq!(default_allow_auto_update(), Some(true));
}

#[test]
fn merge_lets_the_second_win_field_by_field() {
    let mut a = option();
    a.user_agent = Some("ua-a".to_string());
    a.with_proxy = Some(true);
    a.update_interval = Some(10);
    a.merge = Some("m1".to_string());
    let mut b = option();
    b.update_interval = Some(20);
    b.with_proxy = None;
    b.merge = Some("m2".to_string());
    b.timeout_seconds = Some(5);
    let m = PrfOption::merge(Some(&a), Some(&b)).unwrap();
    assert_eq!(m.user_agent.as_deref(), Some("ua-a"));
    assert_eq!(m.with_proxy, Some(true));
    assert_eq!(m.update_interval, Some(20));
    assert_eq!(m.merge.as_deref(), Some("m2"));
    assert_eq!(m.timeout_seconds, Some(5));
    assert_eq!(m.script, None);
}

#[test]
fn merge_with_one_side_missing_takes_the_other() {
    let mut a = option();
    a.rules = Some("r".to_string());
    assert_eq!(PrfOption::merge(Some(&a), None).unwrap().rules.as_deref(), Some("r"));
    assert_eq!(PrfOption::merge(None, Some(&a)).unwrap().rules.as_deref(), Some("r"));
    assert!(PrfOption::merge(None, None).is_none());
}

#[test]
fn merge_is_associative_on_an_example() {
    let mut a = option();
    a.groups = Some("ga".to_string());
    a.self_proxy = Some(false);
    let mut b = option();
    b.groups = Some("gb".to_string());
    let mut c = option();
    c.self_proxy = Some(true);
    let left = PrfOption::merge(PrfOption::merge(Some(&a), Some(&b)).as_ref(), Some(&c)).unwrap();
    let right = PrfOption::merge(Some(&a), PrfOption::merge(Some(&b), Some(&c)).as_ref()).unwrap();
    assert_eq!(left, right);
    assert_eq!(left.groups.as_deref(), Some("gb"));
    assert_eq!(left.self_proxy, Some(true));
}

#[test]
fn from_needs_a_type() {
    let item = PrfItem::default();
    let err = PrfItem::from(&item, None).unwrap_err();
    assert!(matches!(err, PrfError::MissingType));
    assert_eq!(err.message(), "type should not be null");
}

#[test]
fn from_remote_needs_a_url() {
    let mut item = PrfItem::default();
    item.itype = Some("remote".to_string());
    let err = PrfItem::from(&item, None).unwrap_err();
    assert_eq!(err.message(), "url should not be null");
    item.url = Some("https://example.com/sub".to_string());
    item.name = Some("n".to_string());
    match PrfItem::from(&item, Some("ignored".to_string())).unwrap() {
        ItemSource::Remote { url, name, desc, option } => {
            assert_eq!(url, "https://example.com/sub");
            assert_eq!(name.as_deref(), Some("n"));
            assert!(desc.is_none());
            assert!(option.is_none());
        }
        ItemSource::Local { .. } => panic!("expected a remote source"),
    }
}

#[test]
fn from_local_fills_name_and_description() {
    let mut item = PrfItem::default();
    item.itype = Some("local".to_string());
    match PrfItem::from(&item, Some("data".to_string())).unwrap() {
        ItemSource::Local { name, desc, file_data, .. } => {
            assert_eq!(name, "Local File");
            assert_eq!(desc, "");
            assert_eq!(file_data.as_deref(), Some("data"));
        }
        ItemSource::Remote { .. } => panic!("expected a local source"),
    }
}

#[test]
fn from_refuses_other_types() {
    let mut item = PrfItem::default();
    item.itype = Some("merge".to_string());
    let err = PrfItem::from(&item, None).unwrap_err();
    assert_eq!(err.message(), "invalid profile item type \"merge\"");
}

#[test]
fn merge_item_uses_given_uid_and_template() {
    let t = templates();
    let item = PrfItem::from_merge(Some("mabc".to_string()), "zzz", &t).unwrap();
    assert_eq!(item.uid.as_deref(), Some("mabc"));
    assert_eq!(item.itype.as_deref(), Some("merge"));
    assert_eq!(item.file.as_deref(), Some("mabc.yaml"));
    assert_eq!(item.file_data.as_deref(), Some("merge-template"));
    assert!(item.updated.is_some());
    let fresh = PrfItem::from_merge(None, "xyz", &t).unwrap();
    assert_eq!(fresh.uid.as_deref(), Some("mxyz"));
    assert_eq!(fresh.file_data.as_deref(), Some("merge-empty-template"));
}

#[test]
fn enhancement_items_have_their_kind() {
    let t = templates();
    let s = PrfItem::from_script(None, "1", &t).unwrap();
    assert_eq!(s.uid.as_deref(), Some("s1"));
    assert_eq!(s.file.as_deref(), Some("s1.js"));
    assert_eq!(s.file_data.as_deref(), Some("script-template"));
    let r = PrfItem::from_rules("2", &t).unwrap();
    assert_eq!((r.uid.as_deref(), r.itype.as_deref(), r.file.as_deref()), (Some("r2"), Some("rules"), Some("r2.yaml")));
    let p = PrfItem::from_proxies("3", &t).unwrap();
    assert_eq!((p.uid.as_deref(), p.itype.as_deref(), p.file_data.as_deref()), (Some("p3"), Some("proxies"), Some("proxies-template")));
    let g = PrfItem::from_groups("4", &t).unwrap();
    assert_eq!((g.uid.as_deref(), g.itype.as_deref(), g.file_data.as_deref()), (Some("g4"), Some("groups"), Some("groups-template")));
    let e = PrfItem::enhancement(EnhanceKind::Script, Some("given".to_string()), "x", &t, 42);
    assert_eq!(e.file.as_deref(), Some("given.js"));
    assert_eq!(e.updated, Some(42));
}

#[test]
fn local_profile_draft_and_finish() {
    let t = templates();
    let mut opt = option();
    opt.update_interval = Some(30);
    opt.script = Some("s-existing".to_string());
    let mut draft = PrfItem::from_local("Mine".to_string(), "d".to_string(), None, Some(&opt), "77", &t).unwrap();
    assert_eq!(draft.item.uid.as_deref(), Some("L77"));
    assert_eq!(draft.item.file.as_deref(), Some("L77.yaml"));
    assert_eq!(draft.item.file_data.as_deref(), Some("local-template"));
    let missing = draft.missing();
    assert_eq!(missing, vec![EnhanceKind::Merge, EnhanceKind::Rules, EnhanceKind::Proxies, EnhanceKind::Groups]);
    for kind in missing {
        let created = PrfItem::new_enhancement(kind, "n", &t).unwrap();
        draft.set_ref(kind, created.uid.clone());
    }
    assert!(draft.missing().is_empty());
    let item = draft.finish_at(1234);
    assert_eq!(item.updated, Some(1234));
    assert_eq!(item.current_merge().map(|s| s.as_str()), Some("mn"));
    assert_eq!(item.current_script().map(|s| s.as_str()), Some("s-existing"));
    assert_eq!(item.current_rules().map(|s| s.as_str()), Some("rn"));
    assert_eq!(item.current_proxies().map(|s| s.as_str()), Some("pn"));
    assert_eq!(item.current_groups().map(|s| s.as_str()), Some("gn"));
    assert_eq!(item.option.as_ref().unwrap().update_interval, Some(30));
    assert_eq!(item.itype.as_deref(), Some("local"));
}

#[test]
fn local_profile_keeps_given_file_data() {
    let t = templates();
    let draft = PrfItem::from_local("a".to_string(), "b".to_string(), Some("mine".to_string()), None, "1", &t).unwrap();
    assert_eq!(draft.item.file_data.as_deref(), Some("mine"));
    assert_eq!(draft.missing().len(), 5);
}

#[test]
fn enhance_refs_set_and_read() {
    let mut refs = EnhanceRefs::none();
    refs.set(EnhanceKind::Proxies, Some("p1".to_string()));
    assert_eq!(refs.proxies.as_deref(), Some("p1"));
    assert_eq!(refs.missing(), vec![EnhanceKind::Merge, EnhanceKind::Script, EnhanceKind::Rules, EnhanceKind::Groups]);
}

#[test]
fn finish_stamps_the_current_time() {
    let t = templates();
    let draft = PrfItem::from_local("a".to_string(), "b".to_string(), None, None, "1", &t).unwrap();
    let item = draft.finish();
    assert!(item.updated.unwrap() > 1_600_000_000);
}

#[test]
fn encrypted_cache_becomes_a_remote_profile() {
    let cache = EncryptedSubscriptionCache {
        url: "https://s.example/sub".to_string(),
        ciphertext: "xyz".to_string(),
        name: None,
        extra: Some(PrfExtra { upload: 1, download: 2, total: 3, expire: 4 }),
        update_interval: Some(60),
        home: Some("https://home".to_string()),
    };
    let draft = PrfItem::from_encrypted_cache(&cache, PROFILE.to_string(), "uuid-1", "9").unwrap();
    let item = &draft.item;
    assert_eq!(item.uid.as_deref(), Some("R9"));
    assert_eq!(item.name.as_deref(), Some("Remote File"));
    assert_eq!(item.url.as_deref(), Some("https://s.example/sub"));
    let o = item.option.as_ref().unwrap();
    assert_eq!(o.allow_auto_update, Some(true));
    assert_eq!(o.encrypted_subscription, Some(true));
    assert_eq!(o.subscription_uuid.as_deref(), Some("uuid-1"));
    assert_eq!(o.update_interval, Some(60));
    assert_eq!(draft.missing().len(), 5);
}

#[test]
fn encrypted_cache_must_hold_a_profile() {
    let cache = EncryptedSubscriptionCache {
        url: "u".to_string(),
        ciphertext: "c".to_string(),
        name: Some("n".to_string()),
        extra: None,
        update_interval: None,
        home: None,
    };
    let err = PrfItem::from_encrypted_cache(&cache, "rules: []".to_string(), "u", "1").unwrap_err();
    assert!(matches!(err, PrfError::NoProxies));
    let err = PrfItem::from_encrypted_cache(&cache, "- a\n- b".to_string(), "u", "1").unwrap_err();
    assert_eq!(err.message(), "the decrypted subscription data is invalid yaml");
    let ok = PrfItem::from_encrypted_cache(&cache, "proxy-providers: {}".to_string(), "u", "1").unwrap();
    assert_eq!(ok.item.name.as_deref(), Some("n"));
}

#[test]
fn plain_content_is_kept_unchanged() {
    assert_eq!(PrfItem::decrypt_data_if_needed("abc", false, false, None).unwrap(), "abc");
    let err = PrfItem::decrypt_data_if_needed("abc", true, false, None).unwrap_err();
    assert!(matches!(err, PrfError::EncryptedWithoutUuid));
    let err = PrfItem::decrypt_data_if_needed("abc", false, true, None).unwrap_err();
    assert!(matches!(err, PrfError::EnabledWithoutUuid));
    let uuid = "u".to_string();
    let err = PrfItem::decrypt_data_if_needed("YWJjZA==", false, true, Some(&uuid)).unwrap_err();
    assert!(matches!(err, PrfError::EnabledDecrypt(DecryptError::TooShort { .. })));
    let err = PrfItem::decrypt_data_if_needed("!!", true, true, Some(&uuid)).unwrap_err();
    assert!(matches!(err, PrfError::ServerDecrypt(DecryptError::InvalidBase64)));
}

#[test]
fn fetch_request_follows_the_options() {
    let req = PrfItem::fetch_request("https://x", None);
    assert_eq!(req.proxy_type, ProxyType::Direct);
    assert_eq!(req.timeout_seconds, 60);
    assert!(!req.accept_invalid_certs);
    let mut o = option();
    o.with_proxy = Some(true);
    o.self_proxy = Some(true);
    o.timeout_seconds = Some(7);
    o.danger_accept_invalid_certs = Some(true);
    o.user_agent = Some("ua".to_string());
    let req = PrfItem::fetch_request("https://x", Some(&o));
    assert_eq!(req.proxy_type, ProxyType::Localhost);
    assert_eq!(req.timeout_seconds, 7);
    assert!(req.accept_invalid_certs);
    assert_eq!(req.user_agent.as_deref(), Some("ua"));
    o.self_proxy = None;
    assert_eq!(PrfItem::fetch_request("https://x", Some(&o)).proxy_type, ProxyType::System);
}

fn headers(pairs: &[(&str, &str)]) -> HeaderMap {
    let mut h = HeaderMap::new();
    for (k, v) in pairs {
        h.append(reqwest::header::HeaderName::from_bytes(k.as_bytes()).unwrap(), v.parse().unwrap());
    }
    h
}

#[test]
fn remote_profile_from_response() {
    let h = headers(&[
        ("x-amz-meta-subscription-userinfo", "upload=100; download=200; total=1000; expire=1700000000"),
        ("content-disposition", "attachment; filename*=UTF-8''%E8%AE%A2%E9%98%85.yaml"),
        ("profile-update-interval", "12"),
        ("profile-web-page-url", "https://home.example"),
    ]);
    let body = format!("\u{feff}{PROFILE}");
    let draft = PrfItem::from_url("https://s.example/api/sub?token=1", None, None, None, 200, &h, &body, "abc").unwrap();
    let item = &draft.item;
    assert_eq!(item.uid.as_deref(), Some("Rabc"));
    assert_eq!(item.file.as_deref(), Some("Rabc.yaml"));
    assert_eq!(item.itype.as_deref(), Some("remote"));
    assert_eq!(item.name.as_deref(), Some("订阅.yaml"));
    assert_eq!(item.extra, Some(PrfExtra { upload: 100, download: 200, total: 1000, expire: 1700000000 }));
    assert_eq!(item.home.as_deref(), Some("https://home.example"));
    assert_eq!(item.file_data.as_deref(), Some(PROFILE));
    let o = item.option.as_ref().unwrap();
    assert_eq!(o.update_interval, Some(720));
    assert_eq!(o.allow_auto_update, None);
    assert_eq!(draft.missing().len(), 5);
}

#[test]
fn remote_profile_names_and_defaults() {
    let h = headers(&[("Content-Disposition", "attachment; filename=\"clash.yaml\"")]);
    let name = "given".to_string();
    let mut o = option();
    o.update_interval = Some(5);
    o.subscription_uuid = Some("   ".to_string());
    let draft = PrfItem::from_url("https://s/x.yaml", Some(&name), None, Some(&o), 204, &h, PROFILE, "1").unwrap();
    assert_eq!(draft.item.name.as_deref(), Some("given"));
    let opt = draft.item.option.as_ref().unwrap();
    assert_eq!(opt.update_interval, Some(5));
    assert_eq!(opt.allow_auto_update, Some(true));
    assert_eq!(opt.subscription_uuid, None);
    assert_eq!(opt.encrypted_subscription, None);
    let draft = PrfItem::from_url("https://s/x.yaml", None, None, None, 200, &h, PROFILE, "1").unwrap();
    // the debug form keeps the escape before the closing quote
    assert_eq!(draft.item.name.as_deref(), Some("\\\"clash.yaml\\"));
    let none = HeaderMap::new();
    let draft = PrfItem::from_url("https://s/dir/my%20sub.yaml?t=1", None, None, None, 200, &none, PROFILE, "1").unwrap();
    assert_eq!(draft.item.name.as_deref(), Some("my sub.yaml"));
    assert_eq!(draft.item.extra, None);
    assert_eq!(draft.item.home, None);
}

#[test]
fn remote_profile_refusals() {
    let none = HeaderMap::new();
    let err = PrfItem::from_url("u", None, None, None, 404, &none, PROFILE, "1").unwrap_err();
    assert!(matches!(err, PrfError::BadStatus(404)));
    assert_eq!(err.message(), "failed to fetch remote profile with status 404 Not Found");
    let err = PrfItem::from_url("u", None, None, None, 200, &none, "rules: []", "1").unwrap_err();
    assert!(matches!(err, PrfError::NoProxies));
    let err = PrfItem::from_url("u", None, None, None, 200, &none, "[1, 2", "1").unwrap_err();
    assert_eq!(err.message(), "the remote profile data is invalid yaml");
}

#[test]
fn encrypted_response_without_uuid_is_kept() {
    let h = headers(&[("X-Encrypted", "1"), ("subscription-userinfo", "upload=1")]);
    let err = PrfItem::from_url("https://s/sub", None, None, None, 200, &h, "\u{feff}CIPHER", "1").unwrap_err();
    match err {
        PrfError::EncryptedCache(cache) => {
            assert_eq!(cache.url, "https://s/sub");
            assert_eq!(cache.ciphertext, "CIPHER");
            assert_eq!(cache.name.as_deref(), Some("sub"));
            assert_eq!(cache.extra, Some(PrfExtra { upload: 1, download: 0, total: 0, expire: 0 }));
        }
        other => panic!("unexpected {:?}", other),
    }
}

#[test]
fn encrypted_response_with_bad_uuid_fails() {
    let h = headers(&[("X-Encrypted", "1")]);
    let mut o = option();
    o.subscription_uuid = Some(" u ".to_string());
    let err = PrfItem::from_url("https://s/sub", None, None, Some(&o), 200, &h, "YWJjZA==", "1").unwrap_err();
    assert!(matches!(err, PrfError::ServerDecrypt(DecryptError::TooShort { expected: 28, actual: 4 })));
    assert_eq!(err.message(), "Failed to decrypt subscription. Please verify UUID is correct.");
}

#[test]
fn last_part_of_url_is_decoded() {
    assert_eq!(get_last_part_and_decode("https://a.com/path/My%20Sub.yaml?token=1").as_deref(), Some("My Sub.yaml"));
    assert_eq!(get_last_part_and_decode("https://a.com/").as_deref(), Some(""));
    assert_eq!(get_last_part_and_decode("plain").as_deref(), Some("plain"));
    assert_eq!(get_last_part_and_decode("https://a.com/%FF"), None);
}

#[test]
fn profile_file_needs_a_file() {
    let mut item = PrfItem::default();
    let err = item.profile_file().unwrap_err();
    assert_eq!(err.message(), "could not find the file");
    item.file = Some("a.yaml".to_string());
    assert_eq!(item.profile_file().unwrap(), "a.yaml");
}

#[test]
fn merge_with_itself_or_empty_changes_nothing() {
    let mut a = option();
    a.proxies = Some("p".to_string());
    a.danger_accept_invalid_certs = Some(false);
    a.subscription_uuid = Some("u".to_string());
    assert_eq!(PrfOption::merge(Some(&a), Some(&a)).unwrap(), a);
    let empty = PrfOption::default();
    assert_eq!(PrfOption::merge(Some(&a), Some(&empty)).unwrap(), a);
    assert_eq!(PrfOption::merge(Some(&empty), Some(&a)).unwrap(), a);
}

#[test]
fn error_messages() {
    assert_eq!(
        PrfError::EncryptedWithoutUuid.message(),
        "Encrypted subscription detected (X-Encrypted: 1), but no UUID provided. Please enable 'Encrypted Subscription' and enter your UUID."
    );
    assert_eq!(
        PrfError::EnabledWithoutUuid.message(),
        "Encrypted subscription is enabled, but no UUID provided. Please enter your UUID."
    );
    assert_eq!(
        PrfError::EnabledDecrypt(DecryptError::DecryptionFailed).message(),
        "Failed to decrypt subscription. If your subscription is plaintext, disable encrypted subscription, clear the UUID, and refresh."
    );
    assert_eq!(PrfError::NoProxies.message(), "profile does not contain `proxies` or `proxy-providers`");
    assert_eq!(DecryptError::InvalidUtf8.message(), "Failed to convert decrypted content to UTF-8");
}

#[test]
fn userinfo_figures_that_do_not_read_are_zero() {
    let h = headers(&[("Subscription-Userinfo", "upload=; download=x; total=+5; expire=18446744073709551616; total=9")]);
    let draft = PrfItem::from_url("https://s/sub", None, None, None, 200, &h, PROFILE, "1").unwrap();
    assert_eq!(draft.item.extra, Some(PrfExtra { upload: 0, download: 0, total: 5, expire: 0 }));
}

#[test]
fn plain_subscription_with_decryption_enabled_fails() {
    let none = HeaderMap::new();
    let mut o = option();
    o.encrypted_subscription = Some(true);
    let err = PrfItem::from_url("https://s/sub", None, None, Some(&o), 200, &none, PROFILE, "1").unwrap_err();
    assert!(matches!(err, PrfError::EnabledWithoutUuid));
    o.subscription_uuid = Some("uuid".to_string());
    let err = PrfItem::from_url("https://s/sub", None, None, Some(&o), 200, &none, PROFILE, "1").unwrap_err();
    assert!(matches!(err, PrfError::EnabledDecrypt(_)));
}

#[test]
fn percent_decoding_keeps_what_is_not_an_escape() {
    assert_eq!(get_last_part_and_decode("https://a.com/%41%zz%4").as_deref(), Some("A%zz%4"));
    assert_eq!(get_last_part_and_decode("https://a.com/x%2fy%2Fz").as_deref(), Some("x/y/z"));
}

#[test]
fn content_disposition_with_escaped_bytes() {
    let mut h = HeaderMap::new();
    h.insert(
        "content-disposition",
        reqwest::header::HeaderValue::from_bytes(b"attachment; filename=a\xe9b.yaml").unwrap(),
    );
    let draft = PrfItem::from_url("https://s/sub", None, None, None, 200, &h, PROFILE, "1").unwrap();
    assert_eq!(draft.item.name.as_deref(), Some("a\\xe9b.yaml"));
}

#[test]
fn failed_status_message_has_the_reason_phrase() {
    assert_eq!(PrfError::BadStatus(404).message(), "failed to fetch remote profile with status 404 Not Found");
    assert_eq!(PrfError::BadStatus(503).message(), "failed to fetch remote profile with status 503 Service Unavailable");
    assert_eq!(PrfError::BadStatus(599).message(), "failed to fetch remote profile with status 599 <unknown status code>");
    assert!(PrfItem::check_status(204).is_ok());
    assert!(matches!(PrfItem::check_status(301), Err(PrfError::BadStatus(301))));
}
