//! Where profiles come from: partial items, local files, subscription servers, and
//! kept encrypted subscriptions.

use reqwest::header::HeaderMap;
use serde_yaml_ng::Mapping;
use vstd::prelude::*;
use crate::enhance::{
    file_name, new_uid, no_refs, refs_of, EnhanceRefs, EnhanceRefsView, ProfileDraft, Templates,
};
use crate::headers::{first_field_named, header_map_fields, is_encrypted_response, says_encrypted};
use crate::prfitem::{
    clone_opt, empty_option, option_view, ov, owned_option_view, EncryptedSubscriptionCache,
    EncryptedSubscriptionCacheView, PrfError, PrfErrorView, PrfExtra, PrfItem, PrfItemView,
    PrfOption, PrfOptionView,
};
use crate::response::{
    content_disposition_file_name, disposition_file_name, header_home, header_update_interval,
    home_header, strip_start_char, strip_start_char_exec, subscription_extra,
    update_interval_header, userinfo_extra,
};
use crate::subscription_decrypt::{decrypt_subscription, decrypted_subscription};
use crate::text::{chars_of, string_of, trim, trimmed};

verus! {

#[verifier::external_type_specification]
#[verifier::external_body]
pub struct ExMapping(Mapping);

#[verifier::external_type_specification]
#[verifier::external_body]
pub struct ExYamlError(serde_yaml_ng::Error);

/// The string keys of a YAML mapping.
pub uninterp spec fn yaml_mapping_keys(m: Mapping) -> Set<Seq<char>>;

/// The string keys of the YAML mapping that `text` is, or none where `text` is not a
/// YAML mapping.
pub uninterp spec fn yaml_mapping_keys_of(text: Seq<char>) -> Option<Set<Seq<char>>>;

/// `serde_yaml_ng::from_str::<Mapping>(text)`: a mapping whose string keys are named by
/// `yaml_mapping_keys_of`, or the YAML error where that is none.
#[verifier::external_body]
fn parse_yaml_mapping(text: &str) -> (res: Result<Mapping, serde_yaml_ng::Error>)
    ensures
        res is Ok <==> yaml_mapping_keys_of(text@) is Some,
        res matches Ok(m) ==> yaml_mapping_keys_of(text@) == Some(yaml_mapping_keys(m)),
{
    serde_yaml_ng::from_str::<Mapping>(text)
}

/// `Mapping::contains_key` with a string: whether one of the keys is that string.
#[verifier::external_body]
fn mapping_contains_key(m: &Mapping, key: &str) -> (res: bool)
    ensures
        res == yaml_mapping_keys(*m).contains(key@),
{
    m.contains_key(key)
}

/// What is wrong with profile text `text`, if anything: not being a YAML mapping
/// (`invalid`), or having neither `proxies` nor `proxy-providers`.
pub open spec fn profile_text_problem(text: Seq<char>, invalid: PrfErrorView) -> Option<PrfErrorView> {
    match yaml_mapping_keys_of(text) {
        None => Some(invalid),
        Some(keys) => if keys.contains("proxies"@) || keys.contains("proxy-providers"@) {
            None
        } else {
            Some(PrfErrorView::NoProxies)
        },
    }
}

/// Checks that `text` is a profile: a YAML mapping with `proxies` or `proxy-providers`.
fn check_profile_text(text: &str, decrypted: bool) -> (res: Result<(), PrfError>)
    ensures
        match res {
            Ok(()) => profile_text_problem(
                text@,
                if decrypted { PrfErrorView::InvalidDecryptedYaml } else { PrfErrorView::InvalidRemoteYaml },
            ) is None,
            Err(e) => profile_text_problem(
                text@,
                if decrypted { PrfErrorView::InvalidDecryptedYaml } else { PrfErrorView::InvalidRemoteYaml },
            ) == Some(e@),
        },
{
    let yaml = match parse_yaml_mapping(text) {
        Ok(m) => m,
        Err(_) => {
            return Err(if decrypted { PrfError::InvalidDecryptedYaml } else { PrfError::InvalidRemoteYaml });
        },
    };
    if !mapping_contains_key(&yaml, "proxies") && !mapping_contains_key(&yaml, "proxy-providers") {
        return Err(PrfError::NoProxies);
    }
    Ok(())
}

/// What the content of a remote profile becomes: decrypted when the server says it is
/// encrypted or the user enabled encrypted subscriptions, which both need a UUID; as it
/// is otherwise.
pub open spec fn content_after_decryption(
    data: Seq<char>,
    is_encrypted: bool,
    encrypted_subscription: bool,
    uuid: Option<Seq<char>>,
) -> Result<Seq<char>, PrfErrorView> {
    if is_encrypted {
        match uuid {
            None => Err(PrfErrorView::EncryptedWithoutUuid),
            Some(u) => match decrypted_subscription(data, u) {
                Ok(plain) => Ok(plain),
                Err(e) => Err(PrfErrorView::ServerDecrypt(e)),
            },
        }
    } else if encrypted_subscription {
        match uuid {
            None => Err(PrfErrorView::EnabledWithoutUuid),
            Some(u) => match decrypted_subscription(data, u) {
                Ok(plain) => Ok(plain),
                Err(e) => Err(PrfErrorView::EnabledDecrypt(e)),
            },
        }
    } else {
        Ok(data)
    }
}

impl PrfItem {
    /// Decrypts the content of a remote profile where that is called for.
    pub fn decrypt_data_if_needed(
        data: &str,
        is_encrypted: bool,
        encrypted_subscription: bool,
        subscription_uuid: Option<&String>,
    ) -> (res: Result<String, PrfError>)
        ensures
            match res {
                Ok(s) => content_after_decryption(
                    data@,
                    is_encrypted,
                    encrypted_subscription,
                    match subscription_uuid { Some(u) => Some(u@), None => None },
                ) == Ok::<Seq<char>, PrfErrorView>(s@),
                Err(e) => content_after_decryption(
                    data@,
                    is_encrypted,
                    encrypted_subscription,
                    match subscription_uuid { Some(u) => Some(u@), None => None },
                ) == Err::<Seq<char>, PrfErrorView>(e@),
            },
    {
        if is_encrypted {
            let uuid = match subscription_uuid {
                Some(u) => u,
                None => {
                    return Err(PrfError::EncryptedWithoutUuid);
                },
            };
            match decrypt_subscription(data, uuid.as_str()) {
                Ok(plain) => Ok(plain),
                Err(e) => Err(PrfError::ServerDecrypt(e)),
            }
        } else if encrypted_subscription {
            let uuid = match subscription_uuid {
                Some(u) => u,
                None => {
                    return Err(PrfError::EnabledWithoutUuid);
                },
            };
            match decrypt_subscription(data, uuid.as_str()) {
                Ok(plain) => Ok(plain),
                Err(e) => Err(PrfError::EnabledDecrypt(e)),
            }
        } else {
            Ok(String::from_str(data))
        }
    }
}

/// Where the content of a new profile comes from.
#[derive(Debug)]
pub enum ItemSource {
    /// fetched from `url`
    Remote { url: String, name: Option<String>, desc: Option<String>, option: Option<PrfOption> },
    /// given by the user, or the local template
    Local { name: String, desc: String, file_data: Option<String>, option: Option<PrfOption> },
}

/// The value of an `ItemSource`.
pub enum ItemSourceView {
    Remote {
        url: Seq<char>,
        name: Option<Seq<char>>,
        desc: Option<Seq<char>>,
        option: Option<PrfOptionView>,
    },
    Local {
        name: Seq<char>,
        desc: Seq<char>,
        file_data: Option<Seq<char>>,
        option: Option<PrfOptionView>,
    },
}

impl View for ItemSource {
    type V = ItemSourceView;

    open spec fn view(&self) -> ItemSourceView {
        match self {
            ItemSource::Remote { url, name, desc, option } => ItemSourceView::Remote {
                url: url@,
                name: ov(*name),
                desc: ov(*desc),
                option: owned_option_view(*option),
            },
            ItemSource::Local { name, desc, file_data, option } => ItemSourceView::Local {
                name: name@,
                desc: desc@,
                file_data: ov(*file_data),
                option: owned_option_view(*option),
            },
        }
    }
}

/// `o`, or `d` where it is none.
pub open spec fn or_default(o: Option<Seq<char>>, d: Seq<char>) -> Seq<char> {
    match o {
        Some(x) => x,
        None => d,
    }
}

/// Where the content of the profile that the partial item `item` describes comes from:
/// a `remote` item needs a URL; a `local` item is named `Local File` and has an empty
/// description unless it has its own; other types are refused.
pub open spec fn item_source(item: PrfItemView, file_data: Option<Seq<char>>) -> Result<
    ItemSourceView,
    PrfErrorView,
> {
    match item.itype {
        None => Err(PrfErrorView::MissingType),
        Some(t) => if t == "remote"@ {
            match item.url {
                None => Err(PrfErrorView::MissingUrl),
                Some(u) => Ok(
                    ItemSourceView::Remote {
                        url: u,
                        name: item.name,
                        desc: item.desc,
                        option: item.option,
                    },
                ),
            }
        } else if t == "local"@ {
            Ok(
                ItemSourceView::Local {
                    name: or_default(item.name, "Local File"@),
                    desc: or_default(item.desc, ""@),
                    file_data,
                    option: item.option,
                },
            )
        } else {
            Err(PrfErrorView::InvalidType(t))
        },
    }
}

/// A copy of an optional options value.
fn duplicate_opt(o: &Option<PrfOption>) -> (res: Option<PrfOption>)
    ensures
        owned_option_view(res) == owned_option_view(*o),
{
    match o {
        Some(x) => Some(x.duplicate()),
        None => None,
    }
}

/// The update interval that options `option` set.
pub open spec fn option_update_interval(option: Option<PrfOptionView>) -> Option<u64> {
    match option {
        Some(o) => o.update_interval,
        None => None,
    }
}

/// A new local profile: uid `L` and `fresh_id`, its file data or the local template.
pub open spec fn local_draft(
    name: Seq<char>,
    desc: Seq<char>,
    file_data: Option<Seq<char>>,
    option: Option<PrfOptionView>,
    fresh_id: Seq<char>,
    templates: Templates,
) -> (PrfItemView, EnhanceRefsView) {
    let uid = "L"@ + fresh_id;
    (
        PrfItemView {
            uid: Some(uid),
            itype: Some("local"@),
            name: Some(name),
            file: Some(uid + ".yaml"@),
            desc: Some(desc),
            url: None,
            selected: None,
            extra: None,
            updated: None,
            option: Some(
                PrfOptionView { update_interval: option_update_interval(option), ..empty_option() },
            ),
            home: None,
            file_data: Some(or_default(file_data, templates.local@)),
        },
        refs_of(option),
    )
}

/// A remote profile made from a kept encrypted subscription, once decrypted with
/// `uuid`: named as the response suggested or `Remote File`, updated automatically, and
/// referring to enhancement items all to be created.
pub open spec fn cache_draft(
    cache: EncryptedSubscriptionCacheView,
    decrypted: Seq<char>,
    uuid: Seq<char>,
    fresh_id: Seq<char>,
) -> (PrfItemView, EnhanceRefsView) {
    let uid = "R"@ + fresh_id;
    (
        PrfItemView {
            uid: Some(uid),
            itype: Some("remote"@),
            name: Some(or_default(cache.name, "Remote File"@)),
            file: Some(uid + ".yaml"@),
            desc: None,
            url: Some(cache.url),
            selected: None,
            extra: cache.extra,
            updated: None,
            option: Some(
                PrfOptionView {
                    update_interval: cache.update_interval,
                    allow_auto_update: Some(true),
                    encrypted_subscription: Some(true),
                    subscription_uuid: Some(uuid),
                    ..empty_option()
                },
            ),
            home: cache.home,
            file_data: Some(decrypted),
        },
        no_refs(),
    )
}

impl PrfItem {
    /// Where the content of the profile that the partial item `item` describes comes
    /// from; the item must have a type.
    pub fn from(item: &Self, file_data: Option<String>) -> (res: Result<ItemSource, PrfError>)
        ensures
            match res {
                Ok(s) => item_source(item@, ov(file_data)) == Ok::<ItemSourceView, PrfErrorView>(s@),
                Err(e) => item_source(item@, ov(file_data)) == Err::<ItemSourceView, PrfErrorView>(e@),
            },
    {
        let itype = match &item.itype {
            Some(t) => t,
            None => {
                return Err(PrfError::MissingType);
            },
        };
        if *itype == String::from_str("remote") {
            match &item.url {
                Some(url) => Ok(
                    ItemSource::Remote {
                        url: url.clone(),
                        name: clone_opt(&item.name),
                        desc: clone_opt(&item.desc),
                        option: duplicate_opt(&item.option),
                    },
                ),
                None => Err(PrfError::MissingUrl),
            }
        } else if *itype == String::from_str("local") {
            let name = match &item.name {
                Some(n) => n.clone(),
                None => String::from_str("Local File"),
            };
            let desc = match &item.desc {
                Some(d) => d.clone(),
                None => String::from_str(""),
            };
            Ok(ItemSource::Local { name, desc, file_data, option: duplicate_opt(&item.option) })
        } else {
            Err(PrfError::InvalidType(itype.clone()))
        }
    }

    /// A new local profile, named `name`, described by `desc`, holding `file_data` or
    /// else the local template.
    pub fn from_local(
        name: String,
        desc: String,
        file_data: Option<String>,
        option: Option<&PrfOption>,
        fresh_id: &str,
        templates: &Templates,
    ) -> (res: Result<ProfileDraft, PrfError>)
        ensures
            res matches Ok(d) && (d.item@, d.refs@) == local_draft(
                name@,
                desc@,
                ov(file_data),
                option_view(option),
                fresh_id@,
                *templates,
            ),
    {
        let uid = new_uid("L", fresh_id);
        let file = file_name(&uid, ".yaml");
        let update_interval = match option {
            Some(o) => o.update_interval,
            None => None,
        };
        let mut opt = PrfOption::empty();
        opt.update_interval = update_interval;
        let data = match file_data {
            Some(d) => d,
            None => templates.local.clone(),
        };
        let item = PrfItem {
            uid: Some(uid),
            itype: Some(String::from_str("local")),
            name: Some(name),
            desc: Some(desc),
            file: Some(file),
            url: None,
            selected: None,
            extra: None,
            option: Some(opt),
            home: None,
            updated: None,
            file_data: Some(data),
        };
        Ok(ProfileDraft { item, refs: EnhanceRefs::from_option(option) })
    }

    /// A remote profile from a kept encrypted subscription and its decryption with
    /// `uuid`, which must be a profile.
    pub fn from_encrypted_cache(
        cache: &EncryptedSubscriptionCache,
        decrypted_data: String,
        uuid: &str,
        fresh_id: &str,
    ) -> (res: Result<ProfileDraft, PrfError>)
        ensures
            match res {
                Ok(d) => profile_text_problem(decrypted_data@, PrfErrorView::InvalidDecryptedYaml)
                    is None && (d.item@, d.refs@) == cache_draft(
                    cache@,
                    decrypted_data@,
                    uuid@,
                    fresh_id@,
                ),
                Err(e) => profile_text_problem(decrypted_data@, PrfErrorView::InvalidDecryptedYaml)
                    == Some(e@),
            },
    {
        match check_profile_text(decrypted_data.as_str(), true) {
            Ok(()) => {},
            Err(e) => {
                return Err(e);
            },
        }
        let uid = new_uid("R", fresh_id);
        let file = file_name(&uid, ".yaml");
        let name = match &cache.name {
            Some(n) => n.clone(),
            None => String::from_str("Remote File"),
        };
        let mut opt = PrfOption::empty();
        opt.update_interval = cache.update_interval;
        opt.allow_auto_update = Some(true);
        opt.encrypted_subscription = Some(true);
        opt.subscription_uuid = Some(String::from_str(uuid));
        let item = PrfItem {
            uid: Some(uid),
            itype: Some(String::from_str("remote")),
            name: Some(name),
            desc: None,
            file: Some(file),
            url: Some(cache.url.clone()),
            selected: None,
            extra: cache.extra,
            option: Some(opt),
            home: clone_opt(&cache.home),
            updated: None,
            file_data: Some(decrypted_data),
        };
        Ok(ProfileDraft { item, refs: EnhanceRefs::none() })
    }
}

/// The proxy through which a remote profile is fetched.
#[derive(Debug, Clone, Copy, PartialEq, Eq, Structural)]
pub enum ProxyType {
    /// a direct connection
    Direct,
    /// the client's own proxy
    Localhost,
    /// the system proxy
    System,
}

/// How to fetch a remote profile.
#[derive(Debug)]
pub struct RemoteRequest {
    pub url: String,
    pub proxy_type: ProxyType,
    /// the request's timeout, in seconds
    pub timeout_seconds: u64,
    pub user_agent: Option<String>,
    pub accept_invalid_certs: bool,
}

/// The flag an option sets, false where it sets none.
pub open spec fn flag_of(option: Option<PrfOptionView>, pick: spec_fn(PrfOptionView) -> Option<bool>) -> bool {
    match option {
        Some(o) => match pick(o) {
            Some(b) => b,
            None => false,
        },
        None => false,
    }
}

/// The proxy that options `option` choose: the client's own where `self_proxy` is set,
/// else the system's where `with_proxy` is set, else none.
pub open spec fn chosen_proxy(option: Option<PrfOptionView>) -> ProxyType {
    if flag_of(option, |o: PrfOptionView| o.self_proxy) {
        ProxyType::Localhost
    } else if flag_of(option, |o: PrfOptionView| o.with_proxy) {
        ProxyType::System
    } else {
        ProxyType::Direct
    }
}

/// The request timeout that options `option` set, 60 seconds by default.
pub open spec fn chosen_timeout(option: Option<PrfOptionView>) -> u64 {
    match option {
        Some(o) => match o.timeout_seconds {
            Some(t) => t,
            None => 60,
        },
        None => 60,
    }
}

/// The UUID that options `option` give, trimmed; none where it is blank.
pub open spec fn clean_uuid(option: Option<PrfOptionView>) -> Option<Seq<char>> {
    match option {
        Some(o) => match o.subscription_uuid {
            Some(u) => if trim(u).len() > 0 {
                Some(trim(u))
            } else {
                None
            },
            None => None,
        },
        None => None,
    }
}

/// Whether options `option` allow automatic updates: true unless set otherwise; none
/// without options.
pub open spec fn auto_update_of(option: Option<PrfOptionView>) -> Option<bool> {
    match option {
        Some(o) => Some(
            match o.allow_auto_update {
                Some(b) => b,
                None => true,
            },
        ),
        None => None,
    }
}

/// The successful HTTP statuses.
pub open spec fn is_success_status(status: u16) -> bool {
    200 <= status <= 299
}

/// Whether `status` is a successful HTTP status.
pub fn status_is_success(status: u16) -> (res: bool)
    ensures
        res == is_success_status(status),
{
    200 <= status && status <= 299
}

impl PrfItem {
    /// Refuses a response whose status is not successful.
    pub fn check_status(status: u16) -> (res: Result<(), PrfError>)
        ensures
            res is Ok <==> is_success_status(status),
            res matches Err(e) ==> e@ == PrfErrorView::BadStatus(status),
    {
        if status_is_success(status) {
            Ok(())
        } else {
            Err(PrfError::BadStatus(status))
        }
    }
}

/// The header facts of a remote profile's response.
pub struct RemoteFacts {
    pub extra: Option<PrfExtra>,
    pub file_name: Option<Seq<char>>,
    pub update_interval: Option<u64>,
    pub home: Option<Seq<char>>,
    pub is_encrypted: bool,
}

/// What response headers `fields` of the response to `url` say, with options `option`.
pub open spec fn remote_facts(
    url: Seq<char>,
    option: Option<PrfOptionView>,
    fields: Seq<(Seq<char>, Seq<u8>, bool)>,
) -> RemoteFacts {
    RemoteFacts {
        extra: subscription_extra(fields),
        file_name: disposition_file_name(first_field_named(fields, "content-disposition"@), url),
        update_interval: match option_update_interval(option) {
            Some(v) => Some(v),
            None => header_update_interval(fields),
        },
        home: header_home(fields),
        is_encrypted: says_encrypted(fields),
    }
}

/// The remote profile that the response to `url` (status `status`, headers `fields`,
/// text `body`) makes. A failed status is refused. The name is `name`, else the one the
/// response suggests, else `Remote File`. A byte order mark is dropped from the text.
/// Encrypted content without a UUID is handed back to be kept; content is decrypted
/// where called for and must then be a profile.
pub open spec fn remote_draft(
    url: Seq<char>,
    name: Option<Seq<char>>,
    desc: Option<Seq<char>>,
    option: Option<PrfOptionView>,
    status: u16,
    fields: Seq<(Seq<char>, Seq<u8>, bool)>,
    body: Seq<char>,
    fresh_id: Seq<char>,
) -> Result<(PrfItemView, EnhanceRefsView), PrfErrorView> {
    if !is_success_status(status) {
        Err(PrfErrorView::BadStatus(status))
    } else {
        let facts = remote_facts(url, option, fields);
        let uid = "R"@ + fresh_id;
        let profile_name = match name {
            Some(n) => n,
            None => or_default(facts.file_name, "Remote File"@),
        };
        let uuid = clean_uuid(option);
        let encrypted_subscription = flag_of(option, |o: PrfOptionView| o.encrypted_subscription);
        let data = strip_start_char(body, '\u{feff}');
        if facts.is_encrypted && uuid is None {
            Err(
                PrfErrorView::EncryptedCache(
                    EncryptedSubscriptionCacheView {
                        url,
                        ciphertext: data,
                        name: Some(profile_name),
                        extra: facts.extra,
                        update_interval: facts.update_interval,
                        home: facts.home,
                    },
                ),
            )
        } else {
            match content_after_decryption(data, facts.is_encrypted, encrypted_subscription, uuid) {
                Err(e) => Err(e),
                Ok(plain) => match profile_text_problem(plain, PrfErrorView::InvalidRemoteYaml) {
                    Some(e) => Err(e),
                    None => Ok(
                        (
                            PrfItemView {
                                uid: Some(uid),
                                itype: Some("remote"@),
                                name: Some(profile_name),
                                file: Some(uid + ".yaml"@),
                                desc,
                                url: Some(url),
                                selected: None,
                                extra: facts.extra,
                                updated: None,
                                option: Some(
                                    PrfOptionView {
                                        update_interval: facts.update_interval,
                                        allow_auto_update: auto_update_of(option),
                                        encrypted_subscription: if encrypted_subscription {
                                            Some(true)
                                        } else {
                                            None
                                        },
                                        subscription_uuid: uuid,
                                        ..empty_option()
                                    },
                                ),
                                home: facts.home,
                                file_data: Some(plain),
                            },
                            refs_of(option),
                        ),
                    ),
                },
            }
        }
    }
}

fn flag_exec(o: Option<bool>) -> (res: bool)
    ensures
        res == match o {
            Some(b) => b,
            None => false,
        },
{
    match o {
        Some(b) => b,
        None => false,
    }
}

impl PrfItem {
    /// How to fetch the remote profile at `url` with options `option`.
    pub fn fetch_request(url: &str, option: Option<&PrfOption>) -> (res: RemoteRequest)
        ensures
            res.url@ == url@,
            res.proxy_type == chosen_proxy(option_view(option)),
            res.timeout_seconds == chosen_timeout(option_view(option)),
            ov(res.user_agent) == match option_view(option) {
                Some(o) => o.user_agent,
                None => None,
            },
            res.accept_invalid_certs == flag_of(
                option_view(option),
                |o: PrfOptionView| o.danger_accept_invalid_certs,
            ),
    {
        let (with_proxy, self_proxy, accept_invalid_certs, user_agent, timeout) = match option {
            Some(o) => (
                flag_exec(o.with_proxy),
                flag_exec(o.self_proxy),
                flag_exec(o.danger_accept_invalid_certs),
                clone_opt(&o.user_agent),
                match o.timeout_seconds {
                    Some(t) => t,
                    None => 60,
                },
            ),
            None => (false, false, false, None, 60),
        };
        let proxy_type = if self_proxy {
            ProxyType::Localhost
        } else if with_proxy {
            ProxyType::System
        } else {
            ProxyType::Direct
        };
        RemoteRequest {
            url: String::from_str(url),
            proxy_type,
            timeout_seconds: timeout,
            user_agent,
            accept_invalid_certs,
        }
    }

    /// The remote profile that the response to `url` makes: status `status`, headers
    /// `headers`, text `body`; `name`, `desc` and `option` as the user gave them.
    pub fn from_url(
        url: &str,
        name: Option<&String>,
        desc: Option<&String>,
        option: Option<&PrfOption>,
        status: u16,
        headers: &HeaderMap,
        body: &str,
        fresh_id: &str,
    ) -> (res: Result<ProfileDraft, PrfError>)
        ensures
            match res {
                Ok(d) => remote_draft(
                    url@,
                    match name { Some(n) => Some(n@), None => None },
                    match desc { Some(d) => Some(d@), None => None },
                    option_view(option),
                    status,
                    header_map_fields(*headers),
                    body@,
                    fresh_id@,
                ) == Ok::<(PrfItemView, EnhanceRefsView), PrfErrorView>((d.item@, d.refs@)),
                Err(e) => remote_draft(
                    url@,
                    match name { Some(n) => Some(n@), None => None },
                    match desc { Some(d) => Some(d@), None => None },
                    option_view(option),
                    status,
                    header_map_fields(*headers),
                    body@,
                    fresh_id@,
                ) == Err::<(PrfItemView, EnhanceRefsView), PrfErrorView>(e@),
            },
    {
        match Self::check_status(status) {
            Ok(()) => {},
            Err(e) => {
                return Err(e);
            },
        }
        let encrypted_subscription = match option {
            Some(o) => flag_exec(o.encrypted_subscription),
            None => false,
        };
        let allow_auto_update = match option {
            Some(o) => Some(
                match o.allow_auto_update {
                    Some(b) => b,
                    None => true,
                },
            ),
            None => None,
        };
        let subscription_uuid: Option<String> = match option {
            Some(o) => match &o.subscription_uuid {
                Some(u) => {
                    let t = trimmed(u.as_str());
                    if t.as_str().is_empty() {
                        None
                    } else {
                        Some(t)
                    }
                },
                None => None,
            },
            None => None,
        };
        // what the headers say
        let extra = userinfo_extra(headers);
        let suggested = content_disposition_file_name(headers, url);
        let update_interval = match option {
            Some(o) => match o.update_interval {
                Some(v) => Some(v),
                None => update_interval_header(headers),
            },
            None => update_interval_header(headers),
        };
        let home = home_header(headers);
        let uid = new_uid("R", fresh_id);
        let file = file_name(&uid, ".yaml");
        let profile_name = match name {
            Some(n) => n.clone(),
            None => match suggested {
                Some(f) => f,
                None => String::from_str("Remote File"),
            },
        };
        let is_encrypted = is_encrypted_response(headers);
        // the text without a byte order mark
        let data = string_of(strip_start_char_exec(chars_of(body).as_slice(), '\u{feff}').as_slice());
        if is_encrypted && subscription_uuid.is_none() {
            return Err(
                PrfError::EncryptedCache(
                    EncryptedSubscriptionCache {
                        url: String::from_str(url),
                        ciphertext: data,
                        name: Some(profile_name),
                        extra,
                        update_interval,
                        home,
                    },
                ),
            );
        }
        let data = match Self::decrypt_data_if_needed(
            data.as_str(),
            is_encrypted,
            encrypted_subscription,
            subscription_uuid.as_ref(),
        ) {
            Ok(d) => d,
            Err(e) => {
                return Err(e);
            },
        };
        match check_profile_text(data.as_str(), false) {
            Ok(()) => {},
            Err(e) => {
                return Err(e);
            },
        }
        let mut opt = PrfOption::empty();
        opt.update_interval = update_interval;
        opt.allow_auto_update = allow_auto_update;
        opt.encrypted_subscription = if encrypted_subscription {
            Some(true)
        } else {
            None
        };
        opt.subscription_uuid = subscription_uuid;
        let item = PrfItem {
            uid: Some(uid),
            itype: Some(String::from_str("remote")),
            name: Some(profile_name),
            desc: match desc {
                Some(d) => Some(d.clone()),
                None => None,
            },
            file: Some(file),
            url: Some(String::from_str(url)),
            selected: None,
            extra,
            option: Some(opt),
            home,
            updated: None,
            file_data: Some(data),
        };
        Ok(ProfileDraft { item, refs: EnhanceRefs::from_option(option) })
    }
}

/// Content of a subscription that is neither announced as encrypted nor set to be
/// decrypted is kept exactly as it came.
pub proof fn lemma_plain_content_kept(data: Seq<char>, uuid: Option<Seq<char>>)
    ensures
        content_after_decryption(data, false, false, uuid) == Ok::<Seq<char>, PrfErrorView>(data),
{
}

/// Content that is to be decrypted is refused where no UUID is given.
pub proof fn lemma_decryption_needs_uuid(data: Seq<char>, is_encrypted: bool, enabled: bool)
    requires
        is_encrypted || enabled,
    ensures
        content_after_decryption(data, is_encrypted, enabled, None) is Err,
{
}

/// Leading byte order marks are all dropped, and nothing else.
pub proof fn lemma_byte_order_marks_dropped(s: Seq<char>)
    ensures
        strip_start_char(s, '\u{feff}').len() == 0 || strip_start_char(s, '\u{feff}')[0]
            != '\u{feff}',
        strip_start_char(s, '\u{feff}') == s.skip(s.len() - strip_start_char(s, '\u{feff}').len()),
        strip_start_char(s, '\u{feff}').len() <= s.len(),
    decreases s.len(),
{
    if s.len() > 0 && s[0] == '\u{feff}' {
        lemma_byte_order_marks_dropped(s.drop_first());
        assert(s.drop_first().skip(s.drop_first().len() - strip_start_char(s, '\u{feff}').len())
            =~= s.skip(s.len() - strip_start_char(s, '\u{feff}').len()));
    } else {
        assert(s.skip(0) =~= s);
    }
}

/// A remote profile is made only from a successful response, and then it is named by
/// the user where the user gave a name, holds a profile (a YAML mapping with proxies or
/// proxy providers), has a new uid starting with `R` and a file named by it, and refers
/// to the enhancement items that its options name.
pub proof fn lemma_remote_profile_shape(
    url: Seq<char>,
    name: Option<Seq<char>>,
    desc: Option<Seq<char>>,
    option: Option<PrfOptionView>,
    status: u16,
    fields: Seq<(Seq<char>, Seq<u8>, bool)>,
    body: Seq<char>,
    fresh_id: Seq<char>,
)
    requires
        remote_draft(url, name, desc, option, status, fields, body, fresh_id) is Ok,
    ensures
        remote_draft(url, name, desc, option, status, fields, body, fresh_id) matches Ok(
            (item, refs),
        ) && {
            &&& is_success_status(status)
            &&& item.uid == Some("R"@ + fresh_id)
            &&& item.file == Some("R"@ + fresh_id + ".yaml"@)
            &&& item.url == Some(url)
            &&& item.itype == Some("remote"@)
            &&& (name matches Some(n) ==> item.name == Some(n))
            &&& item.file_data matches Some(d) && profile_text_problem(d, PrfErrorView::InvalidRemoteYaml) is None
            &&& refs == refs_of(option)
        },
{
}

/// Encrypted content that arrives without a UUID is not turned into a profile: it is
/// handed back, without byte order marks, with the URL and what the headers said, to be
/// kept until the user gives the UUID.
pub proof fn lemma_encrypted_without_uuid_kept(
    url: Seq<char>,
    name: Option<Seq<char>>,
    desc: Option<Seq<char>>,
    option: Option<PrfOptionView>,
    status: u16,
    fields: Seq<(Seq<char>, Seq<u8>, bool)>,
    body: Seq<char>,
    fresh_id: Seq<char>,
)
    requires
        is_success_status(status),
        says_encrypted(fields),
        clean_uuid(option) is None,
    ensures
        remote_draft(url, name, desc, option, status, fields, body, fresh_id) matches Err(
            PrfErrorView::EncryptedCache(c),
        ) && c.url == url && c.ciphertext == strip_start_char(body, '\u{feff}') && c.extra
            == subscription_extra(fields) && c.home == header_home(fields),
{
}

/// A partial remote item with a URL is fetched from that URL, with its own name,
/// description and options; the file data given with it is not used.
pub proof fn lemma_remote_item_dispatch(item: PrfItemView, file_data: Option<Seq<char>>)
    requires
        item.itype == Some("remote"@),
        item.url is Some,
    ensures
        item_source(item, file_data) == Ok::<ItemSourceView, PrfErrorView>(
            ItemSourceView::Remote {
                url: item.url->0,
                name: item.name,
                desc: item.desc,
                option: item.option,
            },
        ),
{
}

/// A partial local item becomes a local profile with the given file data, named
/// `Local File` and with an empty description unless it has its own.
pub proof fn lemma_local_item_dispatch(item: PrfItemView, file_data: Option<Seq<char>>)
    requires
        item.itype == Some("local"@),
    ensures
        item_source(item, file_data) == Ok::<ItemSourceView, PrfErrorView>(
            ItemSourceView::Local {
                name: or_default(item.name, "Local File"@),
                desc: or_default(item.desc, ""@),
                file_data,
                option: item.option,
            },
        ),
{
    reveal_strlit("local");
    reveal_strlit("remote");
    assert("local"@.len() != "remote"@.len());
}

/// An update interval that the user set is kept, whatever the response's headers say:
/// in the profile made, and in the subscription kept for a later UUID. Only where the
/// user set none does the `profile-update-interval` header count.
pub proof fn lemma_user_update_interval_wins(
    url: Seq<char>,
    name: Option<Seq<char>>,
    desc: Option<Seq<char>>,
    option: Option<PrfOptionView>,
    status: u16,
    fields: Seq<(Seq<char>, Seq<u8>, bool)>,
    body: Seq<char>,
    fresh_id: Seq<char>,
    v: u64,
)
    ensures
        option_update_interval(option) == Some(v) ==> {
            &&& (remote_draft(url, name, desc, option, status, fields, body, fresh_id) matches Ok(
                (item, _),
            ) ==> item.option matches Some(io) && io.update_interval == Some(v))
            &&& (remote_draft(url, name, desc, option, status, fields, body, fresh_id) matches Err(
                PrfErrorView::EncryptedCache(c),
            ) ==> c.update_interval == Some(v))
        },
        option_update_interval(option) is None ==> (remote_draft(
            url,
            name,
            desc,
            option,
            status,
            fields,
            body,
            fresh_id,
        ) matches Ok((item, _)) ==> item.option matches Some(io) && io.update_interval
            == header_update_interval(fields)),
{
}

/// A local profile is named and described as given, keeps the options' update interval,
/// holds the file data where it is given, and has a new uid starting with `L`.
pub proof fn lemma_local_profile_as_given(
    name: Seq<char>,
    desc: Seq<char>,
    file_data: Option<Seq<char>>,
    option: Option<PrfOptionView>,
    fresh_id: Seq<char>,
    templates: Templates,
)
    ensures
        ({
            let item = local_draft(name, desc, file_data, option, fresh_id, templates).0;
            &&& item.name == Some(name)
            &&& item.desc == Some(desc)
            &&& item.uid == Some("L"@ + fresh_id)
            &&& item.itype == Some("local"@)
            &&& (file_data matches Some(d) ==> item.file_data == Some(d))
            &&& item.option matches Some(io) && io.update_interval == option_update_interval(
                option,
            )
            &&& local_draft(name, desc, file_data, option, fresh_id, templates).1 == refs_of(
                option,
            )
        }),
{
}

/// A profile made from a kept subscription carries everything the subscription kept
/// (URL, figures, home page, update interval, name where it has one), the decrypted
/// text, and the UUID that decrypted it.
pub proof fn lemma_cache_profile_keeps_cache(
    cache: EncryptedSubscriptionCacheView,
    decrypted: Seq<char>,
    uuid: Seq<char>,
    fresh_id: Seq<char>,
)
    ensures
        ({
            let item = cache_draft(cache, decrypted, uuid, fresh_id).0;
            &&& item.url == Some(cache.url)
            &&& item.extra == cache.extra
            &&& item.home == cache.home
            &&& item.file_data == Some(decrypted)
            &&& (cache.name matches Some(n) ==> item.name == Some(n))
            &&& item.option matches Some(io) && io.update_interval == cache.update_interval
                && io.subscription_uuid == Some(uuid) && io.encrypted_subscription == Some(true)
        }),
{
}

/// Keeping encrypted content and later making a profile from it loses nothing the
/// response said: the profile has the response's URL, figures, home page and update
/// interval, and the name the response gave.
pub proof fn lemma_kept_subscription_round_trip(
    url: Seq<char>,
    name: Option<Seq<char>>,
    desc: Option<Seq<char>>,
    option: Option<PrfOptionView>,
    status: u16,
    fields: Seq<(Seq<char>, Seq<u8>, bool)>,
    body: Seq<char>,
    fresh_id: Seq<char>,
    decrypted: Seq<char>,
    uuid: Seq<char>,
    later_id: Seq<char>,
)
    requires
        remote_draft(url, name, desc, option, status, fields, body, fresh_id) matches Err(
            PrfErrorView::EncryptedCache(_),
        ),
    ensures
        remote_draft(url, name, desc, option, status, fields, body, fresh_id) matches Err(
            PrfErrorView::EncryptedCache(c),
        ) && {
            let item = cache_draft(c, decrypted, uuid, later_id).0;
            &&& item.url == Some(url)
            &&& item.extra == subscription_extra(fields)
            &&& item.home == header_home(fields)
            &&& (name matches Some(n) ==> item.name == Some(n))
            &&& item.option matches Some(io) && io.update_interval == (
            match option_update_interval(option) {
                Some(v) => Some(v),
                None => header_update_interval(fields),
            })
        },
{
}

} // verus!
