//! Profile items: remote subscriptions, local files, and the enhancement items
//! (merge, script, rules, proxies, groups) that a profile refers to.

use vstd::prelude::*;
use crate::enhance::{ref_of, refs_of, EnhanceKind};
use crate::subscription_decrypt::DecryptError;

verus! {

/// The characters of an optional string.
pub open spec fn ov(o: Option<String>) -> Option<Seq<char>> {
    match o {
        Some(s) => Some(s@),
        None => None,
    }
}

/// `b.or(a)`: `b` where it is set, else `a`.
pub open spec fn or_else<T>(b: Option<T>, a: Option<T>) -> Option<T> {
    match b {
        Some(x) => Some(x),
        None => a,
    }
}

/// A copy of an optional string.
pub fn clone_opt(o: &Option<String>) -> (res: Option<String>)
    ensures
        ov(res) == ov(*o),
{
    match o {
        Some(s) => Some(s.clone()),
        None => None,
    }
}

/// `b.clone().or(a)` on optional strings.
fn or_else_string(b: &Option<String>, a: Option<String>) -> (res: Option<String>)
    ensures
        ov(res) == or_else(ov(*b), ov(a)),
{
    match b {
        Some(s) => Some(s.clone()),
        None => a,
    }
}

fn or_else_copy<T: Copy>(b: Option<T>, a: Option<T>) -> (res: Option<T>)
    ensures
        res == or_else(b, a),
{
    match b {
        Some(x) => Some(x),
        None => a,
    }
}

/// Traffic and expiry figures announced by a subscription server.
#[derive(Debug, Clone, Copy, PartialEq, Eq, Structural)]
pub struct PrfExtra {
    pub upload: u64,
    pub download: u64,
    pub total: u64,
    pub expire: u64,
}

/// Profiles without a stored `allow_auto_update` take part in automatic updates.
pub fn default_allow_auto_update() -> (res: Option<bool>)
    ensures
        res == Some(true),
{
    Some(true)
}

/// A proxy group and the proxy selected in it.
#[derive(Debug, Clone)]
pub struct PrfSelected {
    pub name: Option<String>,
    pub now: Option<String>,
}

/// The value of a `PrfSelected`.
pub struct PrfSelectedView {
    pub name: Option<Seq<char>>,
    pub now: Option<Seq<char>>,
}

impl View for PrfSelected {
    type V = PrfSelectedView;

    open spec fn view(&self) -> PrfSelectedView {
        PrfSelectedView { name: ov(self.name), now: ov(self.now) }
    }
}

/// Options of a profile item.
#[derive(Debug, Clone, PartialEq, Eq)]
pub struct PrfOption {
    /// user agent of the HTTP request of a remote profile
    pub user_agent: Option<String>,
    /// fetch a remote profile through the system proxy
    pub with_proxy: Option<bool>,
    /// fetch a remote profile through the client's own proxy
    pub self_proxy: Option<bool>,
    pub update_interval: Option<u64>,
    /// timeout of the HTTP request of a remote profile, in seconds
    pub timeout_seconds: Option<u64>,
    /// fetch a remote profile without validating the server's certificate
    pub danger_accept_invalid_certs: Option<bool>,
    pub allow_auto_update: Option<bool>,
    /// decrypt the content of a remote profile
    pub encrypted_subscription: Option<bool>,
    /// the UUID from which the decryption key is derived
    pub subscription_uuid: Option<String>,
    pub merge: Option<String>,
    pub script: Option<String>,
    pub rules: Option<String>,
    pub proxies: Option<String>,
    pub groups: Option<String>,
}

/// The value of a `PrfOption`.
pub struct PrfOptionView {
    pub user_agent: Option<Seq<char>>,
    pub with_proxy: Option<bool>,
    pub self_proxy: Option<bool>,
    pub update_interval: Option<u64>,
    pub timeout_seconds: Option<u64>,
    pub danger_accept_invalid_certs: Option<bool>,
    pub allow_auto_update: Option<bool>,
    pub encrypted_subscription: Option<bool>,
    pub subscription_uuid: Option<Seq<char>>,
    pub merge: Option<Seq<char>>,
    pub script: Option<Seq<char>>,
    pub rules: Option<Seq<char>>,
    pub proxies: Option<Seq<char>>,
    pub groups: Option<Seq<char>>,
}

impl View for PrfOption {
    type V = PrfOptionView;

    open spec fn view(&self) -> PrfOptionView {
        PrfOptionView {
            user_agent: ov(self.user_agent),
            with_proxy: self.with_proxy,
            self_proxy: self.self_proxy,
            update_interval: self.update_interval,
            timeout_seconds: self.timeout_seconds,
            danger_accept_invalid_certs: self.danger_accept_invalid_certs,
            allow_auto_update: self.allow_auto_update,
            encrypted_subscription: self.encrypted_subscription,
            subscription_uuid: ov(self.subscription_uuid),
            merge: ov(self.merge),
            script: ov(self.script),
            rules: ov(self.rules),
            proxies: ov(self.proxies),
            groups: ov(self.groups),
        }
    }
}

/// The options with nothing set.
pub open spec fn empty_option() -> PrfOptionView {
    PrfOptionView {
        user_agent: None,
        with_proxy: None,
        self_proxy: None,
        update_interval: None,
        timeout_seconds: None,
        danger_accept_invalid_certs: None,
        allow_auto_update: None,
        encrypted_subscription: None,
        subscription_uuid: None,
        merge: None,
        script: None,
        rules: None,
        proxies: None,
        groups: None,
    }
}

/// The options `b` laid over `a`: each option that `b` sets, else the one of `a`.
pub open spec fn merge_fields(a: PrfOptionView, b: PrfOptionView) -> PrfOptionView {
    PrfOptionView {
        user_agent: or_else(b.user_agent, a.user_agent),
        with_proxy: or_else(b.with_proxy, a.with_proxy),
        self_proxy: or_else(b.self_proxy, a.self_proxy),
        update_interval: or_else(b.update_interval, a.update_interval),
        timeout_seconds: or_else(b.timeout_seconds, a.timeout_seconds),
        danger_accept_invalid_certs: or_else(
            b.danger_accept_invalid_certs,
            a.danger_accept_invalid_certs,
        ),
        allow_auto_update: or_else(b.allow_auto_update, a.allow_auto_update),
        encrypted_subscription: or_else(b.encrypted_subscription, a.encrypted_subscription),
        subscription_uuid: or_else(b.subscription_uuid, a.subscription_uuid),
        merge: or_else(b.merge, a.merge),
        script: or_else(b.script, a.script),
        rules: or_else(b.rules, a.rules),
        proxies: or_else(b.proxies, a.proxies),
        groups: or_else(b.groups, a.groups),
    }
}

/// The value of an optional options reference.
pub open spec fn option_view(o: Option<&PrfOption>) -> Option<PrfOptionView> {
    match o {
        Some(x) => Some(x@),
        None => None,
    }
}

/// The value of an optional options value.
pub open spec fn owned_option_view(o: Option<PrfOption>) -> Option<PrfOptionView> {
    match o {
        Some(x) => Some(x@),
        None => None,
    }
}

/// What `PrfOption::merge` gives: both present are merged field by field, the second
/// winning; one present is taken as it is; none gives none.
pub open spec fn merged(one: Option<PrfOptionView>, other: Option<PrfOptionView>) -> Option<
    PrfOptionView,
> {
    match (one, other) {
        (Some(a), Some(b)) => Some(merge_fields(a, b)),
        (Some(a), None) => Some(a),
        (None, Some(b)) => Some(b),
        (None, None) => None,
    }
}

impl PrfOption {
    /// The options with nothing set.
    pub fn empty() -> (res: Self)
        ensures
            res@ == empty_option(),
    {
        PrfOption {
            user_agent: None,
            with_proxy: None,
            self_proxy: None,
            update_interval: None,
            timeout_seconds: None,
            danger_accept_invalid_certs: None,
            allow_auto_update: None,
            encrypted_subscription: None,
            subscription_uuid: None,
            merge: None,
            script: None,
            rules: None,
            proxies: None,
            groups: None,
        }
    }

    /// A copy of these options.
    pub fn duplicate(&self) -> (res: Self)
        ensures
            res@ == self@,
    {
        PrfOption {
            user_agent: clone_opt(&self.user_agent),
            with_proxy: self.with_proxy,
            self_proxy: self.self_proxy,
            update_interval: self.update_interval,
            timeout_seconds: self.timeout_seconds,
            danger_accept_invalid_certs: self.danger_accept_invalid_certs,
            allow_auto_update: self.allow_auto_update,
            encrypted_subscription: self.encrypted_subscription,
            subscription_uuid: clone_opt(&self.subscription_uuid),
            merge: clone_opt(&self.merge),
            script: clone_opt(&self.script),
            rules: clone_opt(&self.rules),
            proxies: clone_opt(&self.proxies),
            groups: clone_opt(&self.groups),
        }
    }

    /// Lays the options `other` over `one`.
    pub fn merge(one: Option<&Self>, other: Option<&Self>) -> (res: Option<Self>)
        ensures
            owned_option_view(res) == merged(option_view(one), option_view(other)),
    {
        match (one, other) {
            (Some(a_ref), Some(b_ref)) => {
                let a = a_ref.duplicate();
                let result = PrfOption {
                    user_agent: or_else_string(&b_ref.user_agent, a.user_agent),
                    with_proxy: or_else_copy(b_ref.with_proxy, a.with_proxy),
                    self_proxy: or_else_copy(b_ref.self_proxy, a.self_proxy),
                    danger_accept_invalid_certs: or_else_copy(
                        b_ref.danger_accept_invalid_certs,
                        a.danger_accept_invalid_certs,
                    ),
                    allow_auto_update: or_else_copy(b_ref.allow_auto_update, a.allow_auto_update),
                    update_interval: or_else_copy(b_ref.update_interval, a.update_interval),
                    encrypted_subscription: or_else_copy(
                        b_ref.encrypted_subscription,
                        a.encrypted_subscription,
                    ),
                    subscription_uuid: or_else_string(
                        &b_ref.subscription_uuid,
                        a.subscription_uuid,
                    ),
                    merge: or_else_string(&b_ref.merge, a.merge),
                    script: or_else_string(&b_ref.script, a.script),
                    rules: or_else_string(&b_ref.rules, a.rules),
                    proxies: or_else_string(&b_ref.proxies, a.proxies),
                    groups: or_else_string(&b_ref.groups, a.groups),
                    timeout_seconds: or_else_copy(b_ref.timeout_seconds, a.timeout_seconds),
                };
                Some(result)
            },
            (Some(a_ref), None) => Some(a_ref.duplicate()),
            (None, Some(b_ref)) => Some(b_ref.duplicate()),
            (None, None) => None,
        }
    }
}

impl Default for PrfOption {
    fn default() -> (res: Self)
        ensures
            res@ == empty_option(),
    {
        PrfOption::empty()
    }
}

/// Merging is associative: laying `c` over the merge of `a` and `b` is laying the merge
/// of `b` and `c` over `a`.
pub proof fn lemma_merge_associative(
    a: Option<PrfOptionView>,
    b: Option<PrfOptionView>,
    c: Option<PrfOptionView>,
)
    ensures
        merged(merged(a, b), c) == merged(a, merged(b, c)),
{
    if a is Some && b is Some && c is Some {
        lemma_merge_fields_associative(a->0, b->0, c->0);
    }
}

proof fn lemma_or_else_associative<T>(x: Option<T>, y: Option<T>, z: Option<T>)
    ensures
        or_else(z, or_else(y, x)) == or_else(or_else(z, y), x),
{
}

proof fn lemma_merge_fields_associative(a: PrfOptionView, b: PrfOptionView, c: PrfOptionView)
    ensures
        merge_fields(merge_fields(a, b), c) == merge_fields(a, merge_fields(b, c)),
{
    lemma_or_else_associative(a.user_agent, b.user_agent, c.user_agent);
    lemma_or_else_associative(a.with_proxy, b.with_proxy, c.with_proxy);
    lemma_or_else_associative(a.self_proxy, b.self_proxy, c.self_proxy);
    lemma_or_else_associative(a.update_interval, b.update_interval, c.update_interval);
    lemma_or_else_associative(a.timeout_seconds, b.timeout_seconds, c.timeout_seconds);
    lemma_or_else_associative(
        a.danger_accept_invalid_certs,
        b.danger_accept_invalid_certs,
        c.danger_accept_invalid_certs,
    );
    lemma_or_else_associative(a.allow_auto_update, b.allow_auto_update, c.allow_auto_update);
    lemma_or_else_associative(
        a.encrypted_subscription,
        b.encrypted_subscription,
        c.encrypted_subscription,
    );
    lemma_or_else_associative(a.subscription_uuid, b.subscription_uuid, c.subscription_uuid);
    lemma_or_else_associative(a.merge, b.merge, c.merge);
    lemma_or_else_associative(a.script, b.script, c.script);
    lemma_or_else_associative(a.rules, b.rules, c.rules);
    lemma_or_else_associative(a.proxies, b.proxies, c.proxies);
    lemma_or_else_associative(a.groups, b.groups, c.groups);
}

/// Merging options with themselves changes nothing.
pub proof fn lemma_merge_idempotent(a: Option<PrfOptionView>)
    ensures
        merged(a, a) == a,
{
}

/// The options with nothing set are neutral on either side of a merge.
pub proof fn lemma_merge_empty_neutral(a: PrfOptionView)
    ensures
        merged(Some(a), Some(empty_option())) == Some(a),
        merged(Some(empty_option()), Some(a)) == Some(a),
{
}

/// Merging decides every option on its own: the second options' value where they set
/// it, else the first options' value.
pub proof fn lemma_merge_second_wins_each_field(a: PrfOptionView, b: PrfOptionView)
    ensures
        ({
            let m = merged(Some(a), Some(b))->0;
            &&& m.user_agent == (if b.user_agent is Some { b.user_agent } else { a.user_agent })
            &&& m.with_proxy == (if b.with_proxy is Some { b.with_proxy } else { a.with_proxy })
            &&& m.self_proxy == (if b.self_proxy is Some { b.self_proxy } else { a.self_proxy })
            &&& m.update_interval == (if b.update_interval is Some {
                b.update_interval
            } else {
                a.update_interval
            })
            &&& m.timeout_seconds == (if b.timeout_seconds is Some {
                b.timeout_seconds
            } else {
                a.timeout_seconds
            })
            &&& m.danger_accept_invalid_certs == (if b.danger_accept_invalid_certs is Some {
                b.danger_accept_invalid_certs
            } else {
                a.danger_accept_invalid_certs
            })
            &&& m.allow_auto_update == (if b.allow_auto_update is Some {
                b.allow_auto_update
            } else {
                a.allow_auto_update
            })
            &&& m.encrypted_subscription == (if b.encrypted_subscription is Some {
                b.encrypted_subscription
            } else {
                a.encrypted_subscription
            })
            &&& m.subscription_uuid == (if b.subscription_uuid is Some {
                b.subscription_uuid
            } else {
                a.subscription_uuid
            })
            &&& m.merge == (if b.merge is Some { b.merge } else { a.merge })
            &&& m.script == (if b.script is Some { b.script } else { a.script })
            &&& m.rules == (if b.rules is Some { b.rules } else { a.rules })
            &&& m.proxies == (if b.proxies is Some { b.proxies } else { a.proxies })
            &&& m.groups == (if b.groups is Some { b.groups } else { a.groups })
        }),
{
}

/// An option that the second argument sets is the one the merge holds.
pub proof fn lemma_merge_other_wins(a: PrfOptionView, b: PrfOptionView)
    ensures
        b.update_interval is Some ==> merge_fields(a, b).update_interval == b.update_interval,
        b.subscription_uuid is Some ==> merge_fields(a, b).subscription_uuid
            == b.subscription_uuid,
        b.merge is Some ==> merge_fields(a, b).merge == b.merge,
        b.allow_auto_update is Some ==> merge_fields(a, b).allow_auto_update
            == b.allow_auto_update,
{
}

/// Subscription data kept while the user has not yet given the UUID that decrypts it.
#[derive(Debug, Clone)]
pub struct EncryptedSubscriptionCache {
    /// the subscription URL
    pub url: String,
    /// the ciphertext as received, without a byte order mark
    pub ciphertext: String,
    /// the file name that the response suggested
    pub name: Option<String>,
    /// the subscription figures
    pub extra: Option<PrfExtra>,
    /// the update interval, in minutes
    pub update_interval: Option<u64>,
    /// the profile's home page
    pub home: Option<String>,
}

/// The value of an `EncryptedSubscriptionCache`.
pub struct EncryptedSubscriptionCacheView {
    pub url: Seq<char>,
    pub ciphertext: Seq<char>,
    pub name: Option<Seq<char>>,
    pub extra: Option<PrfExtra>,
    pub update_interval: Option<u64>,
    pub home: Option<Seq<char>>,
}

impl View for EncryptedSubscriptionCache {
    type V = EncryptedSubscriptionCacheView;

    open spec fn view(&self) -> EncryptedSubscriptionCacheView {
        EncryptedSubscriptionCacheView {
            url: self.url@,
            ciphertext: self.ciphertext@,
            name: ov(self.name),
            extra: self.extra,
            update_interval: self.update_interval,
            home: ov(self.home),
        }
    }
}

/// A profile item.
#[derive(Debug, Clone)]
pub struct PrfItem {
    pub uid: Option<String>,
    /// the item's type: remote, local, script, merge, rules, proxies or groups
    pub itype: Option<String>,
    /// the profile's name
    pub name: Option<String>,
    /// the profile's file
    pub file: Option<String>,
    /// the profile's description
    pub desc: Option<String>,
    /// the URL of a remote profile
    pub url: Option<String>,
    /// the proxies selected in the profile's groups
    pub selected: Option<Vec<PrfSelected>>,
    /// the subscription figures
    pub extra: Option<PrfExtra>,
    /// when the item was last updated, in seconds since the Unix epoch
    pub updated: Option<usize>,
    /// the item's options
    pub option: Option<PrfOption>,
    /// the profile's home page
    pub home: Option<String>,
    /// the content of the profile's file
    pub file_data: Option<String>,
}

/// The value of a `PrfItem`.
pub struct PrfItemView {
    pub uid: Option<Seq<char>>,
    pub itype: Option<Seq<char>>,
    pub name: Option<Seq<char>>,
    pub file: Option<Seq<char>>,
    pub desc: Option<Seq<char>>,
    pub url: Option<Seq<char>>,
    pub selected: Option<Seq<PrfSelectedView>>,
    pub extra: Option<PrfExtra>,
    pub updated: Option<usize>,
    pub option: Option<PrfOptionView>,
    pub home: Option<Seq<char>>,
    pub file_data: Option<Seq<char>>,
}

impl View for PrfItem {
    type V = PrfItemView;

    open spec fn view(&self) -> PrfItemView {
        PrfItemView {
            uid: ov(self.uid),
            itype: ov(self.itype),
            name: ov(self.name),
            file: ov(self.file),
            desc: ov(self.desc),
            url: ov(self.url),
            selected: match self.selected {
                Some(v) => Some(v@.map_values(|s: PrfSelected| s@)),
                None => None,
            },
            extra: self.extra,
            updated: self.updated,
            option: owned_option_view(self.option),
            home: ov(self.home),
            file_data: ov(self.file_data),
        }
    }
}

/// The item with nothing set.
pub open spec fn empty_item() -> PrfItemView {
    PrfItemView {
        uid: None,
        itype: None,
        name: None,
        file: None,
        desc: None,
        url: None,
        selected: None,
        extra: None,
        updated: None,
        option: None,
        home: None,
        file_data: None,
    }
}

impl Default for PrfItem {
    fn default() -> (res: Self)
        ensures
            res@ == empty_item(),
    {
        PrfItem {
            uid: None,
            itype: None,
            name: None,
            file: None,
            desc: None,
            url: None,
            selected: None,
            extra: None,
            updated: None,
            option: None,
            home: None,
            file_data: None,
        }
    }
}

/// Why a profile item could not be made.
#[derive(Debug)]
pub enum PrfError {
    /// the partial item has no type
    MissingType,
    /// the partial remote item has no URL
    MissingUrl,
    /// the partial item's type is neither `remote` nor `local`
    InvalidType(String),
    /// the server answered with a status outside 200..=299
    BadStatus(u16),
    /// the server sent encrypted content and no UUID was given: the content is handed
    /// back to be kept until the user gives one
    EncryptedCache(EncryptedSubscriptionCache),
    /// the server said the content is encrypted and no UUID was given
    EncryptedWithoutUuid,
    /// encrypted subscriptions are enabled and no UUID was given
    EnabledWithoutUuid,
    /// the content that the server said is encrypted did not decrypt
    ServerDecrypt(DecryptError),
    /// the content of an enabled encrypted subscription did not decrypt
    EnabledDecrypt(DecryptError),
    /// the remote profile is not a YAML mapping
    InvalidRemoteYaml,
    /// the decrypted profile is not a YAML mapping
    InvalidDecryptedYaml,
    /// the profile has neither `proxies` nor `proxy-providers`
    NoProxies,
    /// the item has no file
    FileNotFound,
}

/// The value of a `PrfError`.
pub enum PrfErrorView {
    MissingType,
    MissingUrl,
    InvalidType(Seq<char>),
    BadStatus(u16),
    EncryptedCache(EncryptedSubscriptionCacheView),
    EncryptedWithoutUuid,
    EnabledWithoutUuid,
    ServerDecrypt(DecryptError),
    EnabledDecrypt(DecryptError),
    InvalidRemoteYaml,
    InvalidDecryptedYaml,
    NoProxies,
    FileNotFound,
}

impl View for PrfError {
    type V = PrfErrorView;

    open spec fn view(&self) -> PrfErrorView {
        match self {
            PrfError::MissingType => PrfErrorView::MissingType,
            PrfError::MissingUrl => PrfErrorView::MissingUrl,
            PrfError::InvalidType(t) => PrfErrorView::InvalidType(t@),
            PrfError::BadStatus(s) => PrfErrorView::BadStatus(*s),
            PrfError::EncryptedCache(c) => PrfErrorView::EncryptedCache(c@),
            PrfError::EncryptedWithoutUuid => PrfErrorView::EncryptedWithoutUuid,
            PrfError::EnabledWithoutUuid => PrfErrorView::EnabledWithoutUuid,
            PrfError::ServerDecrypt(e) => PrfErrorView::ServerDecrypt(*e),
            PrfError::EnabledDecrypt(e) => PrfErrorView::EnabledDecrypt(*e),
            PrfError::InvalidRemoteYaml => PrfErrorView::InvalidRemoteYaml,
            PrfError::InvalidDecryptedYaml => PrfErrorView::InvalidDecryptedYaml,
            PrfError::NoProxies => PrfErrorView::NoProxies,
            PrfError::FileNotFound => PrfErrorView::FileNotFound,
        }
    }
}

/// The reference of kind `kind` in the options of item `item`.
pub open spec fn current_ref(item: PrfItemView, kind: EnhanceKind) -> Option<Seq<char>> {
    ref_of(refs_of(item.option), kind)
}

fn opt_ref(o: &Option<String>) -> (res: Option<&String>)
    ensures
        match res {
            Some(s) => ov(*o) == Some(s@),
            None => o is None,
        },
{
    match o {
        Some(s) => Some(s),
        None => None,
    }
}

impl PrfItem {
    /// The merge item that this profile refers to.
    pub fn current_merge(&self) -> (res: Option<&String>)
        ensures
            match res {
                Some(s) => current_ref(self@, EnhanceKind::Merge) == Some(s@),
                None => current_ref(self@, EnhanceKind::Merge) is None,
            },
    {
        match &self.option {
            Some(o) => opt_ref(&o.merge),
            None => None,
        }
    }

    /// The script item that this profile refers to.
    pub fn current_script(&self) -> (res: Option<&String>)
        ensures
            match res {
                Some(s) => current_ref(self@, EnhanceKind::Script) == Some(s@),
                None => current_ref(self@, EnhanceKind::Script) is None,
            },
    {
        match &self.option {
            Some(o) => opt_ref(&o.script),
            None => None,
        }
    }

    /// The rules item that this profile refers to.
    pub fn current_rules(&self) -> (res: Option<&String>)
        ensures
            match res {
                Some(s) => current_ref(self@, EnhanceKind::Rules) == Some(s@),
                None => current_ref(self@, EnhanceKind::Rules) is None,
            },
    {
        match &self.option {
            Some(o) => opt_ref(&o.rules),
            None => None,
        }
    }

    /// The proxies item that this profile refers to.
    pub fn current_proxies(&self) -> (res: Option<&String>)
        ensures
            match res {
                Some(s) => current_ref(self@, EnhanceKind::Proxies) == Some(s@),
                None => current_ref(self@, EnhanceKind::Proxies) is None,
            },
    {
        match &self.option {
            Some(o) => opt_ref(&o.proxies),
            None => None,
        }
    }

    /// The groups item that this profile refers to.
    pub fn current_groups(&self) -> (res: Option<&String>)
        ensures
            match res {
                Some(s) => current_ref(self@, EnhanceKind::Groups) == Some(s@),
                None => current_ref(self@, EnhanceKind::Groups) is None,
            },
    {
        match &self.option {
            Some(o) => opt_ref(&o.groups),
            None => None,
        }
    }

    /// The name of this item's file, which reading and saving the file need.
    pub fn profile_file(&self) -> (res: Result<String, PrfError>)
        ensures
            match res {
                Ok(f) => self@.file == Some(f@),
                Err(e) => self@.file is None && e@ == PrfErrorView::FileNotFound,
            },
    {
        match &self.file {
            Some(f) => Ok(f.clone()),
            None => Err(PrfError::FileNotFound),
        }
    }
}

#[verifier::external_type_specification]
#[verifier::external_body]
pub struct ExStatusCode(reqwest::StatusCode);

/// The canonical reason phrase of HTTP status `code` (such as `Not Found` for 404), or
/// none where the status has none.
pub uninterp spec fn status_canonical_reason(code: u16) -> Option<Seq<char>>;

/// `StatusCode::from_u16(code)` followed by `canonical_reason()`: the phrase named by
/// `status_canonical_reason`. `from_u16` accepts exactly the codes 100 to 999.
#[verifier::external_body]
fn status_reason(code: u16) -> (res: Option<String>)
    requires
        100 <= code <= 999,
    ensures
        match res {
            Some(r) => status_canonical_reason(code) == Some(r@),
            None => status_canonical_reason(code) is None,
        },
{
    match reqwest::StatusCode::from_u16(code) {
        Ok(status) => match status.canonical_reason() {
            Some(phrase) => Some(phrase.to_string()),
            None => None,
        },
        Err(_) => None,
    }
}

/// How a status code shows (`StatusCode`'s `Display`): the number, a space, and the
/// canonical reason phrase or `<unknown status code>`. Numbers outside 100 to 999 are
/// no status code and have no phrase.
pub open spec fn status_text(code: u16) -> Seq<char> {
    let reason = if 100 <= code <= 999 {
        status_canonical_reason(code)
    } else {
        None
    };
    crate::text::decimal(code as nat) + " "@ + match reason {
        Some(r) => r,
        None => "<unknown status code>"@,
    }
}

/// The message that tells the user what went wrong. For kept encrypted content it is
/// the marker that the kept data, as JSON, follows.
pub open spec fn prf_error_message(e: PrfErrorView) -> Seq<char> {
    match e {
        PrfErrorView::MissingType => "type should not be null"@,
        PrfErrorView::MissingUrl => "url should not be null"@,
        PrfErrorView::InvalidType(t) => "invalid profile item type \""@ + t + "\""@,
        PrfErrorView::BadStatus(s) => "failed to fetch remote profile with status "@
            + status_text(s),
        PrfErrorView::EncryptedCache(_) => "ENCRYPTED_CACHE::"@,
        PrfErrorView::EncryptedWithoutUuid => "Encrypted subscription detected (X-Encrypted: 1), but no UUID provided. Please enable 'Encrypted Subscription' and enter your UUID."@,
        PrfErrorView::EnabledWithoutUuid => "Encrypted subscription is enabled, but no UUID provided. Please enter your UUID."@,
        PrfErrorView::ServerDecrypt(_) => "Failed to decrypt subscription. Please verify UUID is correct."@,
        PrfErrorView::EnabledDecrypt(_) => "Failed to decrypt subscription. If your subscription is plaintext, disable encrypted subscription, clear the UUID, and refresh."@,
        PrfErrorView::InvalidRemoteYaml => "the remote profile data is invalid yaml"@,
        PrfErrorView::InvalidDecryptedYaml => "the decrypted subscription data is invalid yaml"@,
        PrfErrorView::NoProxies => "profile does not contain `proxies` or `proxy-providers`"@,
        PrfErrorView::FileNotFound => "could not find the file"@,
    }
}

impl PrfError {
    /// The message that tells the user what went wrong.
    pub fn message(&self) -> (res: String)
        ensures
            res@ == prf_error_message(self@),
    {
        match self {
            PrfError::MissingType => String::from_str("type should not be null"),
            PrfError::MissingUrl => String::from_str("url should not be null"),
            PrfError::InvalidType(t) => {
                let mut s = String::from_str("invalid profile item type \"");
                s.append(t.as_str());
                s.append("\"");
                s
            },
            PrfError::BadStatus(code) => {
                let mut s = String::from_str("failed to fetch remote profile with status ");
                crate::text::push_decimal(&mut s, *code as u64);
                s.append(" ");
                let reason = if 100 <= *code && *code <= 999 {
                    status_reason(*code)
                } else {
                    None
                };
                match reason {
                    Some(r) => s.append(r.as_str()),
                    None => s.append("<unknown status code>"),
                }
                s
            },
            PrfError::EncryptedCache(_) => String::from_str("ENCRYPTED_CACHE::"),
            PrfError::EncryptedWithoutUuid => String::from_str(
                "Encrypted subscription detected (X-Encrypted: 1), but no UUID provided. Please enable 'Encrypted Subscription' and enter your UUID.",
            ),
            PrfError::EnabledWithoutUuid => String::from_str(
                "Encrypted subscription is enabled, but no UUID provided. Please enter your UUID.",
            ),
            PrfError::ServerDecrypt(_) => String::from_str(
                "Failed to decrypt subscription. Please verify UUID is correct.",
            ),
            PrfError::EnabledDecrypt(_) => String::from_str(
                "Failed to decrypt subscription. If your subscription is plaintext, disable encrypted subscription, clear the UUID, and refresh.",
            ),
            PrfError::InvalidRemoteYaml => String::from_str("the remote profile data is invalid yaml"),
            PrfError::InvalidDecryptedYaml => String::from_str(
                "the decrypted subscription data is invalid yaml",
            ),
            PrfError::NoProxies => String::from_str(
                "profile does not contain `proxies` or `proxy-providers`",
            ),
            PrfError::FileNotFound => String::from_str("could not find the file"),
        }
    }
}

} // verus!
