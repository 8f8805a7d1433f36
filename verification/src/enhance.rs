//! Enhancement items, and the drafts of profiles that wait for theirs to be created.

use vstd::prelude::*;
use crate::prfitem::{
    clone_opt, current_ref, empty_option, option_view, ov, PrfError, PrfItem, PrfItemView,
    PrfOption, PrfOptionView,
};

verus! {

/// The texts with which new profile files start.
#[derive(Debug)]
pub struct Templates {
    /// a new local profile
    pub local: String,
    /// a merge item made for an existing uid
    pub merge: String,
    /// a new, empty merge item
    pub merge_empty: String,
    pub script: String,
    pub rules: String,
    pub proxies: String,
    pub groups: String,
}

/// The kinds of enhancement item that a profile refers to.
#[derive(Debug, Clone, Copy, PartialEq, Eq, Structural)]
pub enum EnhanceKind {
    Merge,
    Script,
    Rules,
    Proxies,
    Groups,
}

/// The letter that starts the uid of a new item of this kind.
pub open spec fn uid_prefix(kind: EnhanceKind) -> Seq<char> {
    match kind {
        EnhanceKind::Merge => "m"@,
        EnhanceKind::Script => "s"@,
        EnhanceKind::Rules => "r"@,
        EnhanceKind::Proxies => "p"@,
        EnhanceKind::Groups => "g"@,
    }
}

/// The `itype` of an item of this kind.
pub open spec fn kind_name(kind: EnhanceKind) -> Seq<char> {
    match kind {
        EnhanceKind::Merge => "merge"@,
        EnhanceKind::Script => "script"@,
        EnhanceKind::Rules => "rules"@,
        EnhanceKind::Proxies => "proxies"@,
        EnhanceKind::Groups => "groups"@,
    }
}

/// The extension of the file of an item of this kind: scripts are JavaScript, the rest
/// YAML.
pub open spec fn file_extension(kind: EnhanceKind) -> Seq<char> {
    match kind {
        EnhanceKind::Script => ".js"@,
        _ => ".yaml"@,
    }
}

/// The text a new item of this kind starts with; a merge item starts empty unless it is
/// made for a given uid.
pub open spec fn kind_template(kind: EnhanceKind, templates: Templates, given_uid: bool) -> Seq<
    char,
> {
    match kind {
        EnhanceKind::Merge => if given_uid {
            templates.merge@
        } else {
            templates.merge_empty@
        },
        EnhanceKind::Script => templates.script@,
        EnhanceKind::Rules => templates.rules@,
        EnhanceKind::Proxies => templates.proxies@,
        EnhanceKind::Groups => templates.groups@,
    }
}

/// A new enhancement item of kind `kind`, with uid `uid` where it is given, else the
/// kind's prefix followed by `fresh_id`, updated at `updated`.
pub open spec fn enhancement_item(
    kind: EnhanceKind,
    uid: Option<Seq<char>>,
    fresh_id: Seq<char>,
    templates: Templates,
    updated: usize,
) -> PrfItemView {
    let id = match uid {
        Some(u) => u,
        None => uid_prefix(kind) + fresh_id,
    };
    PrfItemView {
        uid: Some(id),
        itype: Some(kind_name(kind)),
        name: None,
        file: Some(id + file_extension(kind)),
        desc: None,
        url: None,
        selected: None,
        extra: None,
        updated: Some(updated),
        option: None,
        home: None,
        file_data: Some(kind_template(kind, templates, uid is Some)),
    }
}

fn kind_text(kind: EnhanceKind) -> (res: (&'static str, &'static str, &'static str))
    ensures
        res.0@ == uid_prefix(kind),
        res.1@ == kind_name(kind),
        res.2@ == file_extension(kind),
{
    match kind {
        EnhanceKind::Merge => ("m", "merge", ".yaml"),
        EnhanceKind::Script => ("s", "script", ".js"),
        EnhanceKind::Rules => ("r", "rules", ".yaml"),
        EnhanceKind::Proxies => ("p", "proxies", ".yaml"),
        EnhanceKind::Groups => ("g", "groups", ".yaml"),
    }
}

/// `chrono::Local::now().timestamp()`: the current time in seconds since the Unix
/// epoch. It depends on the clock alone, so nothing is stated of it.
#[verifier::external_body]
fn local_timestamp() -> i64 {
    chrono::Local::now().timestamp()
}

/// The current time as an item's `updated` stamp (the timestamp cast to `usize`).
fn now_updated() -> usize {
    let ts = local_timestamp();
    #[verifier::truncate]
    (ts as usize)
}

/// The name of a profile's file: its uid followed by `extension`.
pub(crate) fn file_name(uid: &String, extension: &str) -> (res: String)
    ensures
        res@ == uid@ + extension@,
{
    let mut f = uid.clone();
    f.append(extension);
    f
}

/// A new uid: `prefix` followed by `fresh_id`.
pub(crate) fn new_uid(prefix: &str, fresh_id: &str) -> (res: String)
    ensures
        res@ == prefix@ + fresh_id@,
{
    let mut id = String::from_str(prefix);
    id.append(fresh_id);
    id
}

impl PrfItem {
    /// A new enhancement item of kind `kind`, updated at `updated`.
    pub fn enhancement(
        kind: EnhanceKind,
        uid: Option<String>,
        fresh_id: &str,
        templates: &Templates,
        updated: usize,
    ) -> (res: PrfItem)
        ensures
            res@ == enhancement_item(kind, ov(uid), fresh_id@, *templates, updated),
    {
        let (prefix, itype, extension) = kind_text(kind);
        let given = uid.is_some();
        let id = match uid {
            Some(u) => u,
            None => new_uid(prefix, fresh_id),
        };
        let file = file_name(&id, extension);
        let data = match kind {
            EnhanceKind::Merge => if given {
                templates.merge.clone()
            } else {
                templates.merge_empty.clone()
            },
            EnhanceKind::Script => templates.script.clone(),
            EnhanceKind::Rules => templates.rules.clone(),
            EnhanceKind::Proxies => templates.proxies.clone(),
            EnhanceKind::Groups => templates.groups.clone(),
        };
        PrfItem {
            uid: Some(id),
            itype: Some(String::from_str(itype)),
            name: None,
            file: Some(file),
            desc: None,
            url: None,
            selected: None,
            extra: None,
            updated: Some(updated),
            option: None,
            home: None,
            file_data: Some(data),
        }
    }

    /// A new merge item (an enhancement by merging), with uid `uid` where it is given;
    /// updated now.
    pub fn from_merge(uid: Option<String>, fresh_id: &str, templates: &Templates) -> (res: Result<
        Self,
        PrfError,
    >)
        ensures
            res matches Ok(item) && item@ == enhancement_item(
                EnhanceKind::Merge,
                ov(uid),
                fresh_id@,
                *templates,
                item@.updated->0,
            ),
    {
        Ok(Self::enhancement(EnhanceKind::Merge, uid, fresh_id, templates, now_updated()))
    }

    /// A new script item (an enhancement by a JavaScript script), with uid `uid` where it
    /// is given; updated now.
    pub fn from_script(uid: Option<String>, fresh_id: &str, templates: &Templates) -> (res: Result<
        Self,
        PrfError,
    >)
        ensures
            res matches Ok(item) && item@ == enhancement_item(
                EnhanceKind::Script,
                ov(uid),
                fresh_id@,
                *templates,
                item@.updated->0,
            ),
    {
        Ok(Self::enhancement(EnhanceKind::Script, uid, fresh_id, templates, now_updated()))
    }

    /// A new rules item; updated now.
    pub fn from_rules(fresh_id: &str, templates: &Templates) -> (res: Result<Self, PrfError>)
        ensures
            res matches Ok(item) && item@ == enhancement_item(
                EnhanceKind::Rules,
                None,
                fresh_id@,
                *templates,
                item@.updated->0,
            ),
    {
        Ok(Self::enhancement(EnhanceKind::Rules, None, fresh_id, templates, now_updated()))
    }

    /// A new proxies item; updated now.
    pub fn from_proxies(fresh_id: &str, templates: &Templates) -> (res: Result<Self, PrfError>)
        ensures
            res matches Ok(item) && item@ == enhancement_item(
                EnhanceKind::Proxies,
                None,
                fresh_id@,
                *templates,
                item@.updated->0,
            ),
    {
        Ok(Self::enhancement(EnhanceKind::Proxies, None, fresh_id, templates, now_updated()))
    }

    /// A new groups item; updated now.
    pub fn from_groups(fresh_id: &str, templates: &Templates) -> (res: Result<Self, PrfError>)
        ensures
            res matches Ok(item) && item@ == enhancement_item(
                EnhanceKind::Groups,
                None,
                fresh_id@,
                *templates,
                item@.updated->0,
            ),
    {
        Ok(Self::enhancement(EnhanceKind::Groups, None, fresh_id, templates, now_updated()))
    }

    /// A new enhancement item of kind `kind` with a new uid; updated now.
    pub fn new_enhancement(kind: EnhanceKind, fresh_id: &str, templates: &Templates) -> (res: Result<
        Self,
        PrfError,
    >)
        ensures
            res matches Ok(item) && item@ == enhancement_item(
                kind,
                None,
                fresh_id@,
                *templates,
                item@.updated->0,
            ),
    {
        match kind {
            EnhanceKind::Merge => Self::from_merge(None, fresh_id, templates),
            EnhanceKind::Script => Self::from_script(None, fresh_id, templates),
            EnhanceKind::Rules => Self::from_rules(fresh_id, templates),
            EnhanceKind::Proxies => Self::from_proxies(fresh_id, templates),
            EnhanceKind::Groups => Self::from_groups(fresh_id, templates),
        }
    }
}

/// The enhancement items that a profile refers to, by uid.
#[derive(Debug)]
pub struct EnhanceRefs {
    pub merge: Option<String>,
    pub script: Option<String>,
    pub rules: Option<String>,
    pub proxies: Option<String>,
    pub groups: Option<String>,
}

/// The value of an `EnhanceRefs`.
pub struct EnhanceRefsView {
    pub merge: Option<Seq<char>>,
    pub script: Option<Seq<char>>,
    pub rules: Option<Seq<char>>,
    pub proxies: Option<Seq<char>>,
    pub groups: Option<Seq<char>>,
}

impl View for EnhanceRefs {
    type V = EnhanceRefsView;

    open spec fn view(&self) -> EnhanceRefsView {
        EnhanceRefsView {
            merge: ov(self.merge),
            script: ov(self.script),
            rules: ov(self.rules),
            proxies: ov(self.proxies),
            groups: ov(self.groups),
        }
    }
}

/// No references.
pub open spec fn no_refs() -> EnhanceRefsView {
    EnhanceRefsView { merge: None, script: None, rules: None, proxies: None, groups: None }
}

/// The references that the options `option` hold.
pub open spec fn refs_of(option: Option<PrfOptionView>) -> EnhanceRefsView {
    match option {
        Some(o) => EnhanceRefsView {
            merge: o.merge,
            script: o.script,
            rules: o.rules,
            proxies: o.proxies,
            groups: o.groups,
        },
        None => no_refs(),
    }
}

/// The reference to the item of kind `kind`.
pub open spec fn ref_of(r: EnhanceRefsView, kind: EnhanceKind) -> Option<Seq<char>> {
    match kind {
        EnhanceKind::Merge => r.merge,
        EnhanceKind::Script => r.script,
        EnhanceKind::Rules => r.rules,
        EnhanceKind::Proxies => r.proxies,
        EnhanceKind::Groups => r.groups,
    }
}

/// `r` with the reference to the item of kind `kind` replaced by `uid`.
pub open spec fn with_ref(r: EnhanceRefsView, kind: EnhanceKind, uid: Option<Seq<char>>) -> EnhanceRefsView {
    match kind {
        EnhanceKind::Merge => EnhanceRefsView { merge: uid, ..r },
        EnhanceKind::Script => EnhanceRefsView { script: uid, ..r },
        EnhanceKind::Rules => EnhanceRefsView { rules: uid, ..r },
        EnhanceKind::Proxies => EnhanceRefsView { proxies: uid, ..r },
        EnhanceKind::Groups => EnhanceRefsView { groups: uid, ..r },
    }
}

/// `kind` where `o` is none.
pub open spec fn kind_if_none(o: Option<Seq<char>>, kind: EnhanceKind) -> Seq<EnhanceKind> {
    if o is None {
        seq![kind]
    } else {
        Seq::empty()
    }
}

/// The kinds whose reference is missing, in the order merge, script, rules, proxies,
/// groups: the items to create.
pub open spec fn missing_kinds(r: EnhanceRefsView) -> Seq<EnhanceKind> {
    kind_if_none(r.merge, EnhanceKind::Merge) + kind_if_none(r.script, EnhanceKind::Script)
        + kind_if_none(r.rules, EnhanceKind::Rules) + kind_if_none(
        r.proxies,
        EnhanceKind::Proxies,
    ) + kind_if_none(r.groups, EnhanceKind::Groups)
}

/// The options `o` with their references replaced by `r`.
pub open spec fn with_refs(o: PrfOptionView, r: EnhanceRefsView) -> PrfOptionView {
    PrfOptionView {
        merge: r.merge,
        script: r.script,
        rules: r.rules,
        proxies: r.proxies,
        groups: r.groups,
        ..o
    }
}

impl EnhanceRefs {
    /// No references.
    pub fn none() -> (res: Self)
        ensures
            res@ == no_refs(),
    {
        EnhanceRefs { merge: None, script: None, rules: None, proxies: None, groups: None }
    }

    /// The references that the options `option` hold.
    pub fn from_option(option: Option<&PrfOption>) -> (res: Self)
        ensures
            res@ == refs_of(option_view(option)),
    {
        match option {
            Some(o) => EnhanceRefs {
                merge: clone_opt(&o.merge),
                script: clone_opt(&o.script),
                rules: clone_opt(&o.rules),
                proxies: clone_opt(&o.proxies),
                groups: clone_opt(&o.groups),
            },
            None => EnhanceRefs::none(),
        }
    }

    /// The kinds whose reference is missing, in creation order.
    pub fn missing(&self) -> (res: Vec<EnhanceKind>)
        ensures
            res@ == missing_kinds(self@),
    {
        let mut res: Vec<EnhanceKind> = Vec::new();
        if self.merge.is_none() {
            res.push(EnhanceKind::Merge);
        }
        if self.script.is_none() {
            res.push(EnhanceKind::Script);
        }
        if self.rules.is_none() {
            res.push(EnhanceKind::Rules);
        }
        if self.proxies.is_none() {
            res.push(EnhanceKind::Proxies);
        }
        if self.groups.is_none() {
            res.push(EnhanceKind::Groups);
        }
        assert(res@ =~= missing_kinds(self@));
        res
    }

    /// Refers to `uid` for the item of kind `kind`.
    pub fn set(&mut self, kind: EnhanceKind, uid: Option<String>)
        ensures
            final(self)@ == with_ref(old(self)@, kind, ov(uid)),
    {
        match kind {
            EnhanceKind::Merge => self.merge = uid,
            EnhanceKind::Script => self.script = uid,
            EnhanceKind::Rules => self.rules = uid,
            EnhanceKind::Proxies => self.proxies = uid,
            EnhanceKind::Groups => self.groups = uid,
        }
    }
}

/// Setting a reference gives it back, and leaves the others as they were.
pub proof fn lemma_set_ref_then_read(r: EnhanceRefsView, kind: EnhanceKind, other: EnhanceKind, uid: Option<Seq<char>>)
    ensures
        ref_of(with_ref(r, kind, uid), kind) == uid,
        other != kind ==> ref_of(with_ref(r, kind, uid), other) == ref_of(r, other),
{
}

/// A kind is missing exactly where its reference is none.
pub proof fn lemma_missing_exactly_unset(r: EnhanceRefsView, kind: EnhanceKind)
    ensures
        missing_kinds(r).contains(kind) <==> ref_of(r, kind) is None,
{
    let m = missing_kinds(r);
    if ref_of(r, kind) is None {
        match kind {
            EnhanceKind::Merge => assert(m[0] == kind),
            EnhanceKind::Script => assert(m[kind_if_none(r.merge, EnhanceKind::Merge).len() as int] == kind),
            EnhanceKind::Rules => assert(m[(kind_if_none(r.merge, EnhanceKind::Merge).len() + kind_if_none(r.script, EnhanceKind::Script).len()) as int] == kind),
            EnhanceKind::Proxies => assert(m[(kind_if_none(r.merge, EnhanceKind::Merge).len() + kind_if_none(r.script, EnhanceKind::Script).len() + kind_if_none(r.rules, EnhanceKind::Rules).len()) as int] == kind),
            EnhanceKind::Groups => assert(m[m.len() - 1] == kind),
        }
    } else {
        assert forall|i: int| 0 <= i < m.len() implies m[i] != kind by {
        }
    }
}

/// Filling every missing reference leaves nothing missing.
pub proof fn lemma_filling_missing_completes(r: EnhanceRefsView, uids: Seq<Seq<char>>)
    requires
        uids.len() == missing_kinds(r).len(),
    ensures
        missing_kinds(fill_refs(r, missing_kinds(r), uids)).len() == 0,
{
    lemma_fill_sets_each(r, missing_kinds(r), uids);
    let f = fill_refs(r, missing_kinds(r), uids);
    assert forall|k: EnhanceKind| ref_of(f, k) is Some by {
        lemma_missing_exactly_unset(r, k);
        if ref_of(r, k) is None {
            let i = choose|i: int| 0 <= i < missing_kinds(r).len() && missing_kinds(r)[i] == k;
            assert(missing_kinds(r)[i] == k);
        }
    }
    if missing_kinds(f).len() > 0 {
        let k = missing_kinds(f)[0];
        assert(missing_kinds(f).contains(k));
        lemma_missing_exactly_unset(f, k);
    }
}

/// `r` with each kind of `kinds` referring to the uid at the same place in `uids`.
pub open spec fn fill_refs(r: EnhanceRefsView, kinds: Seq<EnhanceKind>, uids: Seq<Seq<char>>) -> EnhanceRefsView
    decreases kinds.len(),
{
    if kinds.len() == 0 || uids.len() == 0 {
        r
    } else {
        fill_refs(with_ref(r, kinds[0], Some(uids[0])), kinds.drop_first(), uids.drop_first())
    }
}

proof fn lemma_fill_sets_each(r: EnhanceRefsView, kinds: Seq<EnhanceKind>, uids: Seq<Seq<char>>)
    requires
        uids.len() == kinds.len(),
    ensures
        forall|k: EnhanceKind| ref_of(r, k) is Some ==> #[trigger] ref_of(fill_refs(r, kinds, uids), k) is Some,
        forall|i: int| 0 <= i < kinds.len() ==> ref_of(fill_refs(r, kinds, uids), #[trigger] kinds[i]) is Some,
    decreases kinds.len(),
{
    if kinds.len() > 0 {
        let r2 = with_ref(r, kinds[0], Some(uids[0]));
        lemma_fill_sets_each(r2, kinds.drop_first(), uids.drop_first());
        assert forall|k: EnhanceKind| ref_of(r, k) is Some implies #[trigger] ref_of(fill_refs(r, kinds, uids), k) is Some by {
            lemma_set_ref_then_read(r, kinds[0], k, Some(uids[0]));
        }
        assert forall|i: int| 0 <= i < kinds.len() implies ref_of(fill_refs(r, kinds, uids), #[trigger] kinds[i]) is Some by {
            if i == 0 {
                lemma_set_ref_then_read(r, kinds[0], kinds[0], Some(uids[0]));
            } else {
                assert(kinds.drop_first()[i - 1] == kinds[i]);
            }
        }
    }
}

/// A profile item that still lacks its `updated` stamp and its references to
/// enhancement items, which are created (and stored) before the item is finished.
#[derive(Debug)]
pub struct ProfileDraft {
    pub item: PrfItem,
    pub refs: EnhanceRefs,
}

/// The item that a draft becomes when finished at `updated`: its options, or empty
/// options, refer to the enhancement items `refs`.
pub open spec fn finished_item(item: PrfItemView, refs: EnhanceRefsView, updated: usize) -> PrfItemView {
    PrfItemView {
        updated: Some(updated),
        option: Some(
            with_refs(
                match item.option {
                    Some(o) => o,
                    None => empty_option(),
                },
                refs,
            ),
        ),
        ..item
    }
}

impl ProfileDraft {
    /// The kinds of enhancement item to create before the draft is finished.
    pub fn missing(&self) -> (res: Vec<EnhanceKind>)
        ensures
            res@ == missing_kinds(self.refs@),
    {
        self.refs.missing()
    }

    /// Records the uid of the created item of kind `kind`.
    pub fn set_ref(&mut self, kind: EnhanceKind, uid: Option<String>)
        ensures
            final(self).item@ == old(self).item@,
            final(self).refs@ == with_ref(old(self).refs@, kind, ov(uid)),
    {
        self.refs.set(kind, uid);
    }

    /// The finished item, updated at `updated`.
    pub fn finish_at(self, updated: usize) -> (res: PrfItem)
        ensures
            res@ == finished_item(self.item@, self.refs@, updated),
    {
        let ProfileDraft { item, refs } = self;
        let mut option = match item.option {
            Some(o) => o,
            None => PrfOption::empty(),
        };
        option.merge = refs.merge;
        option.script = refs.script;
        option.rules = refs.rules;
        option.proxies = refs.proxies;
        option.groups = refs.groups;
        PrfItem { updated: Some(updated), option: Some(option), ..item }
    }

    /// The finished item, updated now.
    pub fn finish(self) -> (res: PrfItem)
        ensures
            res@.updated is Some,
            res@ == finished_item(self.item@, self.refs@, res@.updated->0),
    {
        let updated = now_updated();
        self.finish_at(updated)
    }
}

/// A finished draft refers to exactly the enhancement items recorded in it, and keeps
/// everything else the draft held.
pub proof fn lemma_finished_refers_to_refs(
    item: PrfItemView,
    refs: EnhanceRefsView,
    updated: usize,
    kind: EnhanceKind,
)
    ensures
        current_ref(finished_item(item, refs, updated), kind) == ref_of(refs, kind),
        finished_item(item, refs, updated).updated == Some(updated),
        finished_item(item, refs, updated).uid == item.uid,
        finished_item(item, refs, updated).file == item.file,
        finished_item(item, refs, updated).file_data == item.file_data,
{
}

/// The file of an enhancement item is named by its uid and its kind's extension, and a
/// new uid starts with the kind's letter.
pub proof fn lemma_enhancement_file_named_by_uid(
    kind: EnhanceKind,
    uid: Option<Seq<char>>,
    fresh_id: Seq<char>,
    templates: Templates,
    updated: usize,
)
    ensures
        enhancement_item(kind, uid, fresh_id, templates, updated).file == Some(
            enhancement_item(kind, uid, fresh_id, templates, updated).uid->0 + file_extension(kind),
        ),
        uid is None ==> enhancement_item(kind, uid, fresh_id, templates, updated).uid == Some(
            uid_prefix(kind) + fresh_id,
        ),
{
}

} // verus!
