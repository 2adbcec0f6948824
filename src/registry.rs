use vstd::prelude::*;

use crate::store::{EntryView, TemplateSet};
use crate::template::{Template, TemplateView, ValidationError, template_is_safe, validate_template};

verus! {

pub type TemplateMap = Map<Seq<char>, TemplateView>;

/// What a legacy per-key file in the user template directory turned out to hold.
pub enum LegacyFile {
    /// A JSON object of templates by key.
    Keyed(TemplateSet),
    /// One bare template, keyed by the file's stem.
    Single(String, Template),
    /// Neither shape: the file is left alone.
    Unrecognized,
}

pub ghost enum LegacyView {
    Keyed(TemplateMap),
    Single(Seq<char>, TemplateView),
    Unrecognized,
}

impl View for LegacyFile {
    type V = LegacyView;

    open spec fn view(&self) -> LegacyView {
        match self {
            LegacyFile::Keyed(m) => LegacyView::Keyed(m@),
            LegacyFile::Single(k, t) => LegacyView::Single(k@, t@),
            LegacyFile::Unrecognized => LegacyView::Unrecognized,
        }
    }
}

impl LegacyFile {
    pub open spec fn wf(&self) -> bool {
        match self {
            LegacyFile::Keyed(m) => m.wf(),
            _ => true,
        }
    }
}

/// The consolidated override file as it was found on disk.
pub enum Consolidated {
    Missing,
    Malformed,
    Present(TemplateSet),
}

pub ghost enum ConsolidatedView {
    Missing,
    Malformed,
    Present(TemplateMap),
}

impl View for Consolidated {
    type V = ConsolidatedView;

    open spec fn view(&self) -> ConsolidatedView {
        match self {
            Consolidated::Missing => ConsolidatedView::Missing,
            Consolidated::Malformed => ConsolidatedView::Malformed,
            Consolidated::Present(m) => ConsolidatedView::Present(m@),
        }
    }
}

impl Consolidated {
    pub open spec fn wf(&self) -> bool {
        match self {
            Consolidated::Present(m) => m.wf(),
            _ => true,
        }
    }
}

/// Failures of the template store.
pub enum StoreError {
    /// The consolidated override file does not parse as a map of templates.
    MalformedOverrides,
    /// No architecture of that key in the resolved set.
    KeyNotFound(String),
    /// No per-user configuration directory could be determined.
    NoConfigDir,
}

/// A legacy file is taken in (and then deleted) when it had one of the two shapes.
pub open spec fn ingested(f: LegacyView) -> bool {
    !(f is Unrecognized)
}

/// The entries gathered from legacy files, later files winning.
pub open spec fn fold_legacy_view(s: Seq<LegacyView>) -> TemplateMap
    decreases s.len(),
{
    if s.len() == 0 {
        Map::empty()
    } else {
        let acc = fold_legacy_view(s.drop_last());
        match s.last() {
            LegacyView::Keyed(m) => acc.union_prefer_right(m),
            LegacyView::Single(k, t) => acc.insert(k, t),
            LegacyView::Unrecognized => acc,
        }
    }
}

pub open spec fn any_ingested(s: Seq<LegacyView>) -> bool {
    exists|i: int| 0 <= i < s.len() && ingested(s[i])
}

/// The templates of an override file; a missing one holds none.
pub open spec fn overrides_of(c: ConsolidatedView) -> TemplateMap {
    match c {
        ConsolidatedView::Present(m) => m,
        _ => Map::empty(),
    }
}

/// What one load of the store yields and does.
pub ghost struct LoadView {
    /// The resolved key to template mapping.
    pub templates: TemplateMap,
    /// For each legacy file, whether it is deleted.
    pub removed: Seq<bool>,
    /// The new content of the consolidated file, when it is rewritten.
    pub written: Option<TemplateMap>,
}

/// One load: fold legacy files into the override file, then lay the overrides
/// over the built-in set. `None` when the override file cannot be read as a map.
pub open spec fn load_spec(b: TemplateMap, legacy: Seq<LegacyView>, c: ConsolidatedView) -> Option<LoadView> {
    if any_ingested(legacy) {
        if c is Malformed {
            None
        } else {
            let w = overrides_of(c).union_prefer_right(fold_legacy_view(legacy));
            Some(LoadView {
                templates: b.union_prefer_right(w),
                removed: legacy.map_values(|f: LegacyView| ingested(f)),
                written: Some(w),
            })
        }
    } else if c is Malformed {
        None
    } else {
        Some(LoadView {
            templates: b.union_prefer_right(overrides_of(c)),
            removed: legacy.map_values(|f: LegacyView| ingested(f)),
            written: None,
        })
    }
}

/// The outcome of a load, for the caller to carry out: write the new override
/// file first, then delete the legacy files marked as removed.
pub struct LoadOutcome {
    pub templates: TemplateSet,
    pub removed: Vec<bool>,
    pub written: Option<TemplateSet>,
}

impl View for LoadOutcome {
    type V = LoadView;

    open spec fn view(&self) -> LoadView {
        LoadView {
            templates: self.templates@,
            removed: self.removed@,
            written: match self.written {
                Some(w) => Some(w@),
                None => None,
            },
        }
    }
}

pub open spec fn legacy_view(legacy: &Vec<LegacyFile>) -> Seq<LegacyView> {
    legacy@.map_values(|f: LegacyFile| f@)
}

/// Gathers the templates of the legacy files and marks which are taken in.
pub fn fold_legacy(legacy: &Vec<LegacyFile>) -> (r: (TemplateSet, Vec<bool>))
    requires
        forall|i: int| 0 <= i < legacy@.len() ==> (#[trigger] legacy@[i]).wf(),
    ensures
        r.0.wf(),
        r.0@ == fold_legacy_view(legacy_view(legacy)),
        r.1@ == legacy_view(legacy).map_values(|f: LegacyView| ingested(f)),
{
    let ghost lv = legacy_view(legacy);
    let mut acc = TemplateSet::new();
    let mut marks: Vec<bool> = Vec::new();
    let mut i: usize = 0;
    while i < legacy.len()
        invariant
            lv == legacy_view(legacy),
            forall|j: int| 0 <= j < legacy@.len() ==> (#[trigger] legacy@[j]).wf(),
            i <= legacy@.len(),
            acc.wf(),
            acc@ == fold_legacy_view(lv.take(i as int)),
            marks@ =~= lv.take(i as int).map_values(|f: LegacyView| ingested(f)),
        decreases legacy@.len() - i,
    {
        assert(lv.take(i + 1).drop_last() =~= lv.take(i as int));
        assert(lv[i as int] == legacy@[i as int]@);
        match &legacy[i] {
            LegacyFile::Keyed(m) => {
                acc.overlay(m);
                marks.push(true);
            },
            LegacyFile::Single(k, t) => {
                acc.insert(k.clone(), t.copy());
                marks.push(true);
            },
            LegacyFile::Unrecognized => {
                marks.push(false);
            },
        }
        assert(lv.take(i + 1).map_values(|f: LegacyView| ingested(f)) =~= lv.take(i as int).map_values(
            |f: LegacyView| ingested(f),
        ).push(ingested(lv[i as int])));
        i += 1;
    }
    assert(lv.take(legacy@.len() as int) =~= lv);
    (acc, marks)
}

/// Resolves the template set: built-ins, then legacy files folded into the
/// override file, then the override file, later sources winning by key.
pub fn load_templates(builtins: &TemplateSet, legacy: &Vec<LegacyFile>, consolidated: Consolidated) -> (r: Result<LoadOutcome, StoreError>)
    requires
        builtins.wf(),
        consolidated.wf(),
        forall|i: int| 0 <= i < legacy@.len() ==> (#[trigger] legacy@[i]).wf(),
    ensures
        r is Ok <==> load_spec(builtins@, legacy_view(legacy), consolidated@) is Some,
        r matches Ok(o) ==> o@ == load_spec(builtins@, legacy_view(legacy), consolidated@)->Some_0,
        r matches Err(e) ==> e is MalformedOverrides,
{
    let ghost lv = legacy_view(legacy);
    let (migrated, removed) = fold_legacy(legacy);
    let mut any = false;
    let mut i: usize = 0;
    while i < removed.len()
        invariant
            removed@ == lv.map_values(|f: LegacyView| ingested(f)),
            i <= removed@.len(),
            any <==> exists|j: int| 0 <= j < i && ingested(lv[j]),
        decreases removed@.len() - i,
    {
        if removed[i] {
            any = true;
        }
        i += 1;
    }
    assert(any == any_ingested(lv));
    let (overrides, written) = if any {
        let mut w = match consolidated {
            Consolidated::Malformed => {
                return Err(StoreError::MalformedOverrides);
            },
            Consolidated::Missing => TemplateSet::new(),
            Consolidated::Present(m) => m,
        };
        w.overlay(&migrated);
        let copy = w.copy();
        (copy, Some(w))
    } else {
        match consolidated {
            Consolidated::Malformed => {
                return Err(StoreError::MalformedOverrides);
            },
            Consolidated::Missing => (TemplateSet::new(), None),
            Consolidated::Present(m) => (m, None),
        }
    };
    let mut templates = builtins.copy();
    templates.overlay(&overrides);
    Ok(LoadOutcome { templates, removed, written })
}

/// Stores `template` under `key` in the override file's map, after checking
/// its paths. A missing or unreadable override file counts as empty, so a
/// first save always goes through. Returns the whole map to write back.
pub fn save_local_template(key: &str, template: &Template, current: Consolidated) -> (r: Result<TemplateSet, ValidationError>)
    requires
        current.wf(),
    ensures
        r is Ok <==> template_is_safe(template@),
        r matches Ok(m) ==> m.wf() && m@ == overrides_of(current@).insert(key@, template@),
        r matches Err(e) ==> crate::template::error_fits(template@, e),
{
    match validate_template(template) {
        Err(e) => Err(e),
        Ok(()) => {
            let mut m = match current {
                Consolidated::Present(m) => m,
                _ => TemplateSet::new(),
            };
            m.insert(String::from_str(key), template.copy());
            Ok(m)
        },
    }
}

/// What removing a key from the override file comes to.
pub enum Removal {
    /// The key was not in the override file: nothing is written.
    NotFound,
    /// The key was taken out: the map to write back.
    Removed(TemplateSet),
}

/// Takes `key` out of the override file only; built-in templates stay.
pub fn remove_local_template(key: &str, current: Consolidated) -> (r: Result<Removal, StoreError>)
    requires
        current.wf(),
    ensures
        r is Err <==> current@ is Malformed,
        r matches Err(e) ==> e is MalformedOverrides,
        r matches Ok(Removal::NotFound) <==> !(current@ is Malformed) && !overrides_of(current@).contains_key(key@),
        r matches Ok(Removal::Removed(m)) ==> m.wf() && current@ is Present && m@ == overrides_of(current@).remove(key@),
{
    match current {
        Consolidated::Missing => Ok(Removal::NotFound),
        Consolidated::Malformed => Err(StoreError::MalformedOverrides),
        Consolidated::Present(m) => {
            let mut m = m;
            if m.remove(key) {
                Ok(Removal::Removed(m))
            } else {
                Ok(Removal::NotFound)
            }
        },
    }
}

/// The template of architecture `key`.
pub fn lookup<'a>(templates: &'a TemplateSet, key: &str) -> (r: Result<&'a Template, StoreError>)
    requires
        templates.wf(),
    ensures
        r is Ok <==> templates@.contains_key(key@),
        r matches Ok(t) ==> t@ == templates@[key@],
        r matches Err(e) ==> e matches StoreError::KeyNotFound(k) && k@ == key@,
{
    match templates.get(key) {
        Some(t) => Ok(t),
        None => {
            let e = StoreError::KeyNotFound(String::from_str(key));
            assert(e matches StoreError::KeyNotFound(k) && k@ == key@);
            Err(e)
        },
    }
}

/// The starting point for a new user template: `<key> Template`, a stock
/// description, `src` and `tests` folders and a backend `.gitignore`.
pub open spec fn skeleton_view(key: Seq<char>) -> TemplateView {
    TemplateView {
        name: key + " Template"@,
        description: "Edit this description"@,
        structure: seq!["src"@, "tests"@],
        files: seq![(".gitignore"@, "backend"@)],
    }
}

pub fn skeleton(key: &str) -> (r: Template)
    ensures
        r@ == skeleton_view(key@),
{
    let mut name = String::from_str(key);
    name.append(" Template");
    let r = Template {
        name,
        description: String::from_str("Edit this description"),
        structure: vec![String::from_str("src"), String::from_str("tests")],
        files: vec![(String::from_str(".gitignore"), String::from_str("backend"))],
    };
    assert(r.structure.deep_view() =~= seq!["src"@, "tests"@]);
    assert(r.files.deep_view() =~= seq![(".gitignore"@, "backend"@)]);
    r
}

/// What adding a user template comes to.
pub enum AddPlan {
    /// The key already resolves: open the override file for edit, replace nothing.
    OpenExisting,
    /// A new key: save this skeleton, then open the file for edit.
    Create(Template),
}

pub fn plan_add(resolved: &TemplateSet, key: &str) -> (r: AddPlan)
    requires
        resolved.wf(),
    ensures
        r is OpenExisting <==> resolved@.contains_key(key@),
        r matches AddPlan::Create(t) ==> t@ == skeleton_view(key@),
{
    if resolved.contains_key(key) {
        AddPlan::OpenExisting
    } else {
        AddPlan::Create(skeleton(key))
    }
}

/// A key of the override file resolves to the override's template, whatever
/// the built-in set holds under it (so long as no legacy file being migrated
/// brings the same key, which would replace the override entry first).
pub proof fn lemma_override_wins(b: TemplateMap, legacy: Seq<LegacyView>, m: TemplateMap, k: Seq<char>)
    requires
        m.contains_key(k),
        !fold_legacy_view(legacy).contains_key(k),
    ensures
        load_spec(b, legacy, ConsolidatedView::Present(m)) is Some,
        load_spec(b, legacy, ConsolidatedView::Present(m))->Some_0.templates.contains_key(k),
        load_spec(b, legacy, ConsolidatedView::Present(m))->Some_0.templates[k] == m[k],
{
}

/// Loading twice migrates once: once the files taken in are deleted and the
/// new override file is written, a second load takes nothing in, rewrites
/// nothing, and resolves to the same set.
pub proof fn lemma_migration_idempotent(b: TemplateMap, legacy: Seq<LegacyView>, c: ConsolidatedView)
    requires
        load_spec(b, legacy, c) is Some,
    ensures
        ({
            let first = load_spec(b, legacy, c)->Some_0;
            let left = legacy.filter(|f: LegacyView| !ingested(f));
            let c2 = match first.written {
                Some(w) => ConsolidatedView::Present(w),
                None => c,
            };
            &&& load_spec(b, left, c2) is Some
            &&& load_spec(b, left, c2)->Some_0.written is None
            &&& load_spec(b, left, c2)->Some_0.templates == first.templates
            &&& forall|i: int| 0 <= i < left.len() ==> !(#[trigger] load_spec(b, left, c2)->Some_0.removed[i])
        }),
{
    let left = legacy.filter(|f: LegacyView| !ingested(f));
    assert forall|i: int| 0 <= i < left.len() implies !ingested(#[trigger] left[i]) by {
        legacy.lemma_filter_pred(|f: LegacyView| !ingested(f), i);
    }
    assert(!any_ingested(left));
}

/// Removing an override key lets the key fall back to its built-in template,
/// or leaves it unresolved when no built-in has it.
pub proof fn lemma_removed_key_falls_back(b: TemplateMap, m: TemplateMap, k: Seq<char>)
    ensures
        ({
            let o = load_spec(b, Seq::empty(), ConsolidatedView::Present(m.remove(k)));
            &&& o is Some
            &&& o->Some_0.templates.contains_key(k) == b.contains_key(k)
            &&& b.contains_key(k) ==> o->Some_0.templates[k] == b[k]
        }),
{
    assert(!any_ingested(Seq::<LegacyView>::empty()));
}

/// The listing of templates: per entry, its key and name on one line and its
/// description indented on the next, then a blank line.
pub open spec fn listing_of(s: Seq<EntryView>) -> Seq<char>
    decreases s.len(),
{
    if s.len() == 0 {
        Seq::empty()
    } else {
        let (k, t) = s.last();
        listing_of(s.drop_last()) + "  "@ + k + " - "@ + t.name + "\n    "@ + t.description + "\n\n"@
    }
}

/// The text that lists the available architectures.
pub fn list_templates(templates: &TemplateSet) -> (r: String)
    ensures
        r@ == listing_of(templates.entries_view()),
{
    let ghost s = templates.entries_view();
    let mut out = String::new();
    let mut i: usize = 0;
    while i < templates.entries.len()
        invariant
            s == templates.entries_view(),
            i <= templates.entries@.len(),
            out@ == listing_of(s.take(i as int)),
        decreases templates.entries@.len() - i,
    {
        let (k, t) = &templates.entries[i];
        assert(s.take(i + 1).drop_last() =~= s.take(i as int));
        assert(s[i as int] == (k@, t@));
        out.append("  ");
        out.append(k.as_str());
        out.append(" - ");
        out.append(t.name.as_str());
        out.append("\n    ");
        out.append(t.description.as_str());
        out.append("\n\n");
        i += 1;
    }
    assert(s.take(templates.entries@.len() as int) =~= s);
    out
}

} // verus!
