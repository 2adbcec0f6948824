use vstd::prelude::*;

use crate::path::{is_absolute, is_absolute_path, contains_parent_component, path_is_safe};

verus! {

/// A project architecture: a display name, a short description, the folders
/// to create and the seed files, each with a free-form kind hint.
///
/// `files` pairs a relative path with its kind; the paths are meant to be
/// distinct, as in the JSON object the template is read from.
pub struct Template {
    pub name: String,
    pub description: String,
    pub structure: Vec<String>,
    pub files: Vec<(String, String)>,
}

/// The mathematical value of a [`Template`].
pub ghost struct TemplateView {
    pub name: Seq<char>,
    pub description: Seq<char>,
    pub structure: Seq<Seq<char>>,
    pub files: Seq<(Seq<char>, Seq<char>)>,
}

impl View for Template {
    type V = TemplateView;

    open spec fn view(&self) -> TemplateView {
        TemplateView {
            name: self.name@,
            description: self.description@,
            structure: self.structure.deep_view(),
            files: self.files.deep_view(),
        }
    }
}

/// Every folder and every file path stays below the project root.
pub open spec fn template_is_safe(t: TemplateView) -> bool {
    &&& forall|i: int| 0 <= i < t.structure.len() ==> path_is_safe(#[trigger] t.structure[i])
    &&& forall|i: int| 0 <= i < t.files.len() ==> path_is_safe(#[trigger] t.files[i].0)
}

/// Why a template was refused: the first unsafe entry, folders before files.
pub enum ValidationError {
    AbsoluteDirectory(String),
    ParentInDirectory(String),
    AbsoluteFile(String),
    ParentInFile(String),
}

/// `p` is the entry at `i` of `s`, unsafe, and every entry before it is safe.
pub open spec fn first_unsafe_at(s: Seq<Seq<char>>, i: int, p: Seq<char>) -> bool {
    &&& 0 <= i < s.len()
    &&& s[i] == p
    &&& !path_is_safe(p)
    &&& forall|j: int| 0 <= j < i ==> path_is_safe(#[trigger] s[j])
}

pub open spec fn file_paths(t: TemplateView) -> Seq<Seq<char>> {
    t.files.map_values(|f: (Seq<char>, Seq<char>)| f.0)
}

/// The error that the validation of `t` reports.
pub open spec fn error_fits(t: TemplateView, e: ValidationError) -> bool {
    match e {
        ValidationError::AbsoluteDirectory(p) => exists|i: int|
            first_unsafe_at(t.structure, i, p@) && is_absolute_path(p@),
        ValidationError::ParentInDirectory(p) => exists|i: int|
            first_unsafe_at(t.structure, i, p@) && !is_absolute_path(p@),
        ValidationError::AbsoluteFile(p) => {
            &&& forall|j: int| 0 <= j < t.structure.len() ==> path_is_safe(#[trigger] t.structure[j])
            &&& exists|i: int| first_unsafe_at(file_paths(t), i, p@) && is_absolute_path(p@)
        },
        ValidationError::ParentInFile(p) => {
            &&& forall|j: int| 0 <= j < t.structure.len() ==> path_is_safe(#[trigger] t.structure[j])
            &&& exists|i: int| first_unsafe_at(file_paths(t), i, p@) && !is_absolute_path(p@)
        },
    }
}

/// Checks that no folder and no file of `t` is absolute or climbs out with `..`.
pub fn validate_template(t: &Template) -> (r: Result<(), ValidationError>)
    ensures
        r is Ok <==> template_is_safe(t@),
        r matches Err(e) ==> error_fits(t@, e),
{
    let mut i: usize = 0;
    while i < t.structure.len()
        invariant
            i <= t.structure@.len(),
            forall|j: int| 0 <= j < i ==> path_is_safe(#[trigger] t@.structure[j]),
        decreases t.structure@.len() - i,
    {
        let s = &t.structure[i];
        assert(t@.structure[i as int] == s@);
        if is_absolute(s.as_str()) {
            let c = s.clone();
            assert(first_unsafe_at(t@.structure, i as int, c@));
            let e = ValidationError::AbsoluteDirectory(c);
            assert(e matches ValidationError::AbsoluteDirectory(p) && p@ == c@);
            return Err(e);
        }
        if contains_parent_component(s.as_str()) {
            let c = s.clone();
            assert(first_unsafe_at(t@.structure, i as int, c@));
            let e = ValidationError::ParentInDirectory(c);
            assert(e matches ValidationError::ParentInDirectory(p) && p@ == c@);
            return Err(e);
        }
        i += 1;
    }
    let mut k: usize = 0;
    while k < t.files.len()
        invariant
            k <= t.files@.len(),
            forall|j: int| 0 <= j < t.structure@.len() ==> path_is_safe(#[trigger] t@.structure[j]),
            forall|j: int| 0 <= j < k ==> path_is_safe(#[trigger] t@.files[j].0),
        decreases t.files@.len() - k,
    {
        let f = &t.files[k].0;
        if is_absolute(f.as_str()) || contains_parent_component(f.as_str()) {
            let ghost fp = file_paths(t@);
            assert(t@.files[k as int].0 == f@);
            assert(fp[k as int] == f@);
            assert forall|j: int| 0 <= j < k implies path_is_safe(#[trigger] fp[j]) by {
                assert(fp[j] == t@.files[j].0);
            }
            assert(first_unsafe_at(fp, k as int, f@));
            let c = f.clone();
            if is_absolute(f.as_str()) {
                let e = ValidationError::AbsoluteFile(c);
                assert(e matches ValidationError::AbsoluteFile(p) && p@ == c@);
                return Err(e);
            } else {
                let e = ValidationError::ParentInFile(c);
                assert(e matches ValidationError::ParentInFile(p) && p@ == c@);
                return Err(e);
            }
        }
        k += 1;
    }
    Ok(())
}

} // verus!

verus! {

/// A copy of `v`, string by string.
pub fn copy_strings(v: &Vec<String>) -> (r: Vec<String>)
    ensures
        r.deep_view() == v.deep_view(),
{
    let mut r: Vec<String> = Vec::new();
    let mut i: usize = 0;
    while i < v.len()
        invariant
            i <= v@.len(),
            r.deep_view() =~= v.deep_view().take(i as int),
        decreases v@.len() - i,
    {
        let ghost before = r.deep_view();
        let c = v[i].clone();
        r.push(c);
        assert(r.deep_view() =~= before.push(v.deep_view()[i as int]));
        assert(v.deep_view().take(i + 1) =~= v.deep_view().take(i as int).push(v.deep_view()[i as int]));
        i += 1;
    }
    assert(r.deep_view() =~= v.deep_view());
    r
}

/// A copy of `v`, pair by pair.
pub fn copy_pairs(v: &Vec<(String, String)>) -> (r: Vec<(String, String)>)
    ensures
        r.deep_view() == v.deep_view(),
{
    let mut r: Vec<(String, String)> = Vec::new();
    let mut i: usize = 0;
    while i < v.len()
        invariant
            i <= v@.len(),
            r.deep_view() =~= v.deep_view().take(i as int),
        decreases v@.len() - i,
    {
        let ghost before = r.deep_view();
        let c = (v[i].0.clone(), v[i].1.clone());
        r.push(c);
        assert(r.deep_view() =~= before.push(v.deep_view()[i as int]));
        assert(v.deep_view().take(i + 1) =~= v.deep_view().take(i as int).push(v.deep_view()[i as int]));
        i += 1;
    }
    assert(r.deep_view() =~= v.deep_view());
    r
}

impl Template {
    /// An equal template that owns its own strings.
    pub fn copy(&self) -> (r: Template)
        ensures
            r@ == self@,
    {
        Template {
            name: self.name.clone(),
            description: self.description.clone(),
            structure: copy_strings(&self.structure),
            files: copy_pairs(&self.files),
        }
    }
}

} // verus!
