use vstd::prelude::*;

use crate::path::same_text;
use crate::template::{Template, TemplateView, template_is_safe};

verus! {

/// The closed set of seed-file kinds; any other hint is `Plain`.
#[derive(Debug, Clone, Copy, PartialEq, Eq, Structural)]
pub enum FileKind {
    Backend,
    Frontend,
    Python,
    Plain,
}

pub open spec fn kind_of(hint: Seq<char>) -> FileKind {
    if hint == "backend"@ {
        FileKind::Backend
    } else if hint == "frontend"@ {
        FileKind::Frontend
    } else if hint == "python"@ {
        FileKind::Python
    } else {
        FileKind::Plain
    }
}

/// The body written for a seed file of each kind: ignore patterns for the
/// three known kinds, and an empty file for any other hint.
pub open spec fn content_of(kind: FileKind) -> Seq<char> {
    match kind {
        FileKind::Backend => "target/\n.env\n*.log\n"@,
        FileKind::Frontend => "node_modules/\ndist/\n.env\n"@,
        FileKind::Python => "__pycache__/\n*.pyc\n.venv/\n"@,
        FileKind::Plain => Seq::empty(),
    }
}

/// The kind that a hint selects.
pub fn file_kind(hint: &str) -> (r: FileKind)
    ensures
        r == kind_of(hint@),
{
    if same_text(hint, "backend") {
        FileKind::Backend
    } else if same_text(hint, "frontend") {
        FileKind::Frontend
    } else if same_text(hint, "python") {
        FileKind::Python
    } else {
        FileKind::Plain
    }
}

/// The body of a seed file of `kind`.
pub fn file_content(kind: FileKind) -> (r: String)
    ensures
        r@ == content_of(kind),
{
    match kind {
        FileKind::Backend => String::from_str("target/\n.env\n*.log\n"),
        FileKind::Frontend => String::from_str("node_modules/\ndist/\n.env\n"),
        FileKind::Python => String::from_str("__pycache__/\n*.pyc\n.venv/\n"),
        FileKind::Plain => String::new(),
    }
}

pub open spec fn join_view(dir: Seq<char>, rel: Seq<char>) -> Seq<char> {
    dir + "/"@ + rel
}

/// `rel` below `dir`.
pub fn join_path(dir: &str, rel: &str) -> (r: String)
    ensures
        r@ == join_view(dir@, rel@),
{
    let mut r = String::from_str(dir);
    r.append("/");
    r.append(rel);
    r
}

/// The generated README: the project name as title, then the template's name
/// and description.
pub open spec fn readme_view(name: Seq<char>, t: TemplateView) -> Seq<char> {
    "# "@ + name + "\n\nArchitecture: "@ + t.name + "\n\n"@ + t.description + "\n"@
}

pub fn readme_text(name: &str, t: &Template) -> (r: String)
    ensures
        r@ == readme_view(name@, t@),
{
    let mut r = String::from_str("# ");
    r.append(name);
    r.append("\n\nArchitecture: ");
    r.append(t.name.as_str());
    r.append("\n\n");
    r.append(t.description.as_str());
    r.append("\n");
    r
}

/// The destination directory as found before creation.
#[derive(Debug, Clone, Copy, PartialEq, Eq, Structural)]
pub enum DestState {
    Absent,
    Empty,
    NonEmpty,
}

/// One filesystem step. `CreateDir` creates the directory and its missing
/// ancestors and accepts one that exists; `WriteFile` creates the missing
/// parents and then writes the whole file.
pub enum FsOp {
    CreateDir(String),
    WriteFile(String, String),
}

pub ghost enum FsOpView {
    CreateDir(Seq<char>),
    WriteFile(Seq<char>, Seq<char>),
}

impl View for FsOp {
    type V = FsOpView;

    open spec fn view(&self) -> FsOpView {
        match self {
            FsOp::CreateDir(p) => FsOpView::CreateDir(p@),
            FsOp::WriteFile(p, c) => FsOpView::WriteFile(p@, c@),
        }
    }
}

pub open spec fn ops_view(ops: Seq<FsOp>) -> Seq<FsOpView> {
    ops.map_values(|o: FsOp| o@)
}

pub open spec fn dir_ops(name: Seq<char>, t: TemplateView) -> Seq<FsOpView> {
    t.structure.map_values(|d: Seq<char>| FsOpView::CreateDir(join_view(name, d)))
}

pub open spec fn file_ops(name: Seq<char>, t: TemplateView) -> Seq<FsOpView> {
    t.files.map_values(
        |f: (Seq<char>, Seq<char>)| FsOpView::WriteFile(join_view(name, f.0), content_of(kind_of(f.1))),
    )
}

pub open spec fn readme_ops(name: Seq<char>, t: TemplateView, write: bool) -> Seq<FsOpView> {
    if write {
        seq![FsOpView::WriteFile(join_view(name, "README.md"@), readme_view(name, t))]
    } else {
        Seq::empty()
    }
}

/// The steps that materialize `t` as project `name`, in order: the project
/// directory, each folder, each seed file, then the README when asked for.
pub open spec fn create_ops(name: Seq<char>, t: TemplateView, write_readme: bool) -> Seq<FsOpView> {
    seq![FsOpView::CreateDir(name)] + dir_ops(name, t) + file_ops(name, t) + readme_ops(name, t, write_readme)
}

/// The steps of a creation, or `None` when it is refused.
pub open spec fn plan_outcome(
    name: Seq<char>,
    t: TemplateView,
    readme_gen: bool,
    force: bool,
    dest: DestState,
    readme_exists: bool,
) -> Option<Seq<FsOpView>> {
    if dest == DestState::NonEmpty && !force {
        None
    } else {
        Some(create_ops(name, t, readme_gen && (!readme_exists || force)))
    }
}

/// Why a project could not be created.
pub enum CreateError {
    /// The destination holds files and overwriting was not asked for.
    DestinationExists(String),
    /// A filesystem step failed on this path.
    Io(String),
}

/// The plan for creating project `name` from `t`. Refuses a populated
/// destination unless `force`; a README that exists is rewritten only with
/// `force`.
pub fn plan_create(name: &str, t: &Template, readme_gen: bool, force: bool, dest: DestState, readme_exists: bool) -> (r: Result<Vec<FsOp>, CreateError>)
    requires
        template_is_safe(t@),
    ensures
        r is Err <==> plan_outcome(name@, t@, readme_gen, force, dest, readme_exists) is None,
        r matches Err(e) ==> e matches CreateError::DestinationExists(p) && p@ == name@,
        r matches Ok(ops) ==> ops_view(ops@) == plan_outcome(name@, t@, readme_gen, force, dest, readme_exists)->Some_0,
{
    if dest == DestState::NonEmpty && !force {
        let e = CreateError::DestinationExists(String::from_str(name));
        assert(e matches CreateError::DestinationExists(p) && p@ == name@);
        return Err(e);
    }
    let ghost tv = t@;
    let mut ops: Vec<FsOp> = Vec::new();
    ops.push(FsOp::CreateDir(String::from_str(name)));
    assert(ops_view(ops@) =~= seq![FsOpView::CreateDir(name@)]);
    let mut i: usize = 0;
    while i < t.structure.len()
        invariant
            tv == t@,
            i <= t.structure@.len(),
            ops_view(ops@) =~= seq![FsOpView::CreateDir(name@)] + dir_ops(name@, tv).take(i as int),
        decreases t.structure@.len() - i,
    {
        let p = join_path(name, t.structure[i].as_str());
        let ghost before = ops_view(ops@);
        ops.push(FsOp::CreateDir(p));
        assert(ops_view(ops@) =~= before.push(dir_ops(name@, tv)[i as int]));
        assert(dir_ops(name@, tv).take(i + 1) =~= dir_ops(name@, tv).take(i as int).push(dir_ops(name@, tv)[i as int]));
        i += 1;
    }
    assert(dir_ops(name@, tv).take(t.structure@.len() as int) =~= dir_ops(name@, tv));
    let ghost head = seq![FsOpView::CreateDir(name@)] + dir_ops(name@, tv);
    let mut k: usize = 0;
    while k < t.files.len()
        invariant
            tv == t@,
            head == seq![FsOpView::CreateDir(name@)] + dir_ops(name@, tv),
            k <= t.files@.len(),
            ops_view(ops@) =~= head + file_ops(name@, tv).take(k as int),
        decreases t.files@.len() - k,
    {
        let p = join_path(name, t.files[k].0.as_str());
        let c = file_content(file_kind(t.files[k].1.as_str()));
        let ghost before = ops_view(ops@);
        ops.push(FsOp::WriteFile(p, c));
        assert(ops_view(ops@) =~= before.push(file_ops(name@, tv)[k as int]));
        assert(file_ops(name@, tv).take(k + 1) =~= file_ops(name@, tv).take(k as int).push(file_ops(name@, tv)[k as int]));
        k += 1;
    }
    assert(file_ops(name@, tv).take(t.files@.len() as int) =~= file_ops(name@, tv));
    let write = readme_gen && (!readme_exists || force);
    if write {
        let ghost before = ops_view(ops@);
        ops.push(FsOp::WriteFile(join_path(name, "README.md"), readme_text(name, t)));
        assert(ops_view(ops@) =~= before.push(FsOpView::WriteFile(join_view(name@, "README.md"@), readme_view(name@, tv))));
    }
    assert(ops_view(ops@) =~= create_ops(name@, tv, write));
    Ok(ops)
}

/// Each step repeated leaves what it left the first time (directories are
/// created if missing, files are written whole), so equal plans leave equal
/// trees. A forced creation plans the same steps whatever the destination held.
pub proof fn lemma_forced_plan_is_stable(
    name: Seq<char>,
    t: TemplateView,
    readme_gen: bool,
    first: DestState,
    first_readme: bool,
    second: DestState,
    second_readme: bool,
)
    ensures
        plan_outcome(name, t, readme_gen, true, first, first_readme) is Some,
        plan_outcome(name, t, readme_gen, true, first, first_readme) == plan_outcome(
            name,
            t,
            readme_gen,
            true,
            second,
            second_readme,
        ),
{
}

/// A populated destination is refused without `force` and accepted with it.
pub proof fn lemma_force_boundary(name: Seq<char>, t: TemplateView, readme_gen: bool, readme_exists: bool)
    ensures
        plan_outcome(name, t, readme_gen, false, DestState::NonEmpty, readme_exists) is None,
        plan_outcome(name, t, readme_gen, true, DestState::NonEmpty, readme_exists) is Some,
{
}

} // verus!
