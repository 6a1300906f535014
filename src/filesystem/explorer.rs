//! File operations, stated as plans: sequences of primitive filesystem
//! steps that the front end carries out in order, stopping at the first
//! step that fails. Deciding what to touch is done here; touching the disk
//! is left to the caller.

use vstd::prelude::*;
use crate::text::{
    is_sep, join_path, join_path_of, last_segment, lemma_join_last_segment,
    lemma_segment_start_bounds, segment_start,
};
use crate::filesystem::util::{strip_directory, strings_view};

verus! {

/// Failures of filesystem queries and file operations.
#[derive(Clone, Copy, Debug, PartialEq, Eq, Structural)]
pub enum FsError {
    NotFound,
    NotADirectory,
    AlreadyExists,
    PermissionDenied,
    NothingStaged,
    InvalidPath,
    /// Any other failure that the operating system reports.
    Other,
}

pub open spec fn error_text(e: FsError) -> Seq<char> {
    match e {
        FsError::NotFound => "not found"@,
        FsError::NotADirectory => "not a directory"@,
        FsError::AlreadyExists => "already exists"@,
        FsError::PermissionDenied => "permission denied"@,
        FsError::NothingStaged => "nothing staged"@,
        FsError::InvalidPath => "invalid path"@,
        FsError::Other => "operation failed"@,
    }
}

impl FsError {
    /// Text shown to the user for this failure.
    pub fn message(&self) -> (r: String)
        ensures
            r@ == error_text(*self),
    {
        match self {
            FsError::NotFound => String::from_str("not found"),
            FsError::NotADirectory => String::from_str("not a directory"),
            FsError::AlreadyExists => String::from_str("already exists"),
            FsError::PermissionDenied => String::from_str("permission denied"),
            FsError::NothingStaged => String::from_str("nothing staged"),
            FsError::InvalidPath => String::from_str("invalid path"),
            FsError::Other => String::from_str("operation failed"),
        }
    }
}

/// One primitive filesystem step.
#[derive(Clone, Debug, PartialEq, Eq)]
pub enum FileOp {
    /// Create a directory and any missing parents; no failure if it exists.
    CreateDir(String),
    /// Create a new file holding `content`; fails if the path exists.
    CreateNew { path: String, content: String },
    /// Copy the bytes of file `from` to `to`, replacing `to`.
    Copy { from: String, to: String },
    /// Remove a file.
    Remove(String),
    /// Rename `from` to `to`.
    Rename { from: String, to: String },
}

pub enum OpView {
    CreateDir(Seq<char>),
    CreateNew(Seq<char>, Seq<char>),
    Copy(Seq<char>, Seq<char>),
    Remove(Seq<char>),
    Rename(Seq<char>, Seq<char>),
}

impl View for FileOp {
    type V = OpView;

    open spec fn view(&self) -> OpView {
        match self {
            FileOp::CreateDir(p) => OpView::CreateDir(p@),
            FileOp::CreateNew { path, content } => OpView::CreateNew(path@, content@),
            FileOp::Copy { from, to } => OpView::Copy(from@, to@),
            FileOp::Remove(p) => OpView::Remove(p@),
            FileOp::Rename { from, to } => OpView::Rename(from@, to@),
        }
    }
}

pub open spec fn plan_view(v: Seq<FileOp>) -> Seq<OpView> {
    v.map_values(|o: FileOp| o@)
}

/// What a newly created file holds.
pub open spec fn placeholder() -> Seq<char> {
    "Initial content\n"@
}

pub open spec fn make_plan(dir: Seq<char>, name: Seq<char>) -> Seq<OpView> {
    seq![OpView::CreateNew(join_path(dir, name), placeholder())]
}

pub open spec fn rename_plan(original: Seq<char>, dir: Seq<char>, name: Seq<char>) -> Seq<OpView> {
    seq![OpView::Rename(original, join_path(dir, name))]
}

pub open spec fn delete_plan(path: Seq<char>) -> Seq<OpView> {
    seq![OpView::Remove(path)]
}

/// Where a file is staged: the staging directory, then its last segment.
pub open spec fn staged_path(cache: Seq<char>, file: Seq<char>) -> Seq<char> {
    join_path(cache, last_segment(file, true))
}

/// Removal of each of `paths`, in order.
pub open spec fn remove_all(paths: Seq<Seq<char>>) -> Seq<OpView> {
    paths.map_values(|s: Seq<char>| OpView::Remove(s))
}

/// `s` lies directly in the staging directory `cache`.
pub open spec fn in_staging(cache: Seq<char>, s: Seq<char>) -> bool {
    s == staged_path(cache, s)
}

/// `file` is itself the staged copy it would get.
pub open spec fn already_staged(file: Seq<char>, cache: Seq<char>) -> bool {
    file == staged_path(cache, file)
}

/// The staged files, in order, that staging `file` clears: those lying
/// directly in the staging directory other than `file` and its target.
pub open spec fn to_clear(staged: Seq<Seq<char>>, file: Seq<char>, cache: Seq<char>) -> Seq<
    Seq<char>,
>
    decreases staged.len(),
{
    if staged.len() == 0 {
        seq![]
    } else {
        let prev = to_clear(staged.drop_last(), file, cache);
        let s = staged.last();
        if in_staging(cache, s) && s != file && s != staged_path(cache, file) {
            prev.push(s)
        } else {
            prev
        }
    }
}

/// Make sure the staging directory exists, copy the file in (unless it is
/// already its own staged copy), then clear the other staged files. Run in
/// order and stopped at the first failure, a failed copy leaves the
/// earlier staged file in place.
pub open spec fn stage_plan(file: Seq<char>, cache: Seq<char>, staged: Seq<Seq<char>>) -> Seq<
    OpView,
> {
    let copy = if already_staged(file, cache) {
        Seq::<OpView>::empty()
    } else {
        seq![OpView::Copy(file, staged_path(cache, file))]
    };
    seq![OpView::CreateDir(cache)] + copy + remove_all(to_clear(staged, file, cache))
}

/// Stage the file, then remove it, unless it is its own staged copy.
pub open spec fn cut_plan(file: Seq<char>, cache: Seq<char>, staged: Seq<Seq<char>>) -> Seq<OpView> {
    if already_staged(file, cache) {
        stage_plan(file, cache, staged)
    } else {
        stage_plan(file, cache, staged).push(OpView::Remove(file))
    }
}

/// Copy the first staged file into `dest` under its own name, then remove
/// it from the staging area.
pub open spec fn paste_plan(dest: Seq<char>, staged: Seq<Seq<char>>) -> Result<
    Seq<OpView>,
    FsError,
> {
    if staged.len() == 0 {
        Err(FsError::NothingStaged)
    } else {
        Ok(
            seq![
                OpView::Copy(staged[0], join_path(dest, last_segment(staged[0], true))),
                OpView::Remove(staged[0]),
            ],
        )
    }
}

/// Plan that creates file `file_name` in directory `path` with the
/// placeholder content.
pub fn make_file(path: &String, file_name: &String) -> (r: Vec<FileOp>)
    ensures
        plan_view(r@) == make_plan(path@, file_name@),
{
    let target = join_path_of(path.as_str(), file_name.as_str());
    let r = vec![FileOp::CreateNew { path: target, content: String::from_str("Initial content\n") }];
    assert(plan_view(r@) =~= make_plan(path@, file_name@));
    r
}

/// Plan that renames `original_file` to `name` inside directory `path`.
pub fn rename_file(original_file: &String, path: &String, name: &String) -> (r: Vec<FileOp>)
    ensures
        plan_view(r@) == rename_plan(original_file@, path@, name@),
{
    let target = join_path_of(path.as_str(), name.as_str());
    let r = vec![FileOp::Rename { from: original_file.clone(), to: target }];
    assert(plan_view(r@) =~= rename_plan(original_file@, path@, name@));
    r
}

/// Plan that removes the file at `path`, with no way back.
pub fn delete_file(path: &String) -> (r: Vec<FileOp>)
    ensures
        plan_view(r@) == delete_plan(path@),
{
    let r = vec![FileOp::Remove(path.clone())];
    assert(plan_view(r@) =~= delete_plan(path@));
    r
}

/// Plan that stages `file_path` in the staging directory `cache_dir`,
/// whose files are now `staged`: the copy comes first, and only then are
/// the other files lying directly in `cache_dir` removed, so that it holds
/// the new file alone.
pub fn copy_file_to_cache(file_path: &str, cache_dir: &String, staged: &Vec<String>) -> (r: Vec<
    FileOp,
>)
    ensures
        plan_view(r@) == stage_plan(file_path@, cache_dir@, strings_view(staged@)),
{
    let ghost sv = strings_view(staged@);
    let ghost file = file_path@;
    let ghost cache = cache_dir@;
    let name = strip_directory(file_path);
    let target = join_path_of(cache_dir.as_str(), name.as_str());
    let from = file_path.to_owned();
    let mut r: Vec<FileOp> = vec![FileOp::CreateDir(cache_dir.clone())];
    if !(from == target) {
        r.push(FileOp::Copy { from: from.clone(), to: target.clone() });
    }
    let ghost head = plan_view(r@);
    assert(head =~= seq![OpView::CreateDir(cache)] + (if already_staged(file, cache) {
        Seq::<OpView>::empty()
    } else {
        seq![OpView::Copy(file, staged_path(cache, file))]
    }));
    assert(sv.subrange(0, 0) =~= Seq::<Seq<char>>::empty());
    assert(plan_view(r@) =~= head + remove_all(to_clear(sv.subrange(0, 0), file, cache)));
    let mut i: usize = 0;
    while i < staged.len()
        invariant
            i <= staged@.len(),
            sv == strings_view(staged@),
            file == file_path@,
            cache == cache_dir@,
            from@ == file,
            target@ == staged_path(cache, file),
            plan_view(r@) == head + remove_all(to_clear(sv.subrange(0, i as int), file, cache)),
        decreases staged@.len() - i,
    {
        let s = &staged[i];
        let ghost pre = sv.subrange(0, i as int + 1);
        assert(pre.drop_last() =~= sv.subrange(0, i as int));
        assert(pre.last() == s@);
        let s_name = strip_directory(s.as_str());
        let s_home = join_path_of(cache_dir.as_str(), s_name.as_str());
        if *s == s_home && !(*s == from) && !(*s == target) {
            let ghost before = r@;
            let ghost cleared = to_clear(sv.subrange(0, i as int), file, cache);
            r.push(FileOp::Remove(s.clone()));
            assert(remove_all(cleared.push(s@)) =~= remove_all(cleared).push(OpView::Remove(s@)));
            assert(plan_view(r@) =~= plan_view(before).push(OpView::Remove(s@)));
            assert(plan_view(r@) =~= head + remove_all(to_clear(pre, file, cache)));
        }
        i = i + 1;
    }
    assert(sv.subrange(0, i as int) =~= sv);
    r
}

/// Plan that stages `path` and then removes it; run in order and stopped at
/// the first failure, the file is never removed unless the staging copy
/// succeeded, and a file that is its own staged copy is not removed.
pub fn cut_file(path: &String, cache_dir: &String, staged: &Vec<String>) -> (r: Vec<FileOp>)
    ensures
        plan_view(r@) == cut_plan(path@, cache_dir@, strings_view(staged@)),
{
    let mut r = copy_file_to_cache(path.as_str(), cache_dir, staged);
    let name = strip_directory(path.as_str());
    let target = join_path_of(cache_dir.as_str(), name.as_str());
    if !(*path == target) {
        r.push(FileOp::Remove(path.clone()));
        assert(plan_view(r@) =~= cut_plan(path@, cache_dir@, strings_view(staged@)));
    }
    r
}

/// Plan that pastes the staged file into directory `path`; fails with
/// `NothingStaged` when the staging area, whose files are `staged`, is
/// empty.
pub fn paste_file(path: &String, staged: &Vec<String>) -> (r: Result<Vec<FileOp>, FsError>)
    ensures
        match (r, paste_plan(path@, strings_view(staged@))) {
            (Ok(ops), Ok(plan)) => plan_view(ops@) == plan,
            (Err(e), Err(f)) => e == f,
            _ => false,
        },
{
    if staged.len() == 0 {
        return Err(FsError::NothingStaged);
    }
    let cached = &staged[0];
    let name = strip_directory(cached.as_str());
    let target = join_path_of(path.as_str(), name.as_str());
    let r = vec![FileOp::Copy { from: cached.clone(), to: target }, FileOp::Remove(cached.clone())];
    assert(plan_view(r@) =~= paste_plan(path@, strings_view(staged@))->Ok_0);
    Ok(r)
}

/// A name free of separators.
pub open spec fn plain_name(n: Seq<char>) -> bool {
    forall|i: int| 0 <= i < n.len() ==> !is_sep(#[trigger] n[i])
}

proof fn lemma_last_segment_plain(p: Seq<char>)
    ensures
        plain_name(last_segment(p, true)),
{
    lemma_segment_start_bounds(p, true);
    let k = segment_start(p, true);
    assert forall|i: int| 0 <= i < last_segment(p, true).len() implies !is_sep(
        #[trigger] last_segment(p, true)[i],
    ) by {
        assert(last_segment(p, true)[i] == p[k + i]);
    }
}

/// Creating a file with a plain name in a directory creates exactly one
/// new file, with the placeholder content, whose path lies in that
/// directory and whose last segment is the name, so the directory's
/// listing then holds an entry of that name.
pub proof fn lemma_create_names_entry(dir: Seq<char>, name: Seq<char>)
    requires
        plain_name(name),
    ensures
        make_plan(dir, name).len() == 1,
        make_plan(dir, name)[0] == OpView::CreateNew(join_path(dir, name), placeholder()),
        last_segment(join_path(dir, name), true) == name,
{
    lemma_join_last_segment(dir, name);
}

/// Renaming to a plain name in a directory is one rename whose target lies
/// in that directory with the new name as its last segment.
pub proof fn lemma_rename_names_entry(original: Seq<char>, dir: Seq<char>, name: Seq<char>)
    requires
        plain_name(name),
    ensures
        rename_plan(original, dir, name).len() == 1,
        rename_plan(original, dir, name)[0] == OpView::Rename(original, join_path(dir, name)),
        last_segment(join_path(dir, name), true) == name,
{
    lemma_join_last_segment(dir, name);
}

proof fn lemma_to_clear(staged: Seq<Seq<char>>, file: Seq<char>, cache: Seq<char>)
    ensures
        forall|k: int|
            0 <= k < to_clear(staged, file, cache).len() ==> {
                let t = #[trigger] to_clear(staged, file, cache)[k];
                in_staging(cache, t) && t != file && t != staged_path(cache, file)
            },
        forall|j: int|
            0 <= j < staged.len() && in_staging(cache, #[trigger] staged[j]) && staged[j] != file
                && staged[j] != staged_path(cache, file) ==> to_clear(staged, file, cache).contains(
                staged[j],
            ),
    decreases staged.len(),
{
    if staged.len() > 0 {
        let t = staged.drop_last();
        lemma_to_clear(t, file, cache);
        let prev = to_clear(t, file, cache);
        let last = staged.last();
        assert forall|j: int|
            0 <= j < staged.len() && in_staging(cache, #[trigger] staged[j]) && staged[j] != file
                && staged[j] != staged_path(cache, file) implies to_clear(
            staged,
            file,
            cache,
        ).contains(staged[j]) by {
            if j < t.len() {
                assert(t[j] == staged[j]);
                assert(prev.contains(staged[j]));
                let m = choose|m: int| 0 <= m < prev.len() && prev[m] == staged[j];
                if in_staging(cache, last) && last != file && last != staged_path(cache, file) {
                    assert(prev.push(last)[m] == staged[j]);
                }
            } else {
                assert(prev.push(last)[prev.len() as int] == staged[j]);
            }
        }
    }
}

/// What staging may remove: only paths lying directly in the staging
/// directory, never the file being staged nor its staged copy; and it
/// removes every other such path among the files now staged.
pub proof fn lemma_stage_removes_only_others(
    file: Seq<char>,
    cache: Seq<char>,
    staged: Seq<Seq<char>>,
)
    ensures
        forall|k: int|
            0 <= k < to_clear(staged, file, cache).len() ==> {
                let t = #[trigger] to_clear(staged, file, cache)[k];
                in_staging(cache, t) && t != file && t != staged_path(cache, file)
            },
        forall|j: int|
            0 <= j < staged.len() && in_staging(cache, #[trigger] staged[j]) && staged[j] != file
                && staged[j] != staged_path(cache, file) ==> to_clear(staged, file, cache).contains(
                staged[j],
            ),
{
    lemma_to_clear(staged, file, cache);
}

/// Staging a file from outside the staging area copies it in under its own
/// name before anything is removed, and cutting it removes it only after
/// that copy; pasting that one staged file copies it into the destination
/// under the file's name and then removes it from the staging area.
/// Pasting with nothing staged fails with `NothingStaged`.
pub proof fn lemma_stage_then_paste(
    file: Seq<char>,
    cache: Seq<char>,
    staged: Seq<Seq<char>>,
    dest: Seq<char>,
)
    requires
        !already_staged(file, cache),
    ensures
        stage_plan(file, cache, staged) == seq![
            OpView::CreateDir(cache),
            OpView::Copy(file, staged_path(cache, file)),
        ] + remove_all(to_clear(staged, file, cache)),
        cut_plan(file, cache, staged) == stage_plan(file, cache, staged).push(
            OpView::Remove(file),
        ),
        last_segment(staged_path(cache, file), true) == last_segment(file, true),
        paste_plan(dest, seq![staged_path(cache, file)]) == Ok::<Seq<OpView>, FsError>(
            seq![
                OpView::Copy(staged_path(cache, file), join_path(dest, last_segment(file, true))),
                OpView::Remove(staged_path(cache, file)),
            ],
        ),
        paste_plan(dest, Seq::<Seq<char>>::empty()) == Err::<Seq<OpView>, FsError>(
            FsError::NothingStaged,
        ),
{
    lemma_last_segment_plain(file);
    lemma_join_last_segment(cache, last_segment(file, true));
    assert(seq![OpView::CreateDir(cache)] + seq![OpView::Copy(file, staged_path(cache, file))]
        =~= seq![OpView::CreateDir(cache), OpView::Copy(file, staged_path(cache, file))]);
}

} // verus!
