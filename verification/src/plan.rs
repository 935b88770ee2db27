//! Planning the upload of a local directory tree.
//!
//! The plan lists the folders of the tree in pre-order, each with the
//! regular files that it holds directly. Realising the plan folder by
//! folder, each folder before its files, creates every remote folder after
//! its parent and before anything that goes into it.

use vstd::prelude::*;
use crate::text::{join2, opt_text, texts};

verus! {

/// What a node of the local tree is.
#[derive(Debug)]
pub enum LocalKind {
    /// A regular file of `size` bytes.
    File { size: u64 },
    /// A directory with its entries.
    Dir { children: Vec<LocalNode> },
    /// A symbolic link or a special file: not uploaded.
    Other,
}

/// A node of the local tree as it was read from the file system.
#[derive(Debug)]
pub struct LocalNode {
    pub name: String,
    pub path: String,
    pub kind: LocalKind,
}

/// A file of the plan.
#[derive(Clone, Debug, PartialEq, Eq)]
pub struct PlannedFile {
    pub name: String,
    /// Where the file is read from.
    pub path: String,
    pub size: u64,
    /// The remote identifier under which the file is created.
    pub drive_id: String,
    /// The path from the root of the tree, for display.
    pub relative_path: String,
}

/// The mathematical value of a [`PlannedFile`].
pub struct FileView {
    pub name: Seq<char>,
    pub path: Seq<char>,
    pub size: u64,
    pub drive_id: Seq<char>,
    pub relative_path: Seq<char>,
}

impl View for PlannedFile {
    type V = FileView;

    open spec fn view(&self) -> FileView {
        FileView {
            name: self.name@,
            path: self.path@,
            size: self.size,
            drive_id: self.drive_id@,
            relative_path: self.relative_path@,
        }
    }
}

/// A folder of the plan.
#[derive(Clone, Debug, PartialEq, Eq)]
pub struct PlannedFolder {
    pub name: String,
    pub path: String,
    /// The remote identifier under which the folder is created.
    pub drive_id: String,
    /// The index in the plan of the folder that holds this one; none for
    /// the root of the tree.
    pub parent: Option<usize>,
    /// The path from the root of the tree, for display.
    pub relative_path: String,
    /// The regular files that the folder holds directly.
    pub files: Vec<PlannedFile>,
}

/// The mathematical value of a [`PlannedFolder`].
pub struct FolderView {
    pub name: Seq<char>,
    pub path: Seq<char>,
    pub drive_id: Seq<char>,
    pub parent: Option<nat>,
    pub relative_path: Seq<char>,
    pub files: Seq<FileView>,
}

/// The views of a sequence of planned files.
pub open spec fn planned_file_views(files: Seq<PlannedFile>) -> Seq<FileView> {
    files.map_values(|f: PlannedFile| f@)
}

impl View for PlannedFolder {
    type V = FolderView;

    open spec fn view(&self) -> FolderView {
        FolderView {
            name: self.name@,
            path: self.path@,
            drive_id: self.drive_id@,
            parent: match self.parent {
                Some(p) => Some(p as nat),
                None => None,
            },
            relative_path: self.relative_path@,
            files: planned_file_views(self.files@),
        }
    }
}

/// The views of a sequence of planned folders.
pub open spec fn folder_views(folders: Seq<PlannedFolder>) -> Seq<FolderView> {
    folders.map_values(|f: PlannedFolder| f@)
}

/// The path for display of the entry `name` of the folder shown as
/// `folder`.
pub open spec fn child_path(folder: Seq<char>, name: Seq<char>) -> Seq<char> {
    folder + "/"@ + name
}

/// The regular files among `nodes`, in their order, as files of the folder
/// shown as `folder`. Identifiers are assigned later.
pub open spec fn files_among(nodes: Seq<LocalNode>, folder: Seq<char>) -> Seq<FileView>
    decreases nodes.len(),
{
    if nodes.len() == 0 {
        Seq::empty()
    } else {
        let rest = files_among(nodes.drop_last(), folder);
        match nodes.last().kind {
            LocalKind::File { size } => rest.push(
                FileView {
                    name: nodes.last().name@,
                    path: nodes.last().path@,
                    size,
                    drive_id: Seq::empty(),
                    relative_path: child_path(folder, nodes.last().name@),
                },
            ),
            _ => rest,
        }
    }
}

/// The folder that stands for the directory `node` with the entries
/// `children`. Its identifier is assigned later.
pub open spec fn folder_of(
    node: LocalNode,
    children: Seq<LocalNode>,
    parent: Option<nat>,
    shown: Seq<char>,
) -> FolderView {
    FolderView {
        name: node.name@,
        path: node.path@,
        drive_id: Seq::empty(),
        parent,
        relative_path: shown,
        files: files_among(children, shown),
    }
}

/// The folders of the directories among `nodes[k..]` and of all that lies
/// below them, in pre-order: each directory, then what lies below it, then
/// the directories after it. `parent` is the index of the folder that
/// holds `nodes`, `base` the index that the first folder gets, and
/// `prefix` the path under which the entries of `nodes` are shown.
pub open spec fn folders_from(
    nodes: Seq<LocalNode>,
    k: nat,
    parent: Option<nat>,
    base: nat,
    prefix: Option<Seq<char>>,
) -> Seq<FolderView>
    decreases nodes, nodes.len() - k,
{
    if k >= nodes.len() {
        Seq::empty()
    } else {
        match nodes[k as int].kind {
            LocalKind::Dir { children } => {
                let shown = shown_as(prefix, nodes[k as int].name@);
                let below = folders_from(children@, 0, Some(base), base + 1, Some(shown));
                seq![folder_of(nodes[k as int], children@, parent, shown)] + below + folders_from(
                    nodes,
                    k + 1,
                    parent,
                    base + 1 + below.len(),
                    prefix,
                )
            },
            _ => folders_from(nodes, k + 1, parent, base, prefix),
        }
    }
}

/// The path for display of the entry `name`: under `prefix`, or `name`
/// itself for the root of the tree.
pub open spec fn shown_as(prefix: Option<Seq<char>>, name: Seq<char>) -> Seq<char> {
    match prefix {
        Some(p) => child_path(p, name),
        None => name,
    }
}

/// The folders of the tree under `root`, in pre-order, identifiers not
/// yet assigned. A root that is no directory has no folders.
pub open spec fn outline(root: LocalNode) -> Seq<FolderView> {
    folders_from(seq![root], 0, None, 0, None)
}

/// The number of the step that creates folder `f`, where the folders are
/// realised in order and each is followed by its files.
pub open spec fn mkdir_step(folders: Seq<FolderView>, f: nat) -> nat
    decreases f,
{
    if f == 0 {
        0
    } else {
        mkdir_step(folders, (f - 1) as nat) + 1 + folders[f - 1].files.len()
    }
}

/// The number of the step that uploads file `i` of folder `f`.
pub open spec fn upload_step(folders: Seq<FolderView>, f: nat, i: nat) -> nat {
    mkdir_step(folders, f) + 1 + i
}

/// The number of steps that realise all folders and files.
pub open spec fn step_count(folders: Seq<FolderView>) -> nat {
    mkdir_step(folders, folders.len())
}

/// The number of files in all folders.
pub open spec fn file_count(folders: Seq<FolderView>) -> nat {
    (step_count(folders) - folders.len()) as nat
}

/// The folders with identifiers assigned in the order of realisation: the
/// thing that step `n` creates gets `ids[n]`.
pub open spec fn with_ids(folders: Seq<FolderView>, ids: Seq<Seq<char>>) -> Seq<FolderView> {
    Seq::new(
        folders.len(),
        |f: int|
            FolderView {
                drive_id: ids[mkdir_step(folders, f as nat) as int],
                files: Seq::new(
                    folders[f].files.len(),
                    |i: int|
                        FileView {
                            drive_id: ids[upload_step(folders, f as nat, i as nat) as int],
                            ..folders[f].files[i]
                        },
                ),
                ..folders[f]
            },
    )
}

/// The plan for the tree under `root` with the identifiers `ids`.
pub open spec fn plan_of(root: LocalNode, ids: Seq<Seq<char>>) -> Seq<FolderView> {
    with_ids(outline(root), ids)
}

/// Every folder but the first is held by a folder that stands before it;
/// the first is the root of the tree.
pub open spec fn parents_first(folders: Seq<FolderView>) -> bool {
    &&& folders.len() >= 1
    &&& folders[0].parent is None
    &&& forall|f: int|
        1 <= f < folders.len() ==> ((#[trigger] folders[f]).parent matches Some(p) && p < f)
}

/// The folders of `folders_from` are held by `parent`, or by a folder of
/// the same result that stands before them.
pub proof fn lemma_folders_from_parents(
    nodes: Seq<LocalNode>,
    k: nat,
    parent: Option<nat>,
    base: nat,
    prefix: Option<Seq<char>>,
    i: int,
)
    requires
        0 <= i < folders_from(nodes, k, parent, base, prefix).len(),
    ensures
        ({
            let r = folders_from(nodes, k, parent, base, prefix);
            r[i].parent == parent || (r[i].parent matches Some(p) && base <= p < base + i)
        }),
        k < nodes.len(),
    decreases nodes, nodes.len() - k,
{
    if k < nodes.len() {
        match nodes[k as int].kind {
            LocalKind::Dir { children } => {
                let shown = shown_as(prefix, nodes[k as int].name@);
                let below = folders_from(children@, 0, Some(base), base + 1, Some(shown));
                if i == 0 {
                } else if i < 1 + below.len() {
                    lemma_folders_from_parents(children@, 0, Some(base), base + 1, Some(shown), i - 1);
                } else {
                    lemma_folders_from_parents(
                        nodes,
                        k + 1,
                        parent,
                        base + 1 + below.len(),
                        prefix,
                        i - 1 - below.len(),
                    );
                }
            },
            _ => {
                lemma_folders_from_parents(nodes, k + 1, parent, base, prefix, i);
            },
        }
    }
}

/// The outline of a directory starts with the root of the tree, and every
/// other folder is held by a folder that stands before it.
pub proof fn lemma_outline_parents_first(root: LocalNode)
    requires
        root.kind is Dir,
    ensures
        parents_first(outline(root)),
        outline(root)[0].name == root.name@,
{
    let r = outline(root);
    let children = root.kind->children;
    let below = folders_from(children@, 0, Some(0), 1, Some(root.name@));
    let rest = folders_from(seq![root], 1, None, 1 + below.len(), None);
    assert(seq![root][0] == root);
    assert(rest =~= Seq::empty());
    assert(r =~= seq![folder_of(root, children@, None, root.name@)] + below);
    assert forall|f: int| 1 <= f < r.len() implies ((#[trigger] r[f]).parent matches Some(p) && p
        < f) by {
        lemma_folders_from_parents(children@, 0, Some(0), 1, Some(root.name@), f - 1);
    }
}

/// The steps are numbered in the order of the folders.
pub proof fn lemma_mkdir_step_monotone(folders: Seq<FolderView>, p: nat, f: nat)
    requires
        p < f,
    ensures
        mkdir_step(folders, p) + folders[p as int].files.len() < mkdir_step(folders, f),
    decreases f,
{
    if p + 1 < f {
        lemma_mkdir_step_monotone(folders, p, (f - 1) as nat);
    }
}

/// Whether folder `a` lies above folder `f`: it holds `f`, or it lies above
/// the folder that holds `f`.
pub open spec fn lies_above(folders: Seq<FolderView>, a: nat, f: nat) -> bool
    decreases f,
{
    match folders[f as int].parent {
        Some(p) => p < f && (p == a || lies_above(folders, a, p)),
        None => false,
    }
}

/// Every folder is created before every folder that lies below it, at
/// whatever depth, and before every file of such a folder.
pub proof fn lemma_folder_before_descendants(folders: Seq<FolderView>, a: nat, f: nat, i: nat)
    requires
        f < folders.len(),
        lies_above(folders, a, f),
    ensures
        a < f,
        mkdir_step(folders, a) < mkdir_step(folders, f),
        mkdir_step(folders, a) < upload_step(folders, f, i),
    decreases f,
{
    let p = folders[f as int].parent->0;
    if p != a {
        lemma_folder_before_descendants(folders, a, p, i);
    }
    lemma_mkdir_step_monotone(folders, p, f);
}

/// Realising a plan step by step creates every folder before each of its
/// files, and after the folder that holds it: with the folders in pre-order
/// every folder comes before all that lies below it.
pub proof fn lemma_folder_before_contents(folders: Seq<FolderView>, f: nat, i: nat)
    requires
        parents_first(folders),
        f < folders.len(),
    ensures
        mkdir_step(folders, f) < upload_step(folders, f, i),
        folders[f as int].parent matches Some(p) ==> mkdir_step(folders, p) < mkdir_step(folders, f),
        folders[f as int].parent matches Some(p) ==> forall|j: nat|
            j < folders[p as int].files.len() ==> mkdir_step(folders, p) < upload_step(
                folders,
                p,
                j,
            ),
{
    if f >= 1 {
        let p = folders[f as int].parent->0;
        lemma_mkdir_step_monotone(folders, p, f);
    }
}

/// The index of an optional folder as a natural number.
pub open spec fn opt_index(i: Option<usize>) -> Option<nat> {
    match i {
        Some(i) => Some(i as nat),
        None => None,
    }
}

/// Collects the regular files among `nodes` as files of the folder shown
/// as `shown`.
fn collect_files(nodes: &Vec<LocalNode>, shown: &str) -> (r: Vec<PlannedFile>)
    ensures
        planned_file_views(r@) == files_among(nodes@, shown@),
{
    let mut r: Vec<PlannedFile> = Vec::new();
    let mut i: usize = 0;
    assert(nodes@.take(0) =~= Seq::<LocalNode>::empty());
    while i < nodes.len()
        invariant
            i <= nodes.len(),
            planned_file_views(r@) == files_among(nodes@.take(i as int), shown@),
        decreases nodes.len() - i,
    {
        let node = &nodes[i];
        let ghost before = planned_file_views(r@);
        assert(nodes@.take(i + 1).drop_last() =~= nodes@.take(i as int));
        assert(nodes@.take(i + 1).last() == *node);
        match &node.kind {
            LocalKind::File { size } => {
                let mut relative_path = join2(shown, "/");
                relative_path.append(node.name.as_str());
                let file = PlannedFile {
                    name: node.name.clone(),
                    path: node.path.clone(),
                    size: *size,
                    drive_id: String::new(),
                    relative_path,
                };
                r.push(file);
                assert(planned_file_views(r@) =~= before.push(file@));
            },
            _ => {},
        }
        i = i + 1;
    }
    assert(nodes@.take(nodes.len() as int) =~= nodes@);
    r
}

/// Appends to `out` the folders of the directories among `nodes` and of
/// all that lies below them, in pre-order.
fn flatten(
    nodes: &Vec<LocalNode>,
    parent: Option<usize>,
    prefix: &Option<String>,
    out: &mut Vec<PlannedFolder>,
)
    ensures
        folder_views(final(out)@) == folder_views(old(out)@) + folders_from(
            nodes@,
            0,
            opt_index(parent),
            old(out).len() as nat,
            opt_text(*prefix),
        ),
    decreases nodes,
{
    let ghost start = folder_views(out@);
    let ghost start_len = out.len() as nat;
    let ghost shown_prefix = opt_text(*prefix);
    let mut k: usize = 0;
    assert(folder_views(out@) + folders_from(nodes@, 0, opt_index(parent), start_len, shown_prefix)
        =~= start + folders_from(nodes@, 0, opt_index(parent), start_len, shown_prefix));
    while k < nodes.len()
        invariant
            k <= nodes.len(),
            shown_prefix == opt_text(*prefix),
            folder_views(out@) + folders_from(
                nodes@,
                k as nat,
                opt_index(parent),
                out.len() as nat,
                shown_prefix,
            ) == start + folders_from(nodes@, 0, opt_index(parent), start_len, shown_prefix),
        decreases nodes.len() - k,
    {
        let node = &nodes[k];
        match &node.kind {
            LocalKind::Dir { children } => {
                let shown = match prefix {
                    Some(p) => {
                        let mut shown = join2(p.as_str(), "/");
                        shown.append(node.name.as_str());
                        shown
                    },
                    None => node.name.clone(),
                };
                let files = collect_files(children, shown.as_str());
                let base = out.len();
                let ghost before = folder_views(out@);
                let folder = PlannedFolder {
                    name: node.name.clone(),
                    path: node.path.clone(),
                    drive_id: String::new(),
                    parent,
                    relative_path: shown.clone(),
                    files,
                };
                out.push(folder);
                assert(folder_views(out@) =~= before.push(folder@));
                let inner = Some(shown);
                flatten(children, Some(base), &inner, out);
                proof {
                    let below = folders_from(
                        children@,
                        0,
                        Some(base as nat),
                        (base + 1) as nat,
                        Some(shown@),
                    );
                    let first = folder_of(*node, children@, opt_index(parent), shown@);
                    assert(folder@ == first);
                    assert(folder_views(out@) =~= before + seq![first] + below);
                    let rest = folders_from(
                        nodes@,
                        (k + 1) as nat,
                        opt_index(parent),
                        (base + 1 + below.len()) as nat,
                        shown_prefix,
                    );
                    assert(folders_from(
                        nodes@,
                        k as nat,
                        opt_index(parent),
                        base as nat,
                        shown_prefix,
                    ) == seq![first] + below + rest);
                    assert(folder_views(out@) + rest =~= before + (seq![first] + below + rest));
                }
            },
            _ => {},
        }
        k = k + 1;
    }
}

/// Why a tree cannot be planned.
#[derive(Clone, Copy, Debug, PartialEq, Eq, Structural)]
pub enum PlanError {
    /// The root of the tree is no directory.
    NotADirectory,
    /// The plan needs `needed` identifiers, and fewer were given.
    NotEnoughIds { needed: usize },
    /// The plan has more steps than can be counted.
    TooLarge,
}

/// Counts the steps that realise `folders`, unless they are too many to
/// count.
fn count_steps(folders: &Vec<PlannedFolder>) -> (r: Option<usize>)
    ensures
        match r {
            Some(n) => n == step_count(folder_views(folders@)),
            None => step_count(folder_views(folders@)) > usize::MAX,
        },
{
    let ghost fv = folder_views(folders@);
    let mut total: usize = 0;
    let mut f: usize = 0;
    while f < folders.len()
        invariant
            f <= folders.len(),
            fv == folder_views(folders@),
            total == mkdir_step(fv, f as nat),
        decreases folders.len() - f,
    {
        assert(fv[f as int].files.len() == folders[f as int].files.len());
        proof {
            if f + 1 < folders.len() {
                lemma_mkdir_step_monotone(fv, (f + 1) as nat, folders.len() as nat);
            }
        }
        let with_folder = match total.checked_add(1) {
            Some(n) => n,
            None => {
                return None;
            },
        };
        total = match with_folder.checked_add(folders[f].files.len()) {
            Some(n) => n,
            None => {
                return None;
            },
        };
        f = f + 1;
    }
    Some(total)
}

/// A plan: the folders of a tree in pre-order, each with its files and
/// with the remote identifiers of both.
pub struct Plan {
    folders: Vec<PlannedFolder>,
}

impl View for Plan {
    type V = Seq<FolderView>;

    closed spec fn view(&self) -> Seq<FolderView> {
        folder_views(self.folders@)
    }
}

impl Plan {
    #[verifier::type_invariant]
    spec fn inv(self) -> bool {
        &&& parents_first(folder_views(self.folders@))
        &&& step_count(folder_views(self.folders@)) <= usize::MAX
    }

    /// The folders in the order in which they are realised. Every folder
    /// but the first is held by a folder that stands before it.
    pub fn folders(&self) -> (r: &Vec<PlannedFolder>)
        ensures
            folder_views(r@) == self@,
            parents_first(self@),
            step_count(self@) <= usize::MAX,
    {
        proof {
            use_type_invariant(self);
        }
        &self.folders
    }

    /// The number of files in all folders.
    pub fn file_count(&self) -> (r: usize)
        ensures
            r == file_count(self@),
            parents_first(self@),
    {
        proof {
            use_type_invariant(self);
            lemma_step_count_bounds(folder_views(self.folders@), self.folders.len() as nat);
        }
        match count_steps(&self.folders) {
            Some(n) => n - self.folders.len(),
            None => 0,
        }
    }
}

/// Each folder takes at least one step.
pub proof fn lemma_step_count_bounds(folders: Seq<FolderView>, f: nat)
    ensures
        f <= mkdir_step(folders, f),
    decreases f,
{
    if f > 0 {
        lemma_step_count_bounds(folders, (f - 1) as nat);
    }
}

/// A copy of `file` with the identifier `id`.
fn file_with_id(file: &PlannedFile, id: &String) -> (r: PlannedFile)
    ensures
        r@ == (FileView { drive_id: id@, ..file@ }),
{
    PlannedFile {
        name: file.name.clone(),
        path: file.path.clone(),
        size: file.size,
        drive_id: id.clone(),
        relative_path: file.relative_path.clone(),
    }
}

/// Assigns identifiers to the folders and files of an outline, in the
/// order of realisation.
fn assign_ids(outline: &Vec<PlannedFolder>, ids: &Vec<String>) -> (r: Vec<PlannedFolder>)
    requires
        step_count(folder_views(outline@)) <= ids.len(),
    ensures
        folder_views(r@) == with_ids(folder_views(outline@), texts(ids@)),
{
    let ghost fv = folder_views(outline@);
    let ghost idv = texts(ids@);
    let mut r: Vec<PlannedFolder> = Vec::new();
    let mut next: usize = 0;
    let mut f: usize = 0;
    while f < outline.len()
        invariant
            f <= outline.len(),
            fv == folder_views(outline@),
            idv == texts(ids@),
            step_count(fv) <= ids.len(),
            next == mkdir_step(fv, f as nat),
            r.len() == f,
            forall|j: int| 0 <= j < f ==> (#[trigger] r[j])@ == with_ids(fv, idv)[j],
        decreases outline.len() - f,
    {
        let folder = &outline[f];
        assert(fv[f as int] == folder@);
        proof {
            lemma_mkdir_step_monotone(fv, f as nat, outline.len() as nat);
        }
        let drive_id = ids[next].clone();
        let ghost folder_step = next;
        next = next + 1;
        let mut files: Vec<PlannedFile> = Vec::new();
        let mut i: usize = 0;
        while i < folder.files.len()
            invariant
                i <= folder.files.len(),
                idv == texts(ids@),
                folder_step + 1 + folder.files.len() <= ids.len(),
                next == folder_step + 1 + i,
                files.len() == i,
                forall|j: int|
                    0 <= j < i ==> (#[trigger] files[j])@ == (FileView {
                        drive_id: idv[folder_step + 1 + j],
                        ..folder.files[j]@
                    }),
            decreases folder.files.len() - i,
        {
            files.push(file_with_id(&folder.files[i], &ids[next]));
            next = next + 1;
            i = i + 1;
        }
        let made = PlannedFolder {
            name: folder.name.clone(),
            path: folder.path.clone(),
            drive_id,
            parent: folder.parent,
            relative_path: folder.relative_path.clone(),
            files,
        };
        assert(made@.files =~= with_ids(fv, idv)[f as int].files);
        r.push(made);
        f = f + 1;
    }
    assert(folder_views(r@) =~= with_ids(fv, idv));
    r
}

/// Plans the upload of the tree under `root`: its folders in pre-order,
/// each with its regular files, and the identifiers of `ids` assigned in
/// the order of realisation, so that the identifier of every parent is
/// known before anything is created. Links and special files are left
/// out.
pub fn plan_tree(root: &LocalNode, ids: &Vec<String>) -> (r: Result<Plan, PlanError>)
    ensures
        match r {
            Ok(plan) => {
                &&& root.kind is Dir
                &&& step_count(outline(*root)) <= ids.len()
                &&& plan@ == plan_of(*root, texts(ids@))
                &&& parents_first(plan@)
            },
            Err(PlanError::NotADirectory) => !(root.kind is Dir),
            Err(PlanError::TooLarge) => root.kind is Dir && step_count(outline(*root)) > usize::MAX,
            Err(PlanError::NotEnoughIds { needed }) => root.kind is Dir && needed == step_count(
                outline(*root),
            ) && needed > ids.len(),
        },
{
    let bare = outline_of(root)?;
    let needed = match count_steps(&bare) {
        Some(n) => n,
        None => {
            return Err(PlanError::TooLarge);
        },
    };
    if needed > ids.len() {
        return Err(PlanError::NotEnoughIds { needed });
    }
    let folders = assign_ids(&bare, ids);
    proof {
        lemma_outline_parents_first(*root);
        assert(folder_views(folders@).len() == folders.len());
        assert(with_ids(outline(*root), texts(ids@)).len() == outline(*root).len());
        lemma_with_ids_keeps_shape(outline(*root), texts(ids@), outline(*root).len());
    }
    Ok(Plan { folders })
}

/// Assigning identifiers changes neither which folder holds which nor how
/// many files each folder has, and so keeps the number of every step.
pub proof fn lemma_with_ids_keeps_shape(folders: Seq<FolderView>, ids: Seq<Seq<char>>, f: nat)
    requires
        f <= folders.len(),
    ensures
        with_ids(folders, ids).len() == folders.len(),
        parents_first(folders) ==> parents_first(with_ids(folders, ids)),
        mkdir_step(with_ids(folders, ids), f) == mkdir_step(folders, f),
    decreases f,
{
    if f > 0 {
        lemma_with_ids_keeps_shape(folders, ids, (f - 1) as nat);
    }
}

/// The number of identifiers that the plan of the tree under `root`
/// needs: one for each folder and one for each regular file.
pub fn ids_needed(root: &LocalNode) -> (r: Result<usize, PlanError>)
    ensures
        match r {
            Ok(n) => root.kind is Dir && n == step_count(outline(*root)),
            Err(PlanError::NotADirectory) => !(root.kind is Dir),
            Err(PlanError::TooLarge) => root.kind is Dir && step_count(outline(*root)) > usize::MAX,
            Err(PlanError::NotEnoughIds { .. }) => false,
        },
{
    let folders = outline_of(root)?;
    match count_steps(&folders) {
        Some(n) => Ok(n),
        None => Err(PlanError::TooLarge),
    }
}

/// The folders of the tree under `root`, identifiers not yet assigned.
fn outline_of(root: &LocalNode) -> (r: Result<Vec<PlannedFolder>, PlanError>)
    ensures
        match r {
            Ok(folders) => root.kind is Dir && folder_views(folders@) == outline(*root),
            Err(e) => !(root.kind is Dir) && e == PlanError::NotADirectory,
        },
{
    match &root.kind {
        LocalKind::Dir { children } => {
            let files = collect_files(children, root.name.as_str());
            let first = PlannedFolder {
                name: root.name.clone(),
                path: root.path.clone(),
                drive_id: String::new(),
                parent: None,
                relative_path: root.name.clone(),
                files,
            };
            let mut folders: Vec<PlannedFolder> = Vec::new();
            folders.push(first);
            assert(folder_views(folders@) =~= seq![first@]);
            let inner = Some(root.name.clone());
            flatten(children, Some(0), &inner, &mut folders);
            proof {
                let below = folders_from(children@, 0, Some(0), 1, Some(root.name@));
                let rest = folders_from(seq![*root], 1, None, 1 + below.len(), None);
                assert(seq![*root][0] == *root);
                assert(rest =~= Seq::empty());
                assert(outline(*root) =~= seq![folder_of(*root, children@, None, root.name@)]
                    + below);
            }
            Ok(folders)
        },
        _ => Err(PlanError::NotADirectory),
    }
}

} // verus!
