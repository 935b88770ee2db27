//! The local file browser from which an upload is chosen.

use vstd::prelude::*;
use crate::sorting::{
    arranged, is_sorted_by, is_stable_order, key_lt, key_views, lemma_stable_order_least_first,
    lemma_stable_order_sorted, stable_order, RowKey, SortKey,
};
use crate::text::{copy_opt, fold_case, join2, lowercase, opt_text, text_lt};

verus! {

/// An entry of a local directory as the file system reports it.
#[derive(Clone, Debug, PartialEq, Eq)]
pub struct RawEntry {
    pub name: String,
    pub path: String,
    pub is_dir: bool,
    pub is_file: bool,
}

/// The mathematical value of a [`RawEntry`].
pub struct RawView {
    pub name: Seq<char>,
    pub path: Seq<char>,
    pub is_dir: bool,
    pub is_file: bool,
}

impl View for RawEntry {
    type V = RawView;

    open spec fn view(&self) -> RawView {
        RawView { name: self.name@, path: self.path@, is_dir: self.is_dir, is_file: self.is_file }
    }
}

/// One row of the local browser. The row with `is_parent` set leads to the
/// parent directory.
#[derive(Clone, Debug, PartialEq, Eq)]
pub struct LocalEntry {
    pub name: String,
    pub path: String,
    pub is_dir: bool,
    pub is_parent: bool,
}

/// The mathematical value of a [`LocalEntry`].
pub struct EntryView {
    pub name: Seq<char>,
    pub path: Seq<char>,
    pub is_dir: bool,
    pub is_parent: bool,
}

impl View for LocalEntry {
    type V = EntryView;

    open spec fn view(&self) -> EntryView {
        EntryView { name: self.name@, path: self.path@, is_dir: self.is_dir, is_parent: self.is_parent }
    }
}

impl EntryView {
    /// The text of the row on screen: the parent row as `/..`, a
    /// directory marked as such, a file by its name.
    pub open spec fn label(self) -> Seq<char> {
        if self.is_parent {
            "/.."@
        } else if self.is_dir {
            "[DIR] "@ + self.name
        } else {
            self.name
        }
    }
}

/// The views of a sequence of raw entries.
pub open spec fn raw_views(raw: Seq<RawEntry>) -> Seq<RawView> {
    raw.map_values(|e: RawEntry| e@)
}

/// The views of a sequence of rows.
pub open spec fn entry_views(entries: Seq<LocalEntry>) -> Seq<EntryView> {
    entries.map_values(|e: LocalEntry| e@)
}

/// The key by which a row of the local browser is sorted: the parent row
/// first, then directories, then files, each group by folded name.
pub open spec fn entry_key(v: EntryView) -> RowKey {
    RowKey {
        rank: if v.is_parent {
            if v.is_dir { 0 } else { 1 }
        } else {
            if v.is_dir { 2 } else { 3 }
        },
        folded: lowercase(v.name),
    }
}

/// The row that leads out of the directory `path`: to its parent, or to
/// `path` itself where it has none.
pub open spec fn parent_entry(path: Seq<char>, parent: Option<Seq<char>>) -> EntryView {
    EntryView {
        name: "/.."@,
        path: match parent {
            Some(p) => p,
            None => path,
        },
        is_dir: true,
        is_parent: true,
    }
}

/// Only directories and regular files are shown.
pub open spec fn shown(e: RawView) -> bool {
    e.is_file || e.is_dir
}

/// The row that stands for a raw entry.
pub open spec fn entry_of(e: RawView) -> EntryView {
    EntryView { name: e.name, path: e.path, is_dir: e.is_dir, is_parent: false }
}

/// The rows for the entries that are shown, in the order read.
pub open spec fn shown_rows(raw: Seq<RawView>) -> Seq<EntryView>
    decreases raw.len(),
{
    if raw.len() == 0 {
        Seq::empty()
    } else if shown(raw.last()) {
        shown_rows(raw.drop_last()).push(entry_of(raw.last()))
    } else {
        shown_rows(raw.drop_last())
    }
}

/// The rows of a directory before they are sorted: the parent row, then
/// the entries that are shown.
pub open spec fn local_rows(
    path: Seq<char>,
    parent: Option<Seq<char>>,
    raw: Seq<RawView>,
) -> Seq<EntryView> {
    seq![parent_entry(path, parent)] + shown_rows(raw)
}

/// `out` holds the rows of the directory sorted by key, ties in the order
/// read.
pub open spec fn is_local_listing(
    path: Seq<char>,
    parent: Option<Seq<char>>,
    raw: Seq<RawView>,
    out: Seq<EntryView>,
) -> bool {
    is_sorted_by(
        local_rows(path, parent, raw),
        local_rows(path, parent, raw).map_values(|v: EntryView| entry_key(v)),
        out,
    )
}

/// What holds of the rows of every local listing: the parent row stands
/// first and nowhere else, directories stand before files, and within each
/// group the names ascend without regard to case.
pub open spec fn entries_ordered(out: Seq<EntryView>) -> bool {
    &&& out.len() >= 1
    &&& out[0].is_parent
    &&& forall|i: int| 1 <= i < out.len() ==> !(#[trigger] out[i]).is_parent
    &&& forall|i: int, j: int|
        1 <= i < j < out.len() ==> (#[trigger] out[i]).is_dir || !(#[trigger] out[j]).is_dir
    &&& forall|i: int, j: int|
        1 <= i < j < out.len() && (#[trigger] out[i]).is_dir == (#[trigger] out[j]).is_dir
            ==> !text_lt(lowercase(out[j].name), lowercase(out[i].name))
}

/// No row but the first of `local_rows` is a parent row.
pub proof fn lemma_shown_rows(raw: Seq<RawView>, k: int)
    requires
        0 <= k < shown_rows(raw).len(),
    ensures
        !shown_rows(raw)[k].is_parent,
        shown_rows(raw).len() <= raw.len(),
    decreases raw.len(),
{
    if raw.len() > 0 {
        if k < shown_rows(raw.drop_last()).len() {
            lemma_shown_rows(raw.drop_last(), k);
        } else if shown_rows(raw.drop_last()).len() > 0 {
            lemma_shown_rows(raw.drop_last(), 0);
        }
    }
}

/// Every local listing is ordered: the parent row is present exactly once
/// and first, directories sort before files, and the remaining ties sort
/// by name without regard to case.
pub proof fn lemma_local_listing_ordered(
    path: Seq<char>,
    parent: Option<Seq<char>>,
    raw: Seq<RawView>,
    out: Seq<EntryView>,
)
    requires
        is_local_listing(path, parent, raw, out),
    ensures
        out.len() == shown_rows(raw).len() + 1,
        out[0] == parent_entry(path, parent),
        entries_ordered(out),
{
    let rows = local_rows(path, parent, raw);
    let keys = rows.map_values(|v: EntryView| entry_key(v));
    let order = choose|order: Seq<usize>|
        is_stable_order(keys, order) && out == #[trigger] arranged(rows, order);
    assert forall|k: int| 0 <= k < keys.len() && k != 0 implies key_lt(keys[0], #[trigger] keys[k]) by {
        lemma_shown_rows(raw, k - 1);
        assert(rows[k] == shown_rows(raw)[k - 1]);
    }
    lemma_stable_order_least_first(keys, order, 0);
    assert forall|i: int| 1 <= i < out.len() implies !(#[trigger] out[i]).is_parent by {
        lemma_stable_order_sorted(keys, order, 0, i);
        lemma_shown_rows(raw, order[i] as int - 1);
        assert(rows[order[i] as int] == shown_rows(raw)[order[i] as int - 1]);
    }
    assert forall|i: int, j: int| 1 <= i < j < out.len() implies (#[trigger] out[i]).is_dir || !(
    #[trigger] out[j]).is_dir by {
        lemma_stable_order_sorted(keys, order, i, j);
    }
    assert forall|i: int, j: int|
        1 <= i < j < out.len() && (#[trigger] out[i]).is_dir == (#[trigger] out[j]).is_dir implies !text_lt(
        lowercase(out[j].name),
        lowercase(out[i].name),
    ) by {
        lemma_stable_order_sorted(keys, order, i, j);
    }
}

impl LocalEntry {
    /// A copy of this row.
    pub fn duplicate(&self) -> (r: LocalEntry)
        ensures
            r@ == self@,
    {
        LocalEntry {
            name: self.name.clone(),
            path: self.path.clone(),
            is_dir: self.is_dir,
            is_parent: self.is_parent,
        }
    }

    /// The text of this row on screen.
    pub fn label(&self) -> (r: String)
        ensures
            r@ == self@.label(),
    {
        if self.is_parent {
            String::from_str("/..")
        } else if self.is_dir {
            join2("[DIR] ", self.name.as_str())
        } else {
            self.name.clone()
        }
    }

    /// The key by which this row is sorted.
    pub fn sort_key(&self) -> (k: SortKey)
        ensures
            k@ == entry_key(self@),
    {
        let rank: u8 = if self.is_parent {
            if self.is_dir { 0 } else { 1 }
        } else {
            if self.is_dir { 2 } else { 3 }
        };
        SortKey { rank, folded: fold_case(self.name.as_str()) }
    }
}

/// Sorts rows by key, keeping the order of rows with equal keys.
pub fn sort_entries(rows: &Vec<LocalEntry>) -> (out: Vec<LocalEntry>)
    ensures
        is_sorted_by(
            entry_views(rows@),
            entry_views(rows@).map_values(|v: EntryView| entry_key(v)),
            entry_views(out@),
        ),
{
    let mut keys: Vec<SortKey> = Vec::new();
    let mut i: usize = 0;
    while i < rows.len()
        invariant
            i <= rows.len(),
            keys.len() == i,
            forall|k: int| 0 <= k < i ==> (#[trigger] keys[k])@ == entry_key(rows[k]@),
        decreases rows.len() - i,
    {
        keys.push(rows[i].sort_key());
        i = i + 1;
    }
    let ghost kv = entry_views(rows@).map_values(|v: EntryView| entry_key(v));
    assert(key_views(keys@) =~= kv);
    let order = stable_order(&keys);
    let mut out: Vec<LocalEntry> = Vec::new();
    let mut j: usize = 0;
    while j < order.len()
        invariant
            j <= order.len(),
            order.len() == rows.len(),
            out.len() == j,
            is_stable_order(kv, order@),
            kv.len() == rows.len(),
            forall|k: int| 0 <= k < j ==> (#[trigger] out[k])@ == rows[order[k] as int]@,
        decreases order.len() - j,
    {
        out.push(rows[order[j]].duplicate());
        j = j + 1;
    }
    assert(entry_views(out@) =~= arranged(entry_views(rows@), order@));
    out
}

/// Builds the rows of the local browser for the directory `path` from what
/// was read of it: the parent row, then every directory and regular file,
/// all of it sorted. `parent` is the parent directory, where there is one.
pub fn list_local_entries(path: &String, parent: &Option<String>, raw: &Vec<RawEntry>) -> (out: Vec<
    LocalEntry,
>)
    ensures
        is_local_listing(path@, opt_text(*parent), raw_views(raw@), entry_views(out@)),
        out.len() == shown_rows(raw_views(raw@)).len() + 1,
        out[0]@ == parent_entry(path@, opt_text(*parent)),
        entries_ordered(entry_views(out@)),
{
    let mut rows: Vec<LocalEntry> = Vec::new();
    let parent_path = match parent {
        Some(p) => p.clone(),
        None => path.clone(),
    };
    rows.push(
        LocalEntry { name: String::from_str("/.."), path: parent_path, is_dir: true, is_parent: true },
    );
    let ghost rv = raw_views(raw@);
    let mut i: usize = 0;
    assert(rv.take(0) =~= Seq::<RawView>::empty());
    while i < raw.len()
        invariant
            i <= raw.len(),
            rv == raw_views(raw@),
            entry_views(rows@) == local_rows(path@, opt_text(*parent), rv.take(i as int)),
        decreases raw.len() - i,
    {
        let e = &raw[i];
        let ghost before = entry_views(rows@);
        assert(rv.take(i + 1).drop_last() =~= rv.take(i as int));
        assert(rv.take(i + 1).last() == e@);
        if e.is_file || e.is_dir {
            rows.push(
                LocalEntry {
                    name: e.name.clone(),
                    path: e.path.clone(),
                    is_dir: e.is_dir,
                    is_parent: false,
                },
            );
            assert(entry_views(rows@) =~= before.push(entry_of(e@)));
        }
        assert(entry_views(rows@) =~= local_rows(path@, opt_text(*parent), rv.take(i + 1)));
        i = i + 1;
    }
    assert(rv.take(raw.len() as int) =~= rv);
    let out = sort_entries(&rows);
    proof {
        lemma_local_listing_ordered(path@, opt_text(*parent), rv, entry_views(out@));
    }
    out
}

/// A local directory as it was read: its path, its parent where it has
/// one, and its entries.
#[derive(Clone, Debug, PartialEq, Eq)]
pub struct LocalDir {
    pub path: String,
    pub parent: Option<String>,
    pub entries: Vec<RawEntry>,
}

/// The mathematical value of a [`LocalDir`].
pub struct DirView {
    pub path: Seq<char>,
    pub parent: Option<Seq<char>>,
    pub entries: Seq<RawView>,
}

impl View for LocalDir {
    type V = DirView;

    open spec fn view(&self) -> DirView {
        DirView { path: self.path@, parent: opt_text(self.parent), entries: raw_views(self.entries@) }
    }
}

/// The local browser: the directory shown, its rows, the highlighted row
/// and the path that was marked for upload, if any.
pub struct UploadPicker {
    current_dir: String,
    parent_dir: Option<String>,
    entries: Vec<LocalEntry>,
    selected: usize,
    selected_path: Option<String>,
}

/// The mathematical value of an [`UploadPicker`].
pub struct PickerView {
    pub current_dir: Seq<char>,
    pub parent_dir: Option<Seq<char>>,
    pub entries: Seq<EntryView>,
    pub selected: nat,
    pub selected_path: Option<Seq<char>>,
}

impl View for UploadPicker {
    type V = PickerView;

    closed spec fn view(&self) -> PickerView {
        PickerView {
            current_dir: self.current_dir@,
            parent_dir: opt_text(self.parent_dir),
            entries: entry_views(self.entries@),
            selected: self.selected as nat,
            selected_path: opt_text(self.selected_path),
        }
    }
}

impl PickerView {
    /// The highlighted row is in range, or there is no row and it is 0.
    pub open spec fn wf(self) -> bool {
        self.selected == 0 || self.selected < self.entries.len()
    }

    /// Whether this browser shows the directory `dir`: its path, its
    /// parent and its sorted rows.
    pub open spec fn shows(self, dir: DirView) -> bool {
        &&& self.current_dir == dir.path
        &&& self.parent_dir == dir.parent
        &&& is_local_listing(dir.path, dir.parent, dir.entries, self.entries)
    }

    /// The highlight moved one row down, from the last row to the first.
    pub open spec fn next(self) -> PickerView {
        if self.entries.len() == 0 {
            self
        } else if self.selected + 1 >= self.entries.len() {
            PickerView { selected: 0, ..self }
        } else {
            PickerView { selected: self.selected + 1, ..self }
        }
    }

    /// The highlight moved one row up, from the first row to the last.
    pub open spec fn previous(self) -> PickerView {
        if self.entries.len() == 0 {
            self
        } else if self.selected == 0 {
            PickerView { selected: (self.entries.len() - 1) as nat, ..self }
        } else {
            PickerView { selected: (self.selected - 1) as nat, ..self }
        }
    }

    /// The highlighted row, if there is one.
    pub open spec fn highlighted(self) -> Option<EntryView> {
        if self.selected < self.entries.len() {
            Some(self.entries[self.selected as int])
        } else {
            None
        }
    }

    /// What an upload would take: the marked path, else the path of the
    /// highlighted row.
    pub open spec fn selection(self) -> Option<Seq<char>> {
        match self.selected_path {
            Some(p) => Some(p),
            None => match self.highlighted() {
                Some(e) => Some(e.path),
                None => None,
            },
        }
    }
}

impl UploadPicker {
    #[verifier::type_invariant]
    spec fn inv(self) -> bool {
        self.selected == 0 || self.selected < self.entries.len()
    }

    /// A browser on the directory `dir`, the first row highlighted and
    /// nothing marked.
    pub fn from_dir(dir: &LocalDir) -> (r: UploadPicker)
        ensures
            r@.shows(dir@),
            r@.selected == 0,
            r@.selected_path is None,
            entries_ordered(r@.entries),
    {
        let entries = list_local_entries(&dir.path, &dir.parent, &dir.entries);
        UploadPicker {
            current_dir: dir.path.clone(),
            parent_dir: copy_opt(&dir.parent),
            entries,
            selected: 0,
            selected_path: None,
        }
    }

    /// Shows the current directory anew from what was read of it, the
    /// first row highlighted. The marked path stays.
    pub fn reload(&mut self, raw: &Vec<RawEntry>)
        ensures
            final(self)@.current_dir == old(self)@.current_dir,
            final(self)@.parent_dir == old(self)@.parent_dir,
            is_local_listing(
                old(self)@.current_dir,
                old(self)@.parent_dir,
                raw_views(raw@),
                final(self)@.entries,
            ),
            entries_ordered(final(self)@.entries),
            final(self)@.selected == 0,
            final(self)@.selected_path == old(self)@.selected_path,
    {
        self.selected = 0;
        self.entries = list_local_entries(&self.current_dir, &self.parent_dir, raw);
    }

    /// Moves to the directory `dir`, the first row highlighted. The marked
    /// path stays.
    pub fn enter(&mut self, dir: &LocalDir)
        ensures
            final(self)@.shows(dir@),
            entries_ordered(final(self)@.entries),
            final(self)@.selected == 0,
            final(self)@.selected_path == old(self)@.selected_path,
    {
        self.selected = 0;
        self.current_dir = dir.path.clone();
        self.parent_dir = copy_opt(&dir.parent);
        self.entries = list_local_entries(&dir.path, &dir.parent, &dir.entries);
    }

    /// Moves the highlight one row down, from the last row to the first.
    pub fn select_next(&mut self)
        ensures
            final(self)@ == old(self)@.next(),
    {
        proof {
            use_type_invariant(&*self);
        }
        let n = self.entries.len();
        if n == 0 {
            return ;
        }
        if self.selected + 1 >= n {
            self.selected = 0;
        } else {
            self.selected = self.selected + 1;
        }
    }

    /// Moves the highlight one row up, from the first row to the last.
    pub fn select_previous(&mut self)
        ensures
            final(self)@ == old(self)@.previous(),
    {
        proof {
            use_type_invariant(&*self);
        }
        let n = self.entries.len();
        if n == 0 {
            return ;
        }
        if self.selected == 0 {
            self.selected = n - 1;
        } else {
            self.selected = self.selected - 1;
        }
    }

    /// Marks `path` as the path to upload.
    pub fn mark(&mut self, path: String)
        ensures
            final(self)@ == (PickerView { selected_path: Some(path@), ..old(self)@ }),
    {
        proof {
            use_type_invariant(&*self);
        }
        self.selected_path = Some(path);
    }

    /// The directory shown.
    pub fn current_dir(&self) -> (r: &String)
        ensures
            r@ == self@.current_dir,
    {
        &self.current_dir
    }

    /// The parent of the directory shown, where it has one.
    pub fn parent_dir(&self) -> (r: &Option<String>)
        ensures
            opt_text(*r) == self@.parent_dir,
    {
        &self.parent_dir
    }

    /// The rows shown.
    pub fn entries(&self) -> (r: &Vec<LocalEntry>)
        ensures
            entry_views(r@) == self@.entries,
    {
        &self.entries
    }

    /// The index of the highlighted row: a row that exists, or 0 where
    /// there is none.
    pub fn selected(&self) -> (r: usize)
        ensures
            r == self@.selected,
            self@.wf(),
    {
        proof {
            use_type_invariant(self);
        }
        self.selected
    }

    /// The path marked for upload, if any.
    pub fn selected_path(&self) -> (r: &Option<String>)
        ensures
            opt_text(*r) == self@.selected_path,
    {
        &self.selected_path
    }

    /// The highlighted row, if there is one.
    pub fn highlighted(&self) -> (r: Option<&LocalEntry>)
        ensures
            match r {
                Some(e) => self@.highlighted() == Some(e@),
                None => self@.highlighted() is None,
            },
    {
        if self.selected < self.entries.len() {
            Some(&self.entries[self.selected])
        } else {
            None
        }
    }

    /// What an upload would take: the marked path, else the path of the
    /// highlighted row.
    pub fn selection(&self) -> (r: Option<String>)
        ensures
            opt_text(r) == self@.selection(),
    {
        match &self.selected_path {
            Some(p) => Some(p.clone()),
            None => match self.highlighted() {
                Some(e) => Some(e.path.clone()),
                None => None,
            },
        }
    }

    /// A copy of this browser.
    pub fn duplicate(&self) -> (r: UploadPicker)
        ensures
            r@ == self@,
    {
        proof {
            use_type_invariant(self);
        }
        let mut entries: Vec<LocalEntry> = Vec::new();
        let mut i: usize = 0;
        while i < self.entries.len()
            invariant
                i <= self.entries.len(),
                entries.len() == i,
                forall|k: int| 0 <= k < i ==> (#[trigger] entries[k])@ == self.entries[k]@,
            decreases self.entries.len() - i,
        {
            entries.push(self.entries[i].duplicate());
            i = i + 1;
        }
        assert(entry_views(entries@) =~= entry_views(self.entries@));
        UploadPicker {
            current_dir: self.current_dir.clone(),
            parent_dir: copy_opt(&self.parent_dir),
            entries,
            selected: self.selected,
            selected_path: copy_opt(&self.selected_path),
        }
    }
}

} // verus!
