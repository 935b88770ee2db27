//! Rows of a remote folder listing.

use vstd::prelude::*;
use crate::sorting::{
    arranged, is_sorted_by, is_stable_order, key_lt, key_views, lemma_stable_order_least_first,
    lemma_stable_order_sorted, stable_order, RowKey, SortKey,
};
use crate::text::{fold_case, join2, lowercase, text_lt};

verus! {

/// A file or folder as the remote store lists it.
#[derive(Clone, Debug, PartialEq, Eq)]
pub struct RemoteFile {
    pub id: Option<String>,
    pub name: Option<String>,
    pub is_folder: bool,
    pub size: Option<i64>,
}

/// The mathematical value of a [`RemoteFile`].
pub struct RemoteFileView {
    pub id: Option<Seq<char>>,
    pub name: Option<Seq<char>>,
    pub is_folder: bool,
    pub size: Option<i64>,
}

impl View for RemoteFile {
    type V = RemoteFileView;

    open spec fn view(&self) -> RemoteFileView {
        RemoteFileView {
            id: match self.id {
                Some(s) => Some(s@),
                None => None,
            },
            name: match self.name {
                Some(s) => Some(s@),
                None => None,
            },
            is_folder: self.is_folder,
            size: self.size,
        }
    }
}

/// One row of the listing on screen. The row with `is_parent` set is the
/// synthetic row that leads to the parent folder; its identifier is empty.
#[derive(Clone, Debug, PartialEq, Eq)]
pub struct DriveItem {
    pub id: String,
    pub name: String,
    pub is_folder: bool,
    pub size: Option<i64>,
    pub is_parent: bool,
}

/// The mathematical value of a [`DriveItem`].
pub struct ItemView {
    pub id: Seq<char>,
    pub name: Seq<char>,
    pub is_folder: bool,
    pub size: Option<i64>,
    pub is_parent: bool,
}

impl View for DriveItem {
    type V = ItemView;

    open spec fn view(&self) -> ItemView {
        ItemView {
            id: self.id@,
            name: self.name@,
            is_folder: self.is_folder,
            size: self.size,
            is_parent: self.is_parent,
        }
    }
}

/// The views of a sequence of items.
pub open spec fn item_views(items: Seq<DriveItem>) -> Seq<ItemView> {
    items.map_values(|d: DriveItem| d@)
}

/// The views of a sequence of remote files.
pub open spec fn file_views(files: Seq<RemoteFile>) -> Seq<RemoteFileView> {
    files.map_values(|f: RemoteFile| f@)
}

impl ItemView {
    /// The size that the row shows: that of a file, where it is known.
    pub open spec fn shown_size(self) -> Option<i64> {
        if self.is_parent || self.is_folder {
            None
        } else {
            self.size
        }
    }

    /// The text of the row on screen, with the size written as `size`:
    /// the parent marker by its name, a folder marked as such, a file
    /// with its size where it is known.
    pub open spec fn label(self, size: Seq<char>) -> Seq<char> {
        if self.is_parent {
            self.name
        } else if self.is_folder {
            "[DIR] "@ + self.name
        } else if self.size is Some {
            self.name + " ("@ + size + ")"@
        } else {
            self.name
        }
    }
}

/// The rank of a row: the parent marker first, then folders, then files.
pub open spec fn rank_of(is_parent: bool, is_folder: bool) -> nat {
    if is_parent {
        if is_folder { 0 } else { 1 }
    } else {
        if is_folder { 2 } else { 3 }
    }
}

/// The key by which a row is sorted.
pub open spec fn item_key(v: ItemView) -> RowKey {
    RowKey { rank: rank_of(v.is_parent, v.is_folder), folded: lowercase(v.name) }
}

/// The synthetic row that leads to the parent folder.
pub open spec fn parent_marker() -> ItemView {
    ItemView { id: Seq::empty(), name: "/.."@, is_folder: true, size: None, is_parent: true }
}

/// The row that stands for a remote file: a missing identifier becomes the
/// empty one, a missing name becomes `<unnamed>`.
pub open spec fn item_of(f: RemoteFileView) -> ItemView {
    ItemView {
        id: match f.id {
            Some(s) => s,
            None => Seq::empty(),
        },
        name: match f.name {
            Some(s) => s,
            None => "<unnamed>"@,
        },
        is_folder: f.is_folder,
        size: f.size,
        is_parent: false,
    }
}

/// The rows of a fresh listing before they are sorted: one row for each
/// remote file, in the order fetched, and the parent marker after them.
pub open spec fn fetched_rows(files: Seq<RemoteFileView>) -> Seq<ItemView> {
    files.map_values(|f: RemoteFileView| item_of(f)).push(parent_marker())
}

/// `out` is the listing of `files`: the fetched rows and the parent marker,
/// sorted by key, ties in the order fetched.
pub open spec fn is_listing_of(files: Seq<RemoteFileView>, out: Seq<ItemView>) -> bool {
    is_sorted_by(fetched_rows(files), fetched_rows(files).map_values(|v: ItemView| item_key(v)), out)
}

/// What holds of the rows of every listing: the parent marker stands first
/// and nowhere else, folders stand before files, and within each group the
/// names ascend without regard to case.
pub open spec fn listing_ordered(out: Seq<ItemView>) -> bool {
    &&& out.len() >= 1
    &&& out[0] == parent_marker()
    &&& forall|i: int| 1 <= i < out.len() ==> !(#[trigger] out[i]).is_parent
    &&& forall|i: int, j: int|
        1 <= i < j < out.len() ==> (#[trigger] out[i]).is_folder || !(#[trigger] out[j]).is_folder
    &&& forall|i: int, j: int|
        1 <= i < j < out.len() && (#[trigger] out[i]).is_folder == (#[trigger] out[j]).is_folder
            ==> !text_lt(lowercase(out[j].name), lowercase(out[i].name))
}

/// Every listing is ordered: the parent marker is present exactly once and
/// first, folders sort before files, and the remaining ties sort by name
/// without regard to case.
pub proof fn lemma_listing_ordered(files: Seq<RemoteFileView>, out: Seq<ItemView>)
    requires
        is_listing_of(files, out),
    ensures
        out.len() == files.len() + 1,
        listing_ordered(out),
{
    let rows = fetched_rows(files);
    let keys = rows.map_values(|v: ItemView| item_key(v));
    let order = choose|order: Seq<usize>|
        is_stable_order(keys, order) && out == #[trigger] arranged(rows, order);
    let last = files.len() as int;
    assert(rows[last] == parent_marker());
    assert forall|k: int| 0 <= k < keys.len() && k != last implies key_lt(
        keys[last],
        #[trigger] keys[k],
    ) by {
        assert(rows[k] == item_of(files[k]));
    }
    lemma_stable_order_least_first(keys, order, last);
    assert forall|i: int| 1 <= i < out.len() implies !(#[trigger] out[i]).is_parent by {
        lemma_stable_order_sorted(keys, order, 0, i);
        assert(rows[order[i] as int] == item_of(files[order[i] as int]));
    }
    assert forall|i: int, j: int| 1 <= i < j < out.len() implies (#[trigger] out[i]).is_folder
        || !(#[trigger] out[j]).is_folder by {
        lemma_stable_order_sorted(keys, order, 0, i);
        lemma_stable_order_sorted(keys, order, 0, j);
        lemma_stable_order_sorted(keys, order, i, j);
    }
    assert forall|i: int, j: int|
        1 <= i < j < out.len() && (#[trigger] out[i]).is_folder == (
        #[trigger] out[j]).is_folder implies !text_lt(
        lowercase(out[j].name),
        lowercase(out[i].name),
    ) by {
        lemma_stable_order_sorted(keys, order, 0, i);
        lemma_stable_order_sorted(keys, order, 0, j);
        lemma_stable_order_sorted(keys, order, i, j);
    }
}

impl DriveItem {
    /// A copy of this row.
    pub fn duplicate(&self) -> (r: DriveItem)
        ensures
            r@ == self@,
    {
        DriveItem {
            id: self.id.clone(),
            name: self.name.clone(),
            is_folder: self.is_folder,
            size: self.size,
            is_parent: self.is_parent,
        }
    }

    /// The row that leads to the parent folder.
    pub fn parent() -> (r: DriveItem)
        ensures
            r@ == parent_marker(),
    {
        DriveItem {
            id: String::new(),
            name: String::from_str("/.."),
            is_folder: true,
            size: None,
            is_parent: true,
        }
    }

    /// The row that stands for a remote file.
    pub fn from_remote(file: &RemoteFile) -> (r: DriveItem)
        ensures
            r@ == item_of(file@),
    {
        let id = match &file.id {
            Some(s) => s.clone(),
            None => String::new(),
        };
        let name = match &file.name {
            Some(s) => s.clone(),
            None => String::from_str("<unnamed>"),
        };
        DriveItem { id, name, is_folder: file.is_folder, size: file.size, is_parent: false }
    }

    /// The text of this row on screen. `human` writes the size of a file.
    pub fn label<F: Fn(i64) -> String>(&self, human: F) -> (r: String)
        requires
            forall|k: i64| call_requires(human, (k,)),
        ensures
            match self@.shown_size() {
                Some(size) => exists|text: String|
                    call_ensures(human, (size,), text) && r@ == #[trigger] self@.label(text@),
                None => r@ == self@.label(Seq::empty()),
            },
    {
        if self.is_parent {
            self.name.clone()
        } else if self.is_folder {
            join2("[DIR] ", self.name.as_str())
        } else {
            match self.size {
                Some(size) => {
                    let text = human(size);
                    let mut r = join2(self.name.as_str(), " (");
                    r.append(text.as_str());
                    r.append(")");
                    assert(r@ == self@.label(text@));
                    r
                },
                None => self.name.clone(),
            }
        }
    }

    /// The key by which this row is sorted.
    pub fn sort_key(&self) -> (k: SortKey)
        ensures
            k@ == item_key(self@),
    {
        let rank: u8 = if self.is_parent {
            if self.is_folder { 0 } else { 1 }
        } else {
            if self.is_folder { 2 } else { 3 }
        };
        SortKey { rank, folded: fold_case(self.name.as_str()) }
    }
}

/// Sorts rows by key, keeping the order of rows with equal keys.
pub fn sort_items(rows: &Vec<DriveItem>) -> (out: Vec<DriveItem>)
    ensures
        is_sorted_by(
            item_views(rows@),
            item_views(rows@).map_values(|v: ItemView| item_key(v)),
            item_views(out@),
        ),
{
    let mut keys: Vec<SortKey> = Vec::new();
    let mut i: usize = 0;
    while i < rows.len()
        invariant
            i <= rows.len(),
            keys.len() == i,
            forall|k: int| 0 <= k < i ==> (#[trigger] keys[k])@ == item_key(rows[k]@),
        decreases rows.len() - i,
    {
        keys.push(rows[i].sort_key());
        i = i + 1;
    }
    let ghost kv = item_views(rows@).map_values(|v: ItemView| item_key(v));
    assert(key_views(keys@) =~= kv);
    let order = stable_order(&keys);
    let mut out: Vec<DriveItem> = Vec::new();
    let mut j: usize = 0;
    while j < order.len()
        invariant
            j <= order.len(),
            order.len() == rows.len(),
            out.len() == j,
            is_stable_order(kv, order@),
            kv.len() == rows.len(),
            forall|k: int| 0 <= k < j ==> (#[trigger] out[k])@ == rows[order[k] as int]@,
        decreases order.len() - j,
    {
        out.push(rows[order[j]].duplicate());
        j = j + 1;
    }
    assert(item_views(out@) =~= arranged(item_views(rows@), order@));
    out
}

/// Builds the rows of a listing from what the remote store returned: one
/// row for each file, the parent marker added, all of it sorted.
pub fn build_listing(files: &Vec<RemoteFile>) -> (out: Vec<DriveItem>)
    ensures
        is_listing_of(file_views(files@), item_views(out@)),
        out.len() == files.len() + 1,
        listing_ordered(item_views(out@)),
{
    let mut rows: Vec<DriveItem> = Vec::new();
    let mut i: usize = 0;
    while i < files.len()
        invariant
            i <= files.len(),
            rows.len() == i,
            forall|k: int| 0 <= k < i ==> (#[trigger] rows[k])@ == item_of(files[k]@),
        decreases files.len() - i,
    {
        rows.push(DriveItem::from_remote(&files[i]));
        i = i + 1;
    }
    rows.push(DriveItem::parent());
    assert(item_views(rows@) =~= fetched_rows(file_views(files@)));
    let out = sort_items(&rows);
    proof {
        lemma_listing_ordered(file_views(files@), item_views(out@));
    }
    out
}

/// The rows shown and the highlighted one among them. The rows are only
/// ever replaced as a whole.
pub struct Listing {
    items: Vec<DriveItem>,
    selected: usize,
}

/// The mathematical value of a [`Listing`].
pub struct ListingView {
    pub items: Seq<ItemView>,
    pub selected: nat,
}

impl ListingView {
    /// The highlighted row is in range, or no row is listed and it is 0.
    pub open spec fn wf(self) -> bool {
        self.selected == 0 || self.selected < self.items.len()
    }

    /// The highlighted row, if there is one.
    pub open spec fn highlighted(self) -> Option<ItemView> {
        if self.selected < self.items.len() {
            Some(self.items[self.selected as int])
        } else {
            None
        }
    }

    /// The highlight moved one row down, from the last row to the first.
    pub open spec fn next(self) -> ListingView {
        if self.items.len() == 0 {
            self
        } else if self.selected + 1 >= self.items.len() {
            ListingView { selected: 0, ..self }
        } else {
            ListingView { selected: self.selected + 1, ..self }
        }
    }

    /// The highlight moved one row up, from the first row to the last.
    pub open spec fn previous(self) -> ListingView {
        if self.items.len() == 0 {
            self
        } else if self.selected == 0 {
            ListingView { selected: (self.items.len() - 1) as nat, ..self }
        } else {
            ListingView { selected: (self.selected - 1) as nat, ..self }
        }
    }
}

impl View for Listing {
    type V = ListingView;

    closed spec fn view(&self) -> ListingView {
        ListingView { items: item_views(self.items@), selected: self.selected as nat }
    }
}

impl Listing {
    #[verifier::type_invariant]
    spec fn inv(self) -> bool {
        self.selected == 0 || self.selected < self.items.len()
    }

    /// No rows.
    pub fn new() -> (r: Listing)
        ensures
            r@.items == Seq::<ItemView>::empty(),
            r@.selected == 0,
    {
        let r = Listing { items: Vec::new(), selected: 0 };
        assert(r@.items =~= Seq::<ItemView>::empty());
        r
    }

    /// The listing of what was fetched, the first row highlighted.
    pub fn from_remote(files: &Vec<RemoteFile>) -> (r: Listing)
        ensures
            is_listing_of(file_views(files@), r@.items),
            r@.items.len() == files.len() + 1,
            listing_ordered(r@.items),
            r@.selected == 0,
    {
        Listing { items: build_listing(files), selected: 0 }
    }

    /// The rows.
    pub fn items(&self) -> (r: &Vec<DriveItem>)
        ensures
            item_views(r@) == self@.items,
    {
        &self.items
    }

    /// The index of the highlighted row: a row that exists, or 0 where
    /// there is none.
    pub fn selected(&self) -> (r: usize)
        ensures
            r == self@.selected,
            self@.wf(),
    {
        proof {
            use_type_invariant(self);
        }
        self.selected
    }

    /// The highlighted row, if there is one.
    pub fn highlighted(&self) -> (r: Option<&DriveItem>)
        ensures
            match r {
                Some(d) => self@.highlighted() == Some(d@),
                None => self@.highlighted() is None,
            },
    {
        if self.selected < self.items.len() {
            Some(&self.items[self.selected])
        } else {
            None
        }
    }

    /// Moves the highlight one row down, from the last row to the first.
    pub fn select_next(&mut self)
        ensures
            final(self)@ == old(self)@.next(),
    {
        proof {
            use_type_invariant(&*self);
        }
        let n = self.items.len();
        if n == 0 {
            return ;
        }
        if self.selected + 1 >= n {
            self.selected = 0;
        } else {
            self.selected = self.selected + 1;
        }
    }

    /// Moves the highlight one row up, from the first row to the last.
    pub fn select_previous(&mut self)
        ensures
            final(self)@ == old(self)@.previous(),
    {
        proof {
            use_type_invariant(&*self);
        }
        let n = self.items.len();
        if n == 0 {
            return ;
        }
        if self.selected == 0 {
            self.selected = n - 1;
        } else {
            self.selected = self.selected - 1;
        }
    }
}

} // verus!
