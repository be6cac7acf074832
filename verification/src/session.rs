//! Data model of a loaded session file and of the values extracted from it.
//!
//! The session-store decoder itself is a host collaborator; the core only
//! inspects which processing stage a loaded file has reached, so a snapshot
//! is modelled by its path together with that stage tag.

use vstd::prelude::*;

verus! {

/// Processing stage of a loaded session file. The pipeline driver only ever
/// inspects this tag; the bytes themselves stay with the host.
#[derive(Clone, Copy, PartialEq, Eq, Structural, Debug)]
pub enum FileStage {
    Compressed,
    Uncompressed,
    Parsed,
}

/// Refers to a platform file handle kept by the host shell (a picked file on
/// targets where paths alone cannot reopen it). The core never looks inside
/// a handle; it only carries the token back to the host.
#[derive(Clone, Copy, PartialEq, Eq, Structural, Debug)]
pub struct FileHandleToken {
    pub id: u64,
}

/// Mathematical value of a [`FileSnapshot`].
pub struct SnapshotView {
    pub path: Seq<char>,
    /// `None` until the raw bytes have been read.
    pub stage: Option<FileStage>,
}

/// A loaded session file: where it came from and how far processing has
/// advanced. `stage` is `None` while the raw bytes have not been read yet.
#[derive(Debug)]
pub struct FileSnapshot {
    pub path: String,
    pub stage: Option<FileStage>,
}

impl View for FileSnapshot {
    type V = SnapshotView;

    open spec fn view(&self) -> SnapshotView {
        SnapshotView { path: self.path@, stage: self.stage }
    }
}

impl DeepView for FileSnapshot {
    type V = SnapshotView;

    open spec fn deep_view(&self) -> SnapshotView {
        self@
    }
}

impl Clone for FileSnapshot {
    fn clone(&self) -> (res: Self)
        ensures
            res@ == self@,
    {
        FileSnapshot { path: self.path.clone(), stage: self.stage }
    }
}

/// Mathematical value of a [`TabGroup`].
pub struct TabGroupView {
    pub index: u32,
    pub name: Seq<char>,
}

/// One window of the session: its index within the session store and its
/// display name.
#[derive(Debug)]
pub struct TabGroup {
    pub index: u32,
    pub name: String,
}

impl View for TabGroup {
    type V = TabGroupView;

    open spec fn view(&self) -> TabGroupView {
        TabGroupView { index: self.index, name: self.name@ }
    }
}

impl DeepView for TabGroup {
    type V = TabGroupView;

    open spec fn deep_view(&self) -> TabGroupView {
        self@
    }
}

impl Clone for TabGroup {
    fn clone(&self) -> (res: Self)
        ensures
            res@ == self@,
    {
        TabGroup { index: self.index, name: self.name.clone() }
    }
}

/// Mathematical value of an [`AllTabGroups`].
pub struct AllTabGroupsView {
    pub open: Seq<TabGroupView>,
    pub closed: Seq<TabGroupView>,
}

/// The windows extracted from a parsed session, split into the open and the
/// closed bucket.
#[derive(Debug)]
pub struct AllTabGroups {
    pub open: Vec<TabGroup>,
    pub closed: Vec<TabGroup>,
}

impl View for AllTabGroups {
    type V = AllTabGroupsView;

    open spec fn view(&self) -> AllTabGroupsView {
        AllTabGroupsView { open: self.open.deep_view(), closed: self.closed.deep_view() }
    }
}

impl DeepView for AllTabGroups {
    type V = AllTabGroupsView;

    open spec fn deep_view(&self) -> AllTabGroupsView {
        self@
    }
}

fn clone_group_list(v: &Vec<TabGroup>) -> (res: Vec<TabGroup>)
    ensures
        res.deep_view() == v.deep_view(),
{
    let mut res: Vec<TabGroup> = Vec::new();
    let mut i: usize = 0;
    while i < v.len()
        invariant
            i <= v.len(),
            res@.len() == i,
            forall|j: int| 0 <= j < i ==> #[trigger] res@[j]@ == v@[j]@,
        decreases v.len() - i,
    {
        let g = v[i].clone();
        res.push(g);
        i = i + 1;
    }
    proof {
        assert(forall|j: int| 0 <= j < v@.len() ==> res.deep_view()[j] == v.deep_view()[j]);
        assert(res.deep_view() =~= v.deep_view());
    }
    res
}

impl Clone for AllTabGroups {
    fn clone(&self) -> (res: Self)
        ensures
            res@ == self@,
    {
        AllTabGroups { open: clone_group_list(&self.open), closed: clone_group_list(&self.closed) }
    }
}

impl Default for AllTabGroups {
    fn default() -> (res: Self)
        ensures
            res@.open.len() == 0,
            res@.closed.len() == 0,
    {
        AllTabGroups { open: Vec::new(), closed: Vec::new() }
    }
}

/// Mathematical value of an [`OutputOptions`].
pub struct OutputOptionsView {
    pub format: Seq<char>,
    pub create_folder: bool,
    pub overwrite: bool,
}

/// How exported links are written: the output format chosen in the shell and
/// the two file-creation switches.
#[derive(Debug)]
pub struct OutputOptions {
    pub format: String,
    pub create_folder: bool,
    pub overwrite: bool,
}

impl View for OutputOptions {
    type V = OutputOptionsView;

    open spec fn view(&self) -> OutputOptionsView {
        OutputOptionsView {
            format: self.format@,
            create_folder: self.create_folder,
            overwrite: self.overwrite,
        }
    }
}

impl DeepView for OutputOptions {
    type V = OutputOptionsView;

    open spec fn deep_view(&self) -> OutputOptionsView {
        self@
    }
}

impl Clone for OutputOptions {
    fn clone(&self) -> (res: Self)
        ensures
            res@ == self@,
    {
        OutputOptions {
            format: self.format.clone(),
            create_folder: self.create_folder,
            overwrite: self.overwrite,
        }
    }
}

impl Default for OutputOptions {
    fn default() -> (res: Self)
        ensures
            res@.format.len() == 0,
            !res@.create_folder,
            !res@.overwrite,
    {
        OutputOptions { format: String::new(), create_folder: false, overwrite: false }
    }
}

} // verus!
