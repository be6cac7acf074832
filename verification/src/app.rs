//! The application-state record and the command processor.
//!
//! The record is owned by the host's home loop and mutated only there, once
//! per drained command. Applying a command may in turn decide that new
//! background work is needed (a preview regeneration, a save); the processor
//! applies the state mutation first and then reports that decision as a
//! [`LaunchRequest`] computed from the already-updated state, so a launch
//! always reads consistent selection state.

use vstd::prelude::*;

use crate::background::EguiBackgroundWork;
use crate::command::{Command, CommandView, LaunchRequest, LaunchRequestView};
use crate::selection::{spec_toggle, SelectionSet, SelectionSetView};
use crate::session::{
    AllTabGroups, AllTabGroupsView, FileHandleToken, FileSnapshot, OutputOptions,
    OutputOptionsView, SnapshotView,
};

verus! {

/// Mathematical value of the application-state record. The mailbox is not
/// part of it: commands in flight are the mailbox's own contents.
#[verifier::ext_equal]
pub struct AppView {
    pub input_path: Seq<char>,
    pub input_data: Option<FileHandleToken>,
    pub loaded_path: Seq<char>,
    pub loaded_data: Option<SnapshotView>,
    pub tab_groups: AllTabGroupsView,
    pub selected_tab_groups: SelectionSetView,
    pub preview: Seq<char>,
    pub save_path: Seq<char>,
    pub status: Seq<char>,
    pub output_options: OutputOptionsView,
}

/// Mathematical value of an optional snapshot.
pub open spec fn opt_snapshot(v: Option<FileSnapshot>) -> Option<SnapshotView> {
    match v {
        Some(s) => Some(s@),
        None => None,
    }
}

/// The application state: everything the shell renders, plus the mailbox
/// that feeds [`FirefoxSessionDataApp::handle_command`].
pub struct FirefoxSessionDataApp {
    /// Path typed or picked in the input row.
    pub input_path: String,
    /// Host-held handle of the picked input file, when one was picked.
    pub input_data: Option<FileHandleToken>,
    /// Path the currently loaded data came from.
    pub loaded_path: String,
    /// The loaded file, `None` before the first load.
    pub loaded_data: Option<FileSnapshot>,
    /// The windows of the parsed session.
    pub tab_groups: AllTabGroups,
    /// Which tab groups are chosen for preview and export.
    pub selected_tab_groups: SelectionSet,
    /// The rendered links preview.
    pub preview: String,
    /// Path the links are saved to.
    pub save_path: String,
    /// The status line.
    pub status: String,
    /// How exported links are written.
    pub output_options: OutputOptions,
    /// The mailbox carrying commands from background work to this record.
    pub background: EguiBackgroundWork<Command>,
}

impl View for FirefoxSessionDataApp {
    type V = AppView;

    open spec fn view(&self) -> AppView {
        AppView {
            input_path: self.input_path@,
            input_data: self.input_data,
            loaded_path: self.loaded_path@,
            loaded_data: opt_snapshot(self.loaded_data),
            tab_groups: self.tab_groups@,
            selected_tab_groups: self.selected_tab_groups@,
            preview: self.preview@,
            save_path: self.save_path@,
            status: self.status@,
            output_options: self.output_options@,
        }
    }
}

/// The state change and launch decision of a preview regeneration: with
/// loaded data, announce the work and request the render from the current
/// selection; without, do nothing.
pub open spec fn spec_regenerate(st: AppView) -> (AppView, Option<LaunchRequestView>) {
    match st.loaded_data {
        None => (st, None),
        Some(d) => (
            AppView { status: "Generating preview"@, ..st },
            Some(
                LaunchRequestView::RegeneratePreview {
                    snapshot: d,
                    selection: st.selected_tab_groups,
                },
            ),
        ),
    }
}

/// One command applied to the state: the new state, and the background work
/// it decides to launch.
pub open spec fn spec_handle(pre: AppView, c: CommandView) -> (AppView, Option<LaunchRequestView>) {
    match c {
        CommandView::SetInputPath(path, handle) => (
            AppView { input_path: path, input_data: Some(handle), ..pre },
            None,
        ),
        CommandView::UpdateLoadedData(d) => (AppView { loaded_data: Some(d), ..pre }, None),
        CommandView::ParsedTabGroups(g) => spec_regenerate(AppView { tab_groups: g, ..pre }),
        CommandView::SetPreview(text) => (
            AppView { status: "Successfully loaded session data"@, preview: text, ..pre },
            None,
        ),
        CommandView::ChangeTabGroupSelection { open, index, select } => {
            let (sel, changed) = spec_toggle(pre.selected_tab_groups, open, index, select);
            let st = AppView { selected_tab_groups: sel, ..pre };
            if changed {
                spec_regenerate(st)
            } else {
                (st, None)
            }
        },
        CommandView::SetSavePath(path) => (AppView { save_path: path, ..pre }, None),
        CommandView::SetStatus(text) => (AppView { status: text, ..pre }, None),
        CommandView::SaveLinksToFile => match pre.loaded_data {
            None => (pre, None),
            Some(d) => (
                AppView { status: "Saving links to file"@, ..pre },
                Some(
                    LaunchRequestView::SaveLinks {
                        snapshot: d,
                        save_path: pre.save_path,
                        selection: pre.selected_tab_groups,
                        options: pre.output_options,
                    },
                ),
            ),
        },
    }
}

/// Every queued command applied in delivery order, collecting the launches
/// each one decides on.
pub open spec fn spec_apply_all(pre: AppView, cmds: Seq<CommandView>) -> (
    AppView,
    Seq<LaunchRequestView>,
)
    decreases cmds.len(),
{
    if cmds.len() == 0 {
        (pre, Seq::empty())
    } else {
        let (st1, launch) = spec_handle(pre, cmds[0]);
        let first = match launch {
            None => Seq::empty(),
            Some(l) => seq![l],
        };
        let (st2, rest) = spec_apply_all(st1, cmds.drop_first());
        (st2, first + rest)
    }
}

/// The mathematical values of a command sequence.
pub open spec fn command_views(s: Seq<Command>) -> Seq<CommandView> {
    s.map_values(|c: Command| c@)
}

impl FirefoxSessionDataApp {
    /// Request a fresh preview render from the current snapshot and
    /// selection; does nothing while no data is loaded.
    fn regenerate_preview(&mut self) -> (launch: Option<LaunchRequest>)
        ensures
            final(self)@ == spec_regenerate(old(self)@).0,
            launch.deep_view() == spec_regenerate(old(self)@).1,
            final(self).background == old(self).background,
    {
        let data = match &self.loaded_data {
            None => {
                return None;
            },
            Some(d) => d.clone(),
        };
        self.status = String::from_str("Generating preview");
        Some(
            LaunchRequest::RegeneratePreview {
                snapshot: data,
                selection: self.selected_tab_groups.clone(),
            },
        )
    }

    /// Apply one selection toggle; when the effective selection changed,
    /// decide on a preview regeneration from the already-updated state.
    fn change_selected_tab_group(&mut self, index: u32, open: bool, select: bool) -> (launch:
        Option<LaunchRequest>)
        ensures
            ({
                let (sel, changed) = spec_toggle(
                    old(self)@.selected_tab_groups,
                    open,
                    index,
                    select,
                );
                let st = AppView { selected_tab_groups: sel, ..old(self)@ };
                &&& final(self)@ == (if changed {
                    spec_regenerate(st).0
                } else {
                    st
                })
                &&& launch.deep_view() == (if changed {
                    spec_regenerate(st).1
                } else {
                    None::<LaunchRequestView>
                })
            }),
            final(self).background == old(self).background,
    {
        let changed = self.selected_tab_groups.toggle(open, index, select);
        if changed {
            self.regenerate_preview()
        } else {
            None
        }
    }

    /// Apply one drained command to the state, returning the background work
    /// it decides to launch. The mailbox itself is untouched: commands only
    /// enter it from completed background work.
    pub fn handle_command(&mut self, command: Command) -> (launch: Option<LaunchRequest>)
        ensures
            final(self)@ == spec_handle(old(self)@, command@).0,
            launch.deep_view() == spec_handle(old(self)@, command@).1,
            final(self).background == old(self).background,
    {
        match command {
            Command::SetInputPath(path, handle) => {
                self.input_path = path;
                self.input_data = Some(handle);
                None
            },
            Command::UpdateLoadedData(new_data) => {
                self.loaded_data = Some(new_data);
                None
            },
            Command::ParsedTabGroups(all_groups) => {
                self.tab_groups = all_groups;
                self.regenerate_preview()
            },
            Command::SetPreview(text) => {
                self.status = String::from_str("Successfully loaded session data");
                self.preview = text;
                None
            },
            Command::ChangeTabGroupSelection { open, index, select } => {
                self.change_selected_tab_group(index, open, select)
            },
            Command::SetSavePath(path) => {
                self.save_path = path;
                None
            },
            Command::SetStatus(text) => {
                self.status = text;
                None
            },
            Command::SaveLinksToFile => {
                let data = match &self.loaded_data {
                    None => {
                        return None;
                    },
                    Some(d) => d.clone(),
                };
                self.status = String::from_str("Saving links to file");
                Some(
                    LaunchRequest::SaveLinks {
                        snapshot: data,
                        save_path: self.save_path.clone(),
                        selection: self.selected_tab_groups.clone(),
                        options: self.output_options.clone(),
                    },
                )
            },
        }
    }

    /// Begin loading the file named in the input row: remember where the
    /// data comes from, reset the selection to all open windows, announce
    /// the read, and request it from the host.
    pub fn load_input_data(&mut self) -> (launch: LaunchRequest)
        ensures
            final(self)@ == (AppView {
                loaded_path: old(self)@.input_path,
                loaded_data: Some(SnapshotView { path: old(self)@.input_path, stage: None }),
                selected_tab_groups: SelectionSetView {
                    open: None,
                    closed: Some(Seq::empty()),
                },
                status: "Reading input file"@,
                ..old(self)@
            }),
            launch@ == (LaunchRequestView::LoadFile {
                path: old(self)@.input_path,
                file_handle: old(self)@.input_data,
            }),
            final(self).background == old(self).background,
    {
        self.loaded_path = self.input_path.clone();
        self.loaded_data = Some(FileSnapshot { path: self.input_path.clone(), stage: None });
        self.selected_tab_groups.open_group_indexes = None;
        let empty: Vec<u32> = Vec::new();
        proof {
            assert(empty@ =~= Seq::<u32>::empty());
        }
        self.selected_tab_groups.closed_group_indexes = Some(empty);
        self.status = String::from_str("Reading input file");
        LaunchRequest::LoadFile { path: self.input_path.clone(), file_handle: self.input_data }
    }

    /// Drain the mailbox completely and apply every command, in delivery
    /// order, before anything is rendered: the state after one tick's drain
    /// is the result of applying every command that was queued when the tick
    /// began. Returns the launches those commands decided on, in the same
    /// order.
    pub fn drain_and_apply(&mut self) -> (launches: Vec<LaunchRequest>)
        ensures
            final(self).background.queued().len() == 0,
            final(self).background.repaint_requested() == old(
                self,
            ).background.repaint_requested(),
            final(self)@ == spec_apply_all(
                old(self)@,
                command_views(old(self).background.queued()),
            ).0,
            launches.deep_view() == spec_apply_all(
                old(self)@,
                command_views(old(self).background.queued()),
            ).1,
    {
        let ghost total = spec_apply_all(old(self)@, command_views(old(self).background.queued()));
        let mut launches: Vec<LaunchRequest> = Vec::new();
        proof {
            assert(launches.deep_view() + total.1 =~= total.1);
        }
        loop
            invariant
                total == spec_apply_all(old(self)@, command_views(old(self).background.queued())),
                total.0 == spec_apply_all(self@, command_views(self.background.queued())).0,
                total.1 == launches.deep_view() + spec_apply_all(
                    self@,
                    command_views(self.background.queued()),
                ).1,
                self.background.repaint_requested() == old(self).background.repaint_requested(),
            ensures
                self.background.queued().len() == 0,
                total.0 == spec_apply_all(self@, command_views(self.background.queued())).0,
                total.1 == launches.deep_view() + spec_apply_all(
                    self@,
                    command_views(self.background.queued()),
                ).1,
                self.background.repaint_requested() == old(self).background.repaint_requested(),
            decreases self.background.queued().len(),
        {
            let ghost pre_queue = self.background.queued();
            let cmd = match self.background.poll_work() {
                None => { break },
                Some(c) => c,
            };
            proof {
                assert(command_views(pre_queue).drop_first() =~= command_views(
                    self.background.queued(),
                ));
                assert(command_views(pre_queue)[0] == cmd@);
            }
            let ghost launches_pre = launches.deep_view();
            let launch = self.handle_command(cmd);
            match launch {
                Some(l) => {
                    launches.push(l);
                    proof {
                        assert(launches.deep_view() =~= launches_pre.push(l@));
                        assert(launches_pre + (seq![l@] + spec_apply_all(
                            self@,
                            command_views(self.background.queued()),
                        ).1) =~= launches.deep_view() + spec_apply_all(
                            self@,
                            command_views(self.background.queued()),
                        ).1);
                    }
                },
                None => {
                    proof {
                        assert(launches_pre + (Seq::<LaunchRequestView>::empty() + spec_apply_all(
                            self@,
                            command_views(self.background.queued()),
                        ).1) =~= launches.deep_view() + spec_apply_all(
                            self@,
                            command_views(self.background.queued()),
                        ).1);
                    }
                },
            }
        }
        proof {
            assert(command_views(self.background.queued()).len() == 0);
            assert(launches.deep_view() + Seq::<LaunchRequestView>::empty() =~= launches.deep_view());
        }
        launches
    }
}

/// Law: applying any one command keeps the selection sound — at least one
/// bucket still resolves to a non-empty selection, and no bucket lists an
/// index twice. Only a selection toggle touches the selection at all, and a
/// toggle preserves both properties.
pub proof fn lemma_handle_preserves_selection_invariant(pre: AppView, c: CommandView)
    requires
        pre.selected_tab_groups.some_bucket_selected(),
        pre.selected_tab_groups.no_duplicates(),
    ensures
        spec_handle(pre, c).0.selected_tab_groups.some_bucket_selected(),
        spec_handle(pre, c).0.selected_tab_groups.no_duplicates(),
{
    match c {
        CommandView::ChangeTabGroupSelection { open, index, select } => {
            crate::selection::lemma_toggle_preserves_some_bucket_selected(
                pre.selected_tab_groups,
                open,
                index,
                select,
            );
            crate::selection::lemma_toggle_preserves_no_duplicates(
                pre.selected_tab_groups,
                open,
                index,
                select,
            );
        },
        _ => {},
    }
}

/// Law: however many commands a drain applies, in whatever order they were
/// enqueued, the selection stays sound after every step — so after every
/// tick of the home loop.
pub proof fn lemma_apply_all_preserves_selection_invariant(pre: AppView, cmds: Seq<CommandView>)
    requires
        pre.selected_tab_groups.some_bucket_selected(),
        pre.selected_tab_groups.no_duplicates(),
    ensures
        spec_apply_all(pre, cmds).0.selected_tab_groups.some_bucket_selected(),
        spec_apply_all(pre, cmds).0.selected_tab_groups.no_duplicates(),
    decreases cmds.len(),
{
    if cmds.len() > 0 {
        lemma_handle_preserves_selection_invariant(pre, cmds[0]);
        lemma_apply_all_preserves_selection_invariant(
            spec_handle(pre, cmds[0]).0,
            cmds.drop_first(),
        );
    }
}

impl Default for FirefoxSessionDataApp {
    /// A fresh application state: nothing loaded, every text empty, both
    /// buckets implicitly selecting everything, and an empty mailbox.
    fn default() -> (r: Self)
        ensures
            r@ == (AppView {
                input_path: Seq::empty(),
                input_data: None,
                loaded_path: Seq::empty(),
                loaded_data: None,
                tab_groups: AllTabGroupsView { open: Seq::empty(), closed: Seq::empty() },
                selected_tab_groups: SelectionSetView { open: None, closed: None },
                preview: Seq::empty(),
                save_path: Seq::empty(),
                status: Seq::empty(),
                output_options: OutputOptionsView {
                    format: Seq::empty(),
                    create_folder: false,
                    overwrite: false,
                },
            }),
            r.background.queued().len() == 0,
            !r.background.repaint_requested(),
    {
        let open_groups: Vec<crate::session::TabGroup> = Vec::new();
        let closed_groups: Vec<crate::session::TabGroup> = Vec::new();
        let r = FirefoxSessionDataApp {
            input_path: String::new(),
            input_data: None,
            loaded_path: String::new(),
            loaded_data: None,
            tab_groups: AllTabGroups { open: open_groups, closed: closed_groups },
            selected_tab_groups: SelectionSet {
                open_group_indexes: None,
                closed_group_indexes: None,
            },
            preview: String::new(),
            save_path: String::new(),
            status: String::new(),
            output_options: OutputOptions {
                format: String::new(),
                create_folder: false,
                overwrite: false,
            },
            background: EguiBackgroundWork::default(),
        };
        proof {
            assert(r.tab_groups@.open =~= Seq::<crate::session::TabGroupView>::empty());
            assert(r.tab_groups@.closed =~= Seq::<crate::session::TabGroupView>::empty());
        }
        r
    }
}

} // verus!
