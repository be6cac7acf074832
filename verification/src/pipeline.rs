//! The pipeline driver: the staged control logic that advances a loaded
//! session file through decompression, parsing and group extraction.
//!
//! The external stage operations (decompress, parse, extract) are host
//! collaborators: asynchronous, fallible, opaque. The driver is the state
//! machine between them. After the host reports one operation's outcome,
//! [`PipelineDriver::apply_outcome`] produces the commands to announce —
//! re-announcing the snapshot after every successful stage so the shell can
//! show incremental progress — and [`PipelineDriver::next_op`] names the
//! operation to run next, until the groups are extracted or a stage fails.

use vstd::prelude::*;

use crate::command::{Command, CommandView};
use crate::session::{AllTabGroups, AllTabGroupsView, FileSnapshot, FileStage, SnapshotView};

verus! {

/// The external stage operation the driver waits on while it runs.
#[derive(Clone, Copy, PartialEq, Eq, Structural, Debug)]
pub enum PipelineOp {
    Decompress,
    Parse,
    ExtractGroups,
}

/// Where a driver run stands.
#[derive(Clone, Copy, PartialEq, Eq, Structural, Debug)]
pub enum DriverPhase {
    /// Waiting for the outcome of [`spec_next_op`]'s operation.
    Running,
    /// Terminal: the groups were extracted and announced.
    GroupsExtracted,
    /// Terminal: a stage operation failed; its failure was announced.
    Failed,
}

/// Mathematical value of a [`PipelineOutcome`].
pub enum PipelineOutcomeView {
    StageDone,
    Extracted(AllTabGroupsView),
    OpFailed(Seq<char>),
}

/// What the host reports back when the pending stage operation finishes.
#[derive(Debug)]
pub enum PipelineOutcome {
    /// Decompression or parsing succeeded; the snapshot advanced one stage.
    StageDone,
    /// Group extraction succeeded, with the session's windows.
    Extracted(AllTabGroups),
    /// The pending operation failed, with its error text.
    OpFailed(String),
}

impl View for PipelineOutcome {
    type V = PipelineOutcomeView;

    open spec fn view(&self) -> PipelineOutcomeView {
        match self {
            PipelineOutcome::StageDone => PipelineOutcomeView::StageDone,
            PipelineOutcome::Extracted(groups) => PipelineOutcomeView::Extracted(groups@),
            PipelineOutcome::OpFailed(e) => PipelineOutcomeView::OpFailed(e@),
        }
    }
}

/// Mathematical value of a [`PipelineDriver`].
pub struct DriverView {
    pub path: Seq<char>,
    pub stage: FileStage,
    pub phase: DriverPhase,
}

/// The stage operation that advances a snapshot at `stage`.
pub open spec fn op_for(stage: FileStage) -> PipelineOp {
    match stage {
        FileStage::Compressed => PipelineOp::Decompress,
        FileStage::Uncompressed => PipelineOp::Parse,
        FileStage::Parsed => PipelineOp::ExtractGroups,
    }
}

/// The stage a snapshot reaches when the operation for `stage` succeeds.
/// Extraction does not advance the stage, so `Parsed` maps to itself.
pub open spec fn next_stage(stage: FileStage) -> FileStage {
    match stage {
        FileStage::Compressed => FileStage::Uncompressed,
        FileStage::Uncompressed => FileStage::Parsed,
        FileStage::Parsed => FileStage::Parsed,
    }
}

/// The snapshot a driver would re-announce.
pub open spec fn snapshot_of(d: DriverView) -> SnapshotView {
    SnapshotView { path: d.path, stage: Some(d.stage) }
}

/// The progress status announced when stage inspection finds work to do.
/// Extraction runs unannounced, as terminal success follows immediately.
pub open spec fn stage_announcement(stage: FileStage) -> Seq<CommandView> {
    match stage {
        FileStage::Compressed => seq![CommandView::SetStatus("Decompressing data"@)],
        FileStage::Uncompressed => seq![CommandView::SetStatus("Parsing session data"@)],
        FileStage::Parsed => Seq::empty(),
    }
}

/// The status text announced when the operation for `stage` fails with `e`.
pub open spec fn failure_text(stage: FileStage, e: Seq<char>) -> Seq<char> {
    match stage {
        FileStage::Compressed => "Failed to decompress data: "@ + e,
        FileStage::Uncompressed => "Failed to parse session data: "@ + e,
        FileStage::Parsed => "Failed to list windows in session: "@ + e,
    }
}

/// Starting the driver on a freshly loaded snapshot: the initial driver
/// state, and the commands it announces before the first operation runs.
pub open spec fn spec_start(s: SnapshotView) -> (DriverView, Seq<CommandView>)
    recommends
        s.stage is Some,
{
    let d = DriverView { path: s.path, stage: s.stage->0, phase: DriverPhase::Running };
    (d, seq![CommandView::UpdateLoadedData(snapshot_of(d))] + stage_announcement(d.stage))
}

/// Whether an outcome is one the pending operation can report: only group
/// extraction yields groups, and only the two advancing stages report a bare
/// success.
pub open spec fn outcome_fits(d: DriverView, o: PipelineOutcomeView) -> bool {
    match o {
        PipelineOutcomeView::StageDone => d.stage != FileStage::Parsed,
        PipelineOutcomeView::Extracted(_) => d.stage == FileStage::Parsed,
        PipelineOutcomeView::OpFailed(_) => true,
    }
}

/// One driver transition: the state after the pending operation reported
/// `o`, and the commands announced for it.
pub open spec fn spec_apply(d: DriverView, o: PipelineOutcomeView) -> (DriverView, Seq<CommandView>)
    recommends
        d.phase is Running,
        outcome_fits(d, o),
{
    match o {
        PipelineOutcomeView::OpFailed(e) => {
            let d2 = DriverView { path: d.path, stage: d.stage, phase: DriverPhase::Failed };
            (d2, seq![CommandView::SetStatus(failure_text(d.stage, e))])
        },
        PipelineOutcomeView::StageDone => {
            let d2 = DriverView { path: d.path, stage: next_stage(d.stage), phase: d.phase };
            (
                d2,
                seq![CommandView::UpdateLoadedData(snapshot_of(d2))] + stage_announcement(
                    d2.stage,
                ),
            )
        },
        PipelineOutcomeView::Extracted(g) => {
            let d2 = DriverView { path: d.path, stage: d.stage, phase: DriverPhase::GroupsExtracted };
            (d2, seq![CommandView::ParsedTabGroups(g)])
        },
    }
}

/// The operation the host must run next, if the driver still runs.
pub open spec fn spec_next_op(d: DriverView) -> Option<PipelineOp> {
    if d.phase is Running {
        Some(op_for(d.stage))
    } else {
        None
    }
}

/// The staged file-load state machine. A loaded snapshot can only hold one
/// of the three processed stages, so the "not yet loaded" state cannot recur
/// once a driver exists; the loop over stages is statically unable to
/// revisit it.
#[derive(Debug)]
pub struct PipelineDriver {
    path: String,
    stage: FileStage,
    phase: DriverPhase,
}

impl View for PipelineDriver {
    type V = DriverView;

    closed spec fn view(&self) -> DriverView {
        DriverView { path: self.path@, stage: self.stage, phase: self.phase }
    }
}

impl PipelineDriver {
    /// Start driving a freshly loaded snapshot: announces the snapshot, and
    /// the progress status for the work its stage calls for.
    pub fn start(snapshot: &FileSnapshot) -> (r: (PipelineDriver, Vec<Command>))
        requires
            snapshot@.stage is Some,
        ensures
            r.0@ == spec_start(snapshot@).0,
            r.1.deep_view() == spec_start(snapshot@).1,
    {
        let stage = match snapshot.stage {
            Some(st) => st,
            None => vstd::pervasive::unreached(),
        };
        let mut emits: Vec<Command> = Vec::new();
        emits.push(
            Command::UpdateLoadedData(
                FileSnapshot { path: snapshot.path.clone(), stage: Some(stage) },
            ),
        );
        match stage {
            FileStage::Compressed => {
                emits.push(Command::SetStatus(String::from_str("Decompressing data")));
            },
            FileStage::Uncompressed => {
                emits.push(Command::SetStatus(String::from_str("Parsing session data")));
            },
            FileStage::Parsed => {},
        }
        let driver = PipelineDriver {
            path: snapshot.path.clone(),
            stage,
            phase: DriverPhase::Running,
        };
        proof {
            assert(emits.deep_view() =~= spec_start(snapshot@).1);
        }
        (driver, emits)
    }

    /// The operation the host must run next, or `None` once the driver has
    /// reached a terminal phase.
    pub fn next_op(&self) -> (r: Option<PipelineOp>)
        ensures
            r == spec_next_op(self@),
    {
        match self.phase {
            DriverPhase::Running => Some(
                match self.stage {
                    FileStage::Compressed => PipelineOp::Decompress,
                    FileStage::Uncompressed => PipelineOp::Parse,
                    FileStage::Parsed => PipelineOp::ExtractGroups,
                },
            ),
            DriverPhase::GroupsExtracted => None,
            DriverPhase::Failed => None,
        }
    }

    /// Where the driver run stands.
    pub fn phase(&self) -> (r: DriverPhase)
        ensures
            r == self@.phase,
    {
        self.phase
    }

    /// The snapshot as the driver would re-announce it now.
    pub fn snapshot(&self) -> (r: FileSnapshot)
        ensures
            r@ == snapshot_of(self@),
    {
        FileSnapshot { path: self.path.clone(), stage: Some(self.stage) }
    }

    /// Apply the reported outcome of the pending operation: advances, or
    /// terminates, the state machine and returns the commands to announce,
    /// in order.
    pub fn apply_outcome(&mut self, outcome: PipelineOutcome) -> (emits: Vec<Command>)
        requires
            old(self)@.phase is Running,
            outcome_fits(old(self)@, outcome@),
        ensures
            final(self)@ == spec_apply(old(self)@, outcome@).0,
            emits.deep_view() == spec_apply(old(self)@, outcome@).1,
    {
        let ghost o = outcome@;
        let mut emits: Vec<Command> = Vec::new();
        match outcome {
            PipelineOutcome::OpFailed(e) => {
                let text = match self.stage {
                    FileStage::Compressed => String::from_str("Failed to decompress data: ")
                        .concat(e.as_str()),
                    FileStage::Uncompressed => String::from_str("Failed to parse session data: ")
                        .concat(e.as_str()),
                    FileStage::Parsed => String::from_str("Failed to list windows in session: ")
                        .concat(e.as_str()),
                };
                emits.push(Command::SetStatus(text));
                self.phase = DriverPhase::Failed;
            },
            PipelineOutcome::StageDone => {
                let advanced = match self.stage {
                    FileStage::Compressed => FileStage::Uncompressed,
                    FileStage::Uncompressed => FileStage::Parsed,
                    FileStage::Parsed => FileStage::Parsed,
                };
                self.stage = advanced;
                emits.push(
                    Command::UpdateLoadedData(
                        FileSnapshot { path: self.path.clone(), stage: Some(advanced) },
                    ),
                );
                match advanced {
                    FileStage::Uncompressed => {
                        emits.push(Command::SetStatus(String::from_str("Parsing session data")));
                    },
                    FileStage::Compressed => {},
                    FileStage::Parsed => {},
                }
            },
            PipelineOutcome::Extracted(groups) => {
                emits.push(Command::ParsedTabGroups(groups));
                self.phase = DriverPhase::GroupsExtracted;
            },
        }
        proof {
            assert(emits.deep_view() =~= spec_apply(old(self)@, o).1);
        }
        emits
    }
}

/// The command announcing that reading the input file's raw bytes failed;
/// the one failure the driver can meet before it starts.
pub fn load_failure_command(error: &str) -> (r: Command)
    ensures
        r@ == CommandView::SetStatus("Failed to read file: "@ + error@),
{
    Command::SetStatus(String::from_str("Failed to read file: ").concat(error))
}

/// Law: from a compressed snapshot whose three stage operations all succeed,
/// the driver announces — in this order — the snapshot re-announced at every
/// stage it reaches, the two progress statuses, and finally the extracted
/// groups; it never enters the failed phase.
pub proof fn lemma_pipeline_success_from_compressed(s: SnapshotView, g: AllTabGroupsView)
    requires
        s.stage == Some(FileStage::Compressed),
    ensures
        ({
            let (d0, e0) = spec_start(s);
            let (d1, e1) = spec_apply(d0, PipelineOutcomeView::StageDone);
            let (d2, e2) = spec_apply(d1, PipelineOutcomeView::StageDone);
            let (d3, e3) = spec_apply(d2, PipelineOutcomeView::Extracted(g));
            &&& d0.phase is Running
            &&& d1.phase is Running
            &&& d2.phase is Running
            &&& d3.phase is GroupsExtracted
            &&& e0 + e1 + e2 + e3 =~= seq![
                CommandView::UpdateLoadedData(
                    SnapshotView { path: s.path, stage: Some(FileStage::Compressed) },
                ),
                CommandView::SetStatus("Decompressing data"@),
                CommandView::UpdateLoadedData(
                    SnapshotView { path: s.path, stage: Some(FileStage::Uncompressed) },
                ),
                CommandView::SetStatus("Parsing session data"@),
                CommandView::UpdateLoadedData(
                    SnapshotView { path: s.path, stage: Some(FileStage::Parsed) },
                ),
                CommandView::ParsedTabGroups(g),
            ]
        }),
{
}

/// Law: if decompression fails, the driver announces exactly one status
/// command — carrying the decompression failure text — enters the failed
/// phase, and requests no further operation, so no further snapshot or group
/// announcement can follow.
pub proof fn lemma_decompress_failure_halts(s: SnapshotView, e: Seq<char>)
    requires
        s.stage == Some(FileStage::Compressed),
    ensures
        ({
            let (d0, e0) = spec_start(s);
            let (d1, e1) = spec_apply(d0, PipelineOutcomeView::OpFailed(e));
            &&& e1 =~= seq![CommandView::SetStatus("Failed to decompress data: "@ + e)]
            &&& d1.phase is Failed
            &&& spec_next_op(d1) is None
        }),
{
}

} // verus!
