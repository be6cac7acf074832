use firefox_session_ui_egui::command::{Command, LaunchRequest};
use firefox_session_ui_egui::pipeline::{PipelineDriver, PipelineOutcome};
use firefox_session_ui_egui::selection::SelectionSet;
use firefox_session_ui_egui::session::{
    AllTabGroups, FileHandleToken, FileSnapshot, FileStage, OutputOptions, TabGroup,
};
use firefox_session_ui_egui::FirefoxSessionDataApp;

#[test]
fn default_state_is_empty() {
    let app = FirefoxSessionDataApp::default();
    assert_eq!(app.input_path, "");
    assert!(app.input_data.is_none());
    assert_eq!(app.loaded_path, "");
    assert!(app.loaded_data.is_none());
    assert!(app.tab_groups.open.is_empty());
    assert!(app.tab_groups.closed.is_empty());
    assert!(app.selected_tab_groups.open_group_indexes.is_none());
    assert!(app.selected_tab_groups.closed_group_indexes.is_none());
    assert_eq!(app.preview, "");
    assert_eq!(app.save_path, "");
    assert_eq!(app.status, "");
}

#[test]
fn set_input_path_remembers_path_and_handle() {
    let mut app = FirefoxSessionDataApp::default();
    let launch = app.handle_command(Command::SetInputPath(
        "picked.jsonlz4".to_string(),
        FileHandleToken { id: 7 },
    ));
    assert!(launch.is_none());
    assert_eq!(app.input_path, "picked.jsonlz4");
    assert_eq!(app.input_data, Some(FileHandleToken { id: 7 }));
}

#[test]
fn set_preview_also_reports_success() {
    let mut app = FirefoxSessionDataApp::default();
    let launch = app.handle_command(Command::SetPreview("https://a.example/".to_string()));
    assert!(launch.is_none());
    assert_eq!(app.preview, "https://a.example/");
    assert_eq!(app.status, "Successfully loaded session data");
}

#[test]
fn set_save_path_and_status_are_plain_updates() {
    let mut app = FirefoxSessionDataApp::default();
    assert!(app.handle_command(Command::SetSavePath("links.txt".to_string())).is_none());
    assert_eq!(app.save_path, "links.txt");
    assert!(app.handle_command(Command::SetStatus("hello".to_string())).is_none());
    assert_eq!(app.status, "hello");
}

#[test]
fn save_without_loaded_data_does_nothing() {
    let mut app = FirefoxSessionDataApp::default();
    let launch = app.handle_command(Command::SaveLinksToFile);
    assert!(launch.is_none());
    assert_eq!(app.status, "");
}

#[test]
fn save_with_loaded_data_launches_the_save() {
    let mut app = FirefoxSessionDataApp::default();
    app.loaded_data = Some(FileSnapshot {
        path: "session".to_string(),
        stage: Some(FileStage::Parsed),
    });
    app.save_path = "out/links.txt".to_string();
    app.output_options = OutputOptions {
        format: "text".to_string(),
        create_folder: true,
        overwrite: false,
    };

    let launch = app.handle_command(Command::SaveLinksToFile);
    assert_eq!(app.status, "Saving links to file");
    match launch {
        Some(LaunchRequest::SaveLinks { snapshot, save_path, options, .. }) => {
            assert_eq!(snapshot.path, "session");
            assert_eq!(save_path, "out/links.txt");
            assert_eq!(options.format, "text");
            assert!(options.create_folder);
            assert!(!options.overwrite);
        },
        other => panic!("expected a save launch, got {other:?}"),
    }
}

#[test]
fn toggle_without_loaded_data_changes_selection_but_launches_nothing() {
    let mut app = FirefoxSessionDataApp::default();
    let launch = app.handle_command(Command::ChangeTabGroupSelection {
        open: true,
        index: 0,
        select: true,
    });
    assert!(launch.is_none());
    assert_eq!(app.selected_tab_groups.open_group_indexes, Some(vec![0]));
    // No data loaded: no preview render was requested and no work announced.
    assert_eq!(app.status, "");
}

/// Stands in for the host's preview renderer: the names of the selected
/// groups, one per line, where an absent bucket sequence selects the whole
/// bucket.
fn fake_render(groups: &AllTabGroups, selection: &SelectionSet) -> String {
    let mut out = String::new();
    let buckets = [
        (&groups.open, &selection.open_group_indexes),
        (&groups.closed, &selection.closed_group_indexes),
    ];
    for (members, chosen) in buckets {
        for (i, group) in members.iter().enumerate() {
            let selected = match chosen {
                None => true,
                Some(indexes) => indexes.contains(&(i as u32)),
            };
            if selected {
                out.push_str(&group.name);
                out.push('\n');
            }
        }
    }
    out
}

/// Feeds the commands a background task produced into the mailbox, as the
/// task launcher would on completion.
fn deliver(app: &mut FirefoxSessionDataApp, commands: Vec<Command>) {
    for command in commands {
        app.background.sender().send(command);
    }
}

/// Runs the launches the drain decided on, as the host would: the preview
/// render is answered from `fake_render`, everything else is returned
/// untouched for the test to inspect.
fn run_preview_launches(
    app: &mut FirefoxSessionDataApp,
    launches: Vec<LaunchRequest>,
) -> Vec<LaunchRequest> {
    let mut rest = Vec::new();
    for launch in launches {
        match launch {
            LaunchRequest::RegeneratePreview { ref selection, .. } => {
                let text = fake_render(&app.tab_groups.clone(), selection);
                app.background.sender().send(Command::SetPreview(text));
            },
            other => rest.push(other),
        }
    }
    rest
}

#[test]
fn two_window_session_end_to_end() {
    let mut app = FirefoxSessionDataApp::default();
    app.input_path = "sessionstore.jsonlz4".to_string();

    // Load: the core resets the selection to "all open windows" and asks the
    // host to read the file.
    let launch = app.load_input_data();
    assert_eq!(app.status, "Reading input file");
    assert_eq!(app.loaded_path, "sessionstore.jsonlz4");
    assert!(app.selected_tab_groups.open_group_indexes.is_none());
    assert_eq!(app.selected_tab_groups.closed_group_indexes, Some(vec![]));
    match launch {
        LaunchRequest::LoadFile { path, file_handle } => {
            assert_eq!(path, "sessionstore.jsonlz4");
            assert!(file_handle.is_none());
        },
        other => panic!("expected a load launch, got {other:?}"),
    }

    // The host read a compressed file; the driver runs the pipeline inside
    // the background task, announcing progress through the mailbox.
    let snapshot = FileSnapshot {
        path: "sessionstore.jsonlz4".to_string(),
        stage: Some(FileStage::Compressed),
    };
    let (mut driver, emits) = PipelineDriver::start(&snapshot);
    deliver(&mut app, emits);
    let emits = driver.apply_outcome(PipelineOutcome::StageDone);
    deliver(&mut app, emits);
    let emits = driver.apply_outcome(PipelineOutcome::StageDone);
    deliver(&mut app, emits);
    let groups = AllTabGroups {
        open: vec![TabGroup { index: 0, name: "A".to_string() }],
        closed: vec![TabGroup { index: 1, name: "B".to_string() }],
    };
    let emits = driver.apply_outcome(PipelineOutcome::Extracted(groups));
    deliver(&mut app, emits);

    // One tick: everything queued is applied before rendering.
    let launches = app.drain_and_apply();
    assert_eq!(app.tab_groups.open.len(), 1);
    assert_eq!(app.tab_groups.open[0].name, "A");
    assert_eq!(app.tab_groups.closed.len(), 1);
    assert_eq!(app.tab_groups.closed[0].name, "B");
    assert_eq!(app.loaded_data.as_ref().unwrap().stage, Some(FileStage::Parsed));
    assert_eq!(app.status, "Generating preview");

    // The arrival of the groups asked for exactly one preview render, for
    // the current selection: all open windows, no closed ones.
    assert_eq!(launches.len(), 1);
    let rest = run_preview_launches(&mut app, launches);
    assert!(rest.is_empty());
    let launches = app.drain_and_apply();
    assert!(launches.is_empty());
    assert_eq!(app.preview, "A\n");
    assert_eq!(app.status, "Successfully loaded session data");

    // Select open index 0 explicitly: the preview regenerates and still
    // holds A's tabs only.
    let launch = app.handle_command(Command::ChangeTabGroupSelection {
        open: true,
        index: 0,
        select: true,
    });
    assert_eq!(app.selected_tab_groups.open_group_indexes, Some(vec![0]));
    assert_eq!(app.status, "Generating preview");
    let rest = run_preview_launches(&mut app, Vec::from_iter(launch));
    assert!(rest.is_empty());
    app.drain_and_apply();
    assert_eq!(app.preview, "A\n");

    // Deselect it again: the repair rule falls back to all open windows with
    // the closed bucket explicitly empty, and the preview is A again.
    let launch = app.handle_command(Command::ChangeTabGroupSelection {
        open: true,
        index: 0,
        select: false,
    });
    assert!(app.selected_tab_groups.open_group_indexes.is_none());
    assert_eq!(app.selected_tab_groups.closed_group_indexes, Some(vec![]));
    assert_eq!(app.status, "Generating preview");
    let rest = run_preview_launches(&mut app, Vec::from_iter(launch));
    assert!(rest.is_empty());
    app.drain_and_apply();
    assert_eq!(app.preview, "A\n");
}

#[test]
fn selection_clicks_routed_through_the_mailbox_behave_like_direct_calls() {
    let mut app = FirefoxSessionDataApp::default();
    app.loaded_data = Some(FileSnapshot {
        path: "session".to_string(),
        stage: Some(FileStage::Parsed),
    });

    // A clicked row enqueues the toggle instead of mutating state directly.
    app.background.sender().send(Command::ChangeTabGroupSelection {
        open: true,
        index: 0,
        select: true,
    });
    // Selecting an already-selected index again must decide on no second
    // render.
    app.background.sender().send(Command::ChangeTabGroupSelection {
        open: true,
        index: 0,
        select: true,
    });

    let launches = app.drain_and_apply();
    assert_eq!(app.selected_tab_groups.open_group_indexes, Some(vec![0]));
    assert_eq!(launches.len(), 1);
    assert!(matches!(launches[0], LaunchRequest::RegeneratePreview { .. }));
}

#[test]
fn drain_returns_launches_in_command_order() {
    let mut app = FirefoxSessionDataApp::default();
    app.loaded_data = Some(FileSnapshot {
        path: "session".to_string(),
        stage: Some(FileStage::Parsed),
    });

    app.background.sender().send(Command::ParsedTabGroups(AllTabGroups {
        open: vec![TabGroup { index: 0, name: "A".to_string() }],
        closed: vec![],
    }));
    app.background.sender().send(Command::SaveLinksToFile);

    let launches = app.drain_and_apply();
    assert_eq!(launches.len(), 2);
    assert!(matches!(launches[0], LaunchRequest::RegeneratePreview { .. }));
    assert!(matches!(launches[1], LaunchRequest::SaveLinks { .. }));
    assert_eq!(app.status, "Saving links to file");
}

#[test]
fn decompress_failure_reaches_the_status_line_and_nothing_else() {
    let mut app = FirefoxSessionDataApp::default();
    app.input_path = "broken.jsonlz4".to_string();
    app.load_input_data();

    let snapshot = FileSnapshot {
        path: "broken.jsonlz4".to_string(),
        stage: Some(FileStage::Compressed),
    };
    let (mut driver, emits) = PipelineDriver::start(&snapshot);
    deliver(&mut app, emits);
    let emits = driver.apply_outcome(PipelineOutcome::OpFailed("truncated".to_string()));
    deliver(&mut app, emits);

    let launches = app.drain_and_apply();
    assert!(launches.is_empty());
    assert_eq!(app.status, "Failed to decompress data: truncated");
    // The snapshot never advanced past its announced stage and no groups
    // arrived.
    assert_eq!(app.loaded_data.as_ref().unwrap().stage, Some(FileStage::Compressed));
    assert!(app.tab_groups.open.is_empty());
    assert!(app.tab_groups.closed.is_empty());
    assert_eq!(app.preview, "");
}
