use vedit::history::History;
use vedit::project::track::TrackKind;
use vedit::project::Project;

#[test]
fn test_undo_redo_flow() {
    let mut project = Project::new("Test Project");
    let mut history = History::new();

    history.push(&project, "Añadir track audio");
    project.add_track(TrackKind::Audio, "Audio 1");
    assert_eq!(project.tracks.len(), 1);

    history.push(&project, "Renombrar proyecto");
    project.metadata.name = "Vedit Updated".to_string();

    project = history.undo(&project).expect("Debería poder hacer undo");
    assert_eq!(project.metadata.name, "Test Project");
    assert_eq!(project.tracks.len(), 1);

    project = history.undo(&project).expect("Debería poder hacer undo");
    assert_eq!(project.tracks.len(), 0);

    project = history.redo(&project).expect("Debería poder hacer redo");
    assert_eq!(project.tracks.len(), 1);
    assert_eq!(project.metadata.name, "Test Project");

    history.undo(&project);
    history.push(&project, "Acción nueva");
    assert!(!history.can_redo());
}

#[test]
fn empty_history_gives_nothing() {
    let p = Project::new("P");
    let mut h = History::new();
    assert!(!h.can_undo());
    assert!(!h.can_redo());
    assert!(h.undo(&p).is_none());
    assert!(h.redo(&p).is_none());
    assert_eq!(h.undo_description(), None);
}

#[test]
fn undo_and_redo_descriptions() {
    let p = Project::new("P");
    let mut h = History::new();
    h.push(&p, "paso");
    assert_eq!(h.undo_description(), Some("paso"));
    h.undo(&p);
    assert_eq!(h.future_entries()[0].description, "undo: paso");
    h.redo(&p);
    assert_eq!(h.undo_description(), Some("redo: undo: paso"));
}

#[test]
fn history_keeps_fifty_steps() {
    let p = Project::new("P");
    let mut h = History::new();
    for i in 0..60 {
        h.push(&p, &format!("op {}", i));
    }
    assert_eq!(h.past_entries().len(), 50);
    assert_eq!(h.past_entries()[0].description, "op 10");
    assert_eq!(h.undo_description(), Some("op 59"));
}

#[test]
fn redo_after_undo_returns_the_current_state() {
    let mut p = Project::new("P");
    let mut h = History::new();
    h.push(&p, "add");
    p.add_track(TrackKind::Video, "V");
    let back = h.undo(&p).unwrap();
    assert_eq!(back.tracks.len(), 0);
    let forward = h.redo(&back).unwrap();
    assert_eq!(forward.tracks.len(), 1);
    assert_eq!(forward.tracks[0].name, "V");
    let c = h.clone();
    assert_eq!(c.past_entries().len(), h.past_entries().len());
}
