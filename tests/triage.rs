use std::collections::HashSet;

use image_triage::config::Config;
use image_triage::manager::{ImageManager, Mode};
use image_triage::paths::{is_image_extension, is_image_path, scan};
use image_triage::queue::ImageQueue;
use image_triage::session::{TriageSession, UndoOutcome};

fn strings(v: &[&str]) -> Vec<String> {
    v.iter().map(|s| s.to_string()).collect()
}

fn rename(files: &mut HashSet<String>, from: &str, to: &str) -> bool {
    if !files.contains(from) || files.contains(to) {
        return false;
    }
    files.remove(from);
    files.insert(to.to_string());
    true
}

fn session_at(paths: &[&str], index: usize) -> TriageSession {
    let mut s = TriageSession::new(strings(paths));
    s.queue.index = index;
    s
}

#[test]
fn remove_middle_keeps_index() {
    let mut q = ImageQueue::new(strings(&["a.png", "b.png", "c.png"]));
    q.index = 1;
    let r = q.remove_current();
    assert_eq!(r, "b.png");
    assert_eq!(q.images, strings(&["a.png", "c.png"]));
    assert_eq!(q.index, 1);
}

#[test]
fn remove_last_clamps_to_new_last() {
    let mut q = ImageQueue::new(strings(&["a.png", "b.png", "c.png"]));
    q.index = 2;
    q.remove_current();
    assert_eq!(q.images, strings(&["a.png", "b.png"]));
    assert_eq!(q.index, 1);
}

#[test]
fn remove_only_image_empties_queue() {
    let mut q = ImageQueue::new(strings(&["a.png"]));
    q.remove_current();
    assert!(q.is_empty());
    assert_eq!(q.current(), None);
}

#[test]
fn reinsert_appends_and_selects() {
    let mut q = ImageQueue::new(strings(&["a.png", "b.png"]));
    q.reinsert("z.png".to_string());
    assert_eq!(q.images, strings(&["a.png", "b.png", "z.png"]));
    assert_eq!(q.index, 2);
    assert_eq!(q.current(), Some("z.png".to_string()));
}

#[test]
fn scan_missing_folder_is_empty() {
    assert!(scan(None).is_empty());
}

#[test]
fn scan_keeps_images_in_listing_order() {
    let listing = strings(&[
        "in/IMG.JPG",
        "in/doc.txt",
        "in/a.png",
        "in/noext",
        "in/b.JpEg",
        "in/c.webp",
        "in/d.bmp",
        "in/e.TIFF",
        "in/f.gif",
        "in/g.jpe",
        "in/.png",
        "in/archive.png.zip",
    ]);
    let r = scan(Some(listing));
    assert_eq!(
        r,
        strings(&[
            "in/IMG.JPG",
            "in/a.png",
            "in/b.JpEg",
            "in/c.webp",
            "in/d.bmp",
            "in/e.TIFF",
            "in/f.gif",
        ])
    );
}

#[test]
fn scan_empty_folder_is_empty() {
    assert!(scan(Some(Vec::new())).is_empty());
}

#[test]
fn image_extensions_ignore_case() {
    for e in ["png", "PNG", "Jpg", "jpeg", "WEBP", "bmp", "tiff", "GiF"] {
        assert!(is_image_extension(e), "{}", e);
    }
    for e in ["txt", "jpe", "pngg", "", "tif", "j p g"] {
        assert!(!is_image_extension(e), "{}", e);
    }
    assert!(is_image_path("photos/IMG.JPG"));
    assert!(!is_image_path("photos/doc.txt"));
    assert!(!is_image_path("photos/png"));
}

#[test]
fn move_scenario_clamps_and_records() {
    let mut files: HashSet<String> =
        ["original/A.png", "original/B.jpg", "original/C.png"].iter().map(|s| s.to_string()).collect();
    let mut s = session_at(&["original/A.png", "original/B.jpg", "original/C.png"], 1);
    assert_eq!(s.select_current(), Some("original/B.jpg".to_string()));
    let plan = s.plan_move("dest").unwrap();
    assert_eq!(plan.from, "original/B.jpg");
    assert_eq!(plan.to, "dest/B.jpg");
    let ok = rename(&mut files, &plan.from, &plan.to);
    assert!(ok);
    s.finish_move(plan, ok);
    assert!(files.contains("dest/B.jpg"));
    assert!(!files.contains("original/B.jpg"));
    assert_eq!(s.queue.images, strings(&["original/A.png", "original/C.png"]));
    assert_eq!(s.queue.index, 1);
    assert_eq!(s.current, None);
    assert_eq!(s.undo.len(), 1);
    assert_eq!(s.undo[0].after, "dest/B.jpg");
    assert_eq!(s.undo[0].before, "original/B.jpg");
    assert_eq!(s.select_current(), Some("original/C.png".to_string()));
}

#[test]
fn failed_move_changes_nothing() {
    let mut s = session_at(&["in/a.png", "in/b.png"], 0);
    s.select_current();
    let plan = s.plan_move("out").unwrap();
    s.finish_move(plan, false);
    assert_eq!(s.queue.images, strings(&["in/a.png", "in/b.png"]));
    assert_eq!(s.queue.index, 0);
    assert_eq!(s.current, Some("in/a.png".to_string()));
    assert!(s.undo.is_empty());
}

#[test]
fn undo_after_move_restores_at_end() {
    let mut files: HashSet<String> =
        ["in/a.png", "in/b.png", "in/c.png"].iter().map(|s| s.to_string()).collect();
    let mut s = session_at(&["in/a.png", "in/b.png", "in/c.png"], 0);
    s.select_current();
    let plan = s.plan_move("out").unwrap();
    let ok = rename(&mut files, &plan.from, &plan.to);
    s.finish_move(plan, ok);
    assert_eq!(s.queue.len(), 2);
    assert_eq!(s.undo.len(), 1);

    let u = s.plan_undo().unwrap();
    assert_eq!(u.after, "out/a.png");
    assert_eq!(u.before, "in/a.png");
    let outcome = if !files.contains(&u.after) {
        UndoOutcome::SourceMissing
    } else if rename(&mut files, &u.after, &u.before) {
        UndoOutcome::Restored
    } else {
        UndoOutcome::Failed
    };
    s.finish_undo(outcome);
    assert!(files.contains("in/a.png"));
    assert!(!files.contains("out/a.png"));
    assert_eq!(s.queue.images, strings(&["in/b.png", "in/c.png", "in/a.png"]));
    assert_eq!(s.queue.index, 2);
    assert_eq!(s.current, Some("in/a.png".to_string()));
    assert!(s.undo.is_empty());
}

#[test]
fn undo_with_missing_file_drops_record() {
    let mut s = session_at(&["in/a.png"], 0);
    s.select_current();
    let plan = s.plan_move("out").unwrap();
    s.finish_move(plan, true);
    assert!(s.queue.is_empty());
    s.finish_undo(UndoOutcome::SourceMissing);
    assert!(s.undo.is_empty());
    assert!(s.queue.is_empty());
    assert_eq!(s.current, None);
}

#[test]
fn failed_undo_keeps_record() {
    let mut s = session_at(&["in/a.png"], 0);
    s.select_current();
    let plan = s.plan_move("out").unwrap();
    s.finish_move(plan, true);
    s.finish_undo(UndoOutcome::Failed);
    assert_eq!(s.undo.len(), 1);
    assert!(s.queue.is_empty());
}

#[test]
fn undo_on_empty_stack_is_noop() {
    let mut s = session_at(&["in/a.png", "in/b.png"], 1);
    s.select_current();
    assert!(s.plan_undo().is_none());
    for _ in 0..3 {
        s.finish_undo(UndoOutcome::Restored);
        s.finish_undo(UndoOutcome::SourceMissing);
    }
    assert_eq!(s.queue.images, strings(&["in/a.png", "in/b.png"]));
    assert_eq!(s.queue.index, 1);
    assert_eq!(s.current, Some("in/b.png".to_string()));
    assert!(s.undo.is_empty());
}

#[test]
fn move_on_empty_queue_plans_nothing() {
    let mut s = TriageSession::new(Vec::new());
    assert_eq!(s.select_current(), None);
    assert!(s.plan_move("anything").is_none());
    assert!(s.plan_delete("trash", false).is_none());
    assert!(s.queue.is_empty());
    assert!(s.undo.is_empty());
}

#[test]
fn move_of_path_without_file_name_plans_nothing() {
    let mut s = session_at(&["in/.."], 0);
    assert_eq!(s.select_current(), Some("in/..".to_string()));
    assert!(s.plan_move("out").is_none());
    assert!(s.plan_delete("trash", true).is_none());
}

#[test]
fn move_without_selection_plans_nothing() {
    let s = session_at(&["in/a.png"], 0);
    assert!(s.plan_move("out").is_none());
}

#[test]
fn delete_creates_missing_trash_then_moves() {
    let mut s = session_at(&["in/a.png", "in/b.png"], 0);
    s.select_current();
    let d = s.plan_delete("in/trash", false).unwrap();
    assert!(d.create_trash);
    assert_eq!(d.rename.from, "in/a.png");
    assert_eq!(d.rename.to, "in/trash/a.png");
    let m = s.plan_move("in/trash").unwrap();
    assert_eq!(m.to, d.rename.to);
    let d2 = s.plan_delete("in/trash", true).unwrap();
    assert!(!d2.create_trash);
    s.finish_move(d.rename, true);
    assert_eq!(s.queue.images, strings(&["in/b.png"]));
    assert_eq!(s.undo[0].after, "in/trash/a.png");
}

#[test]
fn config_destinations() {
    let mut c = Config::empty();
    assert!(c.input_folder.is_empty() && c.trash_folder.is_empty());
    assert!(!c.add_typed_destination(""));
    assert!(c.destination_folders.is_empty());
    assert!(c.add_typed_destination("a"));
    c.add_destination("b".to_string());
    c.add_destination("a".to_string());
    c.add_destination("c".to_string());
    assert_eq!(c.destination_folders, strings(&["a", "b", "a", "c"]));
    assert!(c.remove_destinations(&vec![0, 2]));
    assert_eq!(c.destination_folders, strings(&["b", "c"]));
    assert!(!c.remove_destinations(&Vec::new()));
    assert_eq!(c.destination_folders, strings(&["b", "c"]));
}

#[test]
fn remove_destinations_any_order() {
    let mut c = Config::empty();
    for f in ["d0", "d1", "d2", "d3", "d4"] {
        c.add_destination(f.to_string());
    }
    assert!(c.remove_destinations(&vec![3, 0, 3, 9]));
    assert_eq!(c.destination_folders, strings(&["d1", "d2", "d4"]));
    assert!(c.remove_destinations(&vec![7]));
    assert_eq!(c.destination_folders, strings(&["d1", "d2", "d4"]));
}

#[test]
fn manager_modes() {
    let mut c = Config::empty();
    c.trash_folder = "bin".to_string();
    let mut m = ImageManager::new(c, Some(strings(&["in/x.png", "in/y.txt"])));
    assert!(matches!(m.mode, Mode::Configuring));
    assert_eq!(m.session.queue.images, strings(&["in/x.png"]));
    assert_eq!(m.image_to_show(false), None);

    m.start_triage(Some(strings(&["in/a.gif", "in/b.doc", "in/c.PNG"])));
    assert!(matches!(m.mode, Mode::Triaging));
    assert_eq!(m.session.queue.images, strings(&["in/a.gif", "in/c.PNG"]));
    assert_eq!(m.image_to_show(true), None);
    assert_eq!(m.image_to_show(false), Some("in/a.gif".to_string()));
    let d = m.plan_delete(true).unwrap();
    assert!(!d.create_trash);
    assert_eq!(d.rename.to, "bin/a.gif");

    m.session.queue.index = 1;
    m.back_to_config();
    assert!(matches!(m.mode, Mode::Configuring));
    assert_eq!(m.session.current, None);
    assert_eq!(m.session.queue.index, 0);
    assert_eq!(m.session.queue.images, strings(&["in/a.gif", "in/c.PNG"]));

    m.start_triage(None);
    assert!(m.session.queue.is_empty());
    assert_eq!(m.image_to_show(false), None);
}
