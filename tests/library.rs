use yeeet::matcher::{candidate_qualifies, PatternMatcher};
use yeeet::path::{extension, file_name, ScreenshotCandidate};
use yeeet::popover::{
    popover_config, Anchor, PopoverState, PopoverWindowController, WindowAction, WindowError,
};
use yeeet::tray::{menu_action, tray_action, MenuAction, MouseButton, MouseButtonState, TrayAction, TrayEvent};
use yeeet::watcher::{paths_to_announce, resolve_watch_root, FsEvent, FsEventKind, SCREENSHOT_TOPIC};

fn create_event(paths: &[&str]) -> FsEvent {
    FsEvent { kind: FsEventKind::Create, paths: paths.iter().map(|p| p.to_string()).collect() }
}

#[test]
fn matches_screenshot_name() {
    let m = PatternMatcher::new();
    assert!(m.matches("/x/Screenshot 01.02.03.png"));
    assert!(m.matches("/home/u/Desktop/Capture 2024-05-01 at 12.34.56.png"));
}

#[test]
fn rejects_upper_case_extension() {
    assert!(!PatternMatcher::new().matches("/x/image.PNG"));
    assert!(!PatternMatcher::new().matches("/x/01.02.03.PNG"));
}

#[test]
fn rejects_other_extension() {
    assert!(!PatternMatcher::new().matches("/x/01.02.03.jpg"));
}

#[test]
fn rejects_wrong_digit_count() {
    assert!(!PatternMatcher::new().matches("/x/01.02.3.png"));
    assert!(!PatternMatcher::new().matches("/x/Screenshot.png"));
}

#[test]
fn rejects_paths_without_file_or_extension() {
    let m = PatternMatcher::new();
    assert!(!m.matches(""));
    assert!(!m.matches("/"));
    assert!(!m.matches("/x/01.02.03.png/"));
    assert!(!m.matches("/x/.."));
    assert!(!m.matches("/x/010203"));
    assert!(!m.matches("/x/01.02.03.png.bak"));
}

#[test]
fn file_name_and_extension_parts() {
    assert_eq!(file_name("/a/b/c.txt"), Some("c.txt".to_string()));
    assert_eq!(file_name("c.txt"), Some("c.txt".to_string()));
    assert_eq!(file_name("/a/b/"), None);
    assert_eq!(file_name("/a/."), None);
    assert_eq!(extension("c.tar.gz"), Some("gz".to_string()));
    assert_eq!(extension(".bashrc"), None);
    assert_eq!(extension("noext"), None);
    assert_eq!(extension("a."), Some("".to_string()));
}

#[test]
fn candidate_from_path() {
    let c = ScreenshotCandidate::from_path("/x/Shot 01.02.03.png").unwrap();
    assert_eq!(c.path, "/x/Shot 01.02.03.png");
    assert_eq!(c.filename, "Shot 01.02.03.png");
    assert_eq!(c.extension, "png");
    assert!(ScreenshotCandidate::from_path("/x/README").is_none());
}

#[test]
fn non_matching_creation_is_not_announced() {
    let m = PatternMatcher::new();
    let out = paths_to_announce(&m, &create_event(&["/home/u/Desktop/notes.txt"]));
    assert!(out.is_empty());
}

#[test]
fn matching_creation_is_announced_once() {
    let m = PatternMatcher::new();
    let p = "/home/u/Desktop/Screenshot 10.20.30.png";
    let out = paths_to_announce(&m, &create_event(&[p]));
    assert_eq!(out, vec![p.to_string()]);
    assert_eq!(SCREENSHOT_TOPIC, "screenshot-created");
}

#[test]
fn batch_keeps_order_and_filters() {
    let m = PatternMatcher::new();
    let ev = create_event(&["/d/b 11.11.11.png", "/d/skip.png", "/d/a 22.22.22.png"]);
    assert_eq!(paths_to_announce(&m, &ev), vec!["/d/b 11.11.11.png".to_string(), "/d/a 22.22.22.png".to_string()]);
}

#[test]
fn other_events_are_not_announced() {
    let m = PatternMatcher::new();
    let ev = FsEvent { kind: FsEventKind::Other, paths: vec!["/d/b 11.11.11.png".to_string()] };
    assert!(paths_to_announce(&m, &ev).is_empty());
}

#[test]
fn watch_root_under_home() {
    assert_eq!(resolve_watch_root(Some("/home/u")), "/home/u/Desktop");
    assert_eq!(resolve_watch_root(Some("/home/u/")), "/home/u/Desktop");
    assert_eq!(resolve_watch_root(Some("")), "Desktop");
}

#[test]
fn watch_root_without_home() {
    assert_eq!(resolve_watch_root(None), "/");
}

#[test]
fn toggle_cycle() {
    let mut c = PopoverWindowController::new();
    assert_eq!(c.state(), PopoverState::Absent);
    assert_eq!(c.plan_toggle(), WindowAction::CreateAndShow);
    c.finish_toggle(Ok(()));
    assert_eq!(c.state(), PopoverState::Visible);
    assert_eq!(c.windows_created(), 1);
    assert_eq!(c.plan_toggle(), WindowAction::Hide);
    c.finish_toggle(Ok(()));
    assert_eq!(c.state(), PopoverState::Hidden);
    assert_eq!(c.windows_created(), 1);
    assert_eq!(c.plan_toggle(), WindowAction::Show);
    c.finish_toggle(Ok(()));
    assert_eq!(c.state(), PopoverState::Visible);
    assert_eq!(c.windows_created(), 1);
}

#[test]
fn failed_creation_leaves_no_window() {
    let mut c = PopoverWindowController::new();
    c.finish_toggle(Err(WindowError::CreationFailed));
    assert_eq!(c.state(), PopoverState::Absent);
    assert_eq!(c.windows_created(), 0);
}

#[test]
fn failed_positioning_keeps_window_hidden() {
    let mut c = PopoverWindowController::new();
    c.finish_toggle(Err(WindowError::PositionFailed));
    assert_eq!(c.state(), PopoverState::Hidden);
    assert_eq!(c.windows_created(), 1);
    c.finish_toggle(Err(WindowError::VisibilityFailed));
    assert_eq!(c.state(), PopoverState::Hidden);
    c.finish_toggle(Ok(()));
    assert_eq!(c.state(), PopoverState::Visible);
    c.finish_toggle(Err(WindowError::VisibilityFailed));
    assert_eq!(c.state(), PopoverState::Visible);
    assert_eq!(c.windows_created(), 1);
}

#[test]
fn many_toggles_one_window() {
    let mut c = PopoverWindowController::new();
    for _ in 0..25 {
        c.finish_toggle(Ok(()));
        assert!(c.windows_created() <= 1);
    }
    assert_eq!(c.state(), PopoverState::Visible);
    assert_eq!(c.windows_created(), 1);
}

#[test]
fn popover_settings() {
    let c = popover_config();
    assert_eq!((c.width, c.height), (360, 450));
    assert!(!c.resizable && !c.decorated && c.transparent && !c.taskbar_visible);
    assert!(!c.visible_at_creation && c.visible_on_all_workspaces);
    assert_eq!(c.anchor, Anchor::TrayBottomCenter);
}

#[test]
fn left_release_toggles() {
    let e = TrayEvent::Click { button: MouseButton::Left, button_state: MouseButtonState::Up };
    assert_eq!(tray_action(e), TrayAction::TogglePopover);
}

#[test]
fn other_tray_events_ignored() {
    let down = TrayEvent::Click { button: MouseButton::Left, button_state: MouseButtonState::Down };
    let right = TrayEvent::Click { button: MouseButton::Right, button_state: MouseButtonState::Up };
    assert_eq!(tray_action(down), TrayAction::Ignore);
    assert_eq!(tray_action(right), TrayAction::Ignore);
    assert_eq!(tray_action(TrayEvent::Other), TrayAction::Ignore);
}

#[test]
fn quit_exits_with_zero() {
    assert_eq!(menu_action("quit"), MenuAction::Exit(0));
    assert_eq!(menu_action("other"), MenuAction::Ignore);
    assert_eq!(menu_action("Quit"), MenuAction::Ignore);
}

#[test]
fn candidate_decision_from_search_outcome() {
    let c = ScreenshotCandidate::from_path("/x/Shot 01.02.03.png").unwrap();
    assert!(candidate_qualifies(&c, Some(true)));
    assert!(!candidate_qualifies(&c, Some(false)));
    assert!(!candidate_qualifies(&c, None));
    let jpg = ScreenshotCandidate::from_path("/x/Shot 01.02.03.jpg").unwrap();
    assert!(!candidate_qualifies(&jpg, Some(true)));
}

#[test]
fn candidate_matching_runs_the_search() {
    let m = PatternMatcher::new();
    let yes = ScreenshotCandidate::from_path("/x/Shot 01.02.03.png").unwrap();
    let no = ScreenshotCandidate::from_path("/x/Shot 1.02.03.png").unwrap();
    assert!(m.matches_candidate(&yes));
    assert!(!m.matches_candidate(&no));
}
