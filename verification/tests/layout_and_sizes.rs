use procmux::app::{App, ProcessColor, ProcessStatus, ProcfileEntry, PtyResize};
use procmux::keys::{KeyCode, KeyInput, KeyModifiers};
use procmux::ui::{centered_rect, process_title, Area, Screen};

fn app_with(n: usize) -> App {
    let entries = (0..n)
        .map(|i| ProcfileEntry { name: format!("p{}", i), command: format!("cmd {}", i) })
        .collect();
    App::new(entries)
}

fn press(app: &mut App, c: char) {
    let modifiers = KeyModifiers { shift: false, control: false, alt: false, super_key: false, hyper: false, meta: false };
    app.handle_key_events(KeyInput { code: KeyCode::Char(c), modifiers });
}

fn area(x: u16, y: u16, width: u16, height: u16) -> Area {
    Area { x, y, width, height }
}

#[test]
fn grid_resize_gives_every_process_one_cell() {
    let app = app_with(3);
    let plan = app.resize_processes(24, 80);
    assert_eq!(
        plan,
        vec![
            PtyResize { index: 0, rows: 10, cols: 38 },
            PtyResize { index: 1, rows: 10, cols: 38 },
            PtyResize { index: 2, rows: 10, cols: 38 },
        ]
    );
}

#[test]
fn grid_resize_saturates_on_tiny_screens() {
    let app = app_with(4);
    let plan = app.resize_processes(3, 3);
    assert!(plan.iter().all(|r| r.rows == 0 && r.cols == 0));
    assert_eq!(plan.len(), 4);
}

#[test]
fn fullscreen_resize_touches_only_that_process() {
    let mut app = app_with(3);
    press(&mut app, 'l');
    press(&mut app, 'f');
    assert_eq!(app.resize_processes(24, 80), vec![PtyResize { index: 1, rows: 19, cols: 78 }]);
    assert_eq!(app.resize_processes(4, 1), vec![PtyResize { index: 1, rows: 0, cols: 0 }]);
}

#[test]
fn resize_without_processes_does_nothing() {
    let app = app_with(0);
    assert!(app.resize_processes(24, 80).is_empty());
}

#[test]
fn centered_rect_takes_the_middle() {
    assert_eq!(centered_rect(60, 60, area(0, 0, 100, 50)), area(20, 10, 60, 30));
    assert_eq!(centered_rect(100, 100, area(3, 4, 10, 10)), area(3, 4, 10, 10));
}

#[test]
fn titles_show_status_name_and_command() {
    let mut app = app_with(10);
    app.set_status(0, ProcessStatus::Running);
    let t = process_title(&app.processes[0], 0, true);
    assert_eq!(t.badge, " ¹");
    assert_eq!(t.text, "● p0: cmd 0 ");
    assert_eq!(t.color, ProcessColor::Cyan);
    assert!(t.highlighted);
    let t = process_title(&app.processes[8], 8, false);
    assert_eq!(t.badge, " ⁹");
    assert_eq!(t.text, "○ p8: cmd 8 ");
    assert!(!t.highlighted);
    let t = process_title(&app.processes[9], 9, false);
    assert_eq!(t.badge, "");
}

#[test]
fn render_without_processes_shows_the_notice() {
    let mut app = app_with(0);
    press(&mut app, 'p');
    let plan = app.render(area(0, 0, 80, 24));
    assert!(matches!(plan.screen, Screen::NoProcesses));
    assert!(plan.help.is_none());
}

#[test]
fn render_grid_places_each_process_once() {
    let mut app = app_with(3);
    press(&mut app, 'l');
    let plan = app.render(area(0, 0, 80, 24));
    assert!(plan.help.is_none());
    match plan.screen {
        Screen::Grid { panes } => {
            assert_eq!(panes.len(), 3);
            assert_eq!(panes[0].area, area(0, 0, 40, 12));
            assert_eq!(panes[1].area, area(40, 0, 40, 12));
            assert_eq!(panes[2].area, area(0, 12, 40, 12));
            for (k, p) in panes.iter().enumerate() {
                assert_eq!(p.index, k);
                assert_eq!(p.selected, k == 1);
                assert!(!p.interactive);
            }
            assert_eq!(panes[2].title.text, "○ p2: cmd 2 ");
        }
        _ => panic!("expected the grid"),
    }
}

#[test]
fn render_interactive_pane_is_the_selected_one() {
    let mut app = app_with(2);
    press(&mut app, 'i');
    let plan = app.render(area(0, 0, 80, 24));
    match plan.screen {
        Screen::Grid { panes } => {
            assert!(panes[0].interactive);
            assert!(!panes[1].interactive);
        }
        _ => panic!("expected the grid"),
    }
}

#[test]
fn render_fullscreen_shows_tabs_and_one_pane() {
    let mut app = app_with(3);
    press(&mut app, '3');
    press(&mut app, 'f');
    press(&mut app, 'p');
    let plan = app.render(area(0, 0, 100, 50));
    assert_eq!(plan.help, Some(area(20, 10, 60, 30)));
    match plan.screen {
        Screen::Fullscreen { tabs_area, tabs, selected_tab, pane } => {
            assert_eq!(tabs_area, area(0, 0, 100, 3));
            assert_eq!(selected_tab, 2);
            assert_eq!(tabs.len(), 3);
            assert!(tabs[2].highlighted);
            assert!(!tabs[0].highlighted);
            let pane = pane.expect("a pane");
            assert_eq!(pane.index, 2);
            assert!(pane.selected);
            assert_eq!(pane.area, area(0, 3, 100, 47));
        }
        _ => panic!("expected fullscreen"),
    }
}

#[test]
fn grid_panes_take_the_given_cells() {
    let mut app = app_with(3);
    press(&mut app, 'i');
    let cells = vec![
        vec![area(0, 0, 5, 5), area(5, 0, 5, 5)],
        vec![area(0, 5, 5, 5), area(5, 5, 5, 5)],
    ];
    let panes = app.grid_panes(&cells);
    assert_eq!(panes.len(), 3);
    assert_eq!(panes[1].area, area(5, 0, 5, 5));
    assert_eq!(panes[2].area, area(0, 5, 5, 5));
    assert!(panes[0].selected && panes[0].interactive);
    assert!(!panes[2].selected && !panes[2].interactive);
    assert_eq!(panes[2].index, 2);
}

#[test]
fn fullscreen_screen_uses_the_given_areas() {
    let app = app_with(2);
    match app.fullscreen_screen(1, area(0, 0, 9, 3), area(0, 3, 9, 6)) {
        Screen::Fullscreen { tabs_area, tabs, selected_tab, pane } => {
            assert_eq!(tabs_area, area(0, 0, 9, 3));
            assert_eq!(selected_tab, 1);
            assert!(tabs[1].highlighted && !tabs[0].highlighted);
            let pane = pane.expect("a pane");
            assert_eq!(pane.area, area(0, 3, 9, 6));
            assert_eq!(pane.index, 1);
        }
        _ => panic!("expected fullscreen"),
    }
    match app.fullscreen_screen(5, area(0, 0, 9, 3), area(0, 3, 9, 6)) {
        Screen::Fullscreen { pane, .. } => assert!(pane.is_none()),
        _ => panic!("expected fullscreen"),
    }
}
