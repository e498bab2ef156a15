use rusqlite::Connection;
use time_tracker::app::{AppState, UiMode};
use time_tracker::events::{Event, KeyCode, KeyEvent, KeyEventKind};
use ratatui::layout::{Constraint, Direction, Layout, Rect};
use time_tracker::ui::{centered_area, centered_percentages, frame_layout, screen, Accent, Area};

fn press(code: KeyCode) -> Event {
    Event::Key(KeyEvent { code, kind: KeyEventKind::Press })
}

#[test]
fn menu_screen() {
    let app = AppState::new(Connection::open_in_memory().unwrap());
    let s = screen(&app);
    assert_eq!(s.header, "Time Tracker Application");
    assert_eq!(s.panel_title, " Main Menu ");
    assert_eq!(
        s.panel_text,
        "Welcome to the registration.\n\nPress 'e' to enter a new manual period.\nPress 'q' to exit the application."
    );
    assert_eq!(s.accent, Accent::Plain);
    assert_eq!(s.footer, " 'q' Exit | 'e' Write period ");
    assert!(s.popup.is_none());
    assert!(s.total_seconds.is_none());
}

#[test]
fn input_screens_show_the_typed_text() {
    let mut app = AppState::new(Connection::open_in_memory().unwrap());
    app.handle_event(press(KeyCode::Char('e')));
    app.handle_event(press(KeyCode::Char('2')));
    app.handle_event(press(KeyCode::Char('0')));
    let s = screen(&app);
    assert_eq!(s.panel_title, " Enter Time ");
    assert_eq!(s.panel_text, "Enter the date (YYYY-MM-DD HH:MM:SS):\n\n> 20");
    assert_eq!(s.accent, Accent::Green);
    assert_eq!(s.footer, " 'Esc' Cancel and return to Menu | 'Enter' Save ");
    app.ui_mode = UiMode::WritingExitTime;
    let s = screen(&app);
    assert_eq!(s.panel_text, "Enter the exit date (YYYY-MM-DD HH:MM:SS):\n\n> 20");
    assert_eq!(s.accent, Accent::LightRed);
}

#[test]
fn result_screen_carries_the_total() {
    let mut app = AppState::new(Connection::open_in_memory().unwrap());
    app.finish_calculation(Ok(7200));
    let s = screen(&app);
    assert_eq!(s.total_seconds, Some(7200));
    assert_eq!(s.panel_title, " Total ");
    app.ui_mode = UiMode::Menu;
    assert_eq!(screen(&app).total_seconds, None);
}

#[test]
fn errors_show_in_a_popup() {
    let mut app = AppState::new(Connection::open_in_memory().unwrap());
    app.handle_event(press(KeyCode::Char('c')));
    app.handle_event(press(KeyCode::Enter));
    let s = screen(&app);
    assert_eq!(s.popup.as_deref(), Some("Invalid date format. Please use YYYY-MM-DD."));
    assert_eq!(s.panel_title, " Start Date ");
}

#[test]
fn centered_percentages_split_the_rest() {
    assert_eq!(centered_percentages(50), (25, 50, 25));
    assert_eq!(centered_percentages(20), (40, 20, 40));
    assert_eq!(centered_percentages(33), (33, 33, 33));
    assert_eq!(centered_percentages(100), (0, 100, 0));
    assert_eq!(centered_percentages(0), (50, 0, 50));
}

#[test]
fn centered_area_of_a_round_terminal() {
    let r = Area { x: 0, y: 0, width: 100, height: 50 };
    assert_eq!(centered_area(50, 20, r), Area { x: 25, y: 20, width: 50, height: 10 });
}

#[test]
fn centered_area_keeps_the_band() {
    let r = Area { x: 3, y: 4, width: 80, height: 24 };
    let a = centered_area(50, 20, r);
    assert!(a.x >= r.x && a.x + a.width <= r.x + r.width);
    assert!(a.y >= r.y && a.y + a.height <= r.y + r.height);
}

#[test]
fn centered_area_lies_within_every_area() {
    let areas = [
        Area { x: 0, y: 0, width: 0, height: 0 },
        Area { x: 0, y: 0, width: 1, height: 1 },
        Area { x: 7, y: 2, width: 33, height: 17 },
        Area { x: 65500, y: 65530, width: 100, height: 10 },
    ];
    for r in areas {
        for (px, py) in [(0, 0), (50, 20), (33, 67), (100, 100)] {
            let a = centered_area(px, py, r);
            assert!(r.x <= a.x && a.x as u32 + a.width as u32 <= r.x as u32 + r.width as u32);
            assert!(r.y <= a.y && a.y as u32 + a.height as u32 <= r.y as u32 + r.height as u32);
        }
    }
}

#[test]
fn centered_area_of_whole_hundreds() {
    for (w, h) in [(100u16, 100u16), (200, 300), (500, 100)] {
        for (px, py) in [(50u16, 20u16), (0, 100), (100, 0), (30, 70), (2, 98)] {
            let r = Area { x: 4, y: 9, width: w, height: h };
            let a = centered_area(px, py, r);
            let (kw, kh) = (w / 100, h / 100);
            assert_eq!(
                a,
                Area {
                    x: r.x + kw * ((100 - px) / 2),
                    y: r.y + kh * ((100 - py) / 2),
                    width: kw * px,
                    height: kh * py,
                }
            );
        }
    }
}

#[test]
fn centered_area_sizes_and_margins() {
    for len in [0u16, 1, 2, 3, 7, 10, 33, 51, 80, 99, 101, 157] {
        for p in [0u16, 1, 20, 33, 49, 50, 67, 99, 100] {
            let r = Area { x: 2, y: 5, width: len, height: len / 2 + 3 };
            let a = centered_area(p, p, r);
            for (start, span, pos, size) in [
                (r.x as i64, r.width as i64, a.x as i64, a.width as i64),
                (r.y as i64, r.height as i64, a.y as i64, a.height as i64),
            ] {
                let p = p as i64;
                let side = (100 - p) / 2;
                assert!((100 * size - span * p).abs() <= 100);
                assert!((100 * (pos - start) - span * side).abs() <= 100);
                let before = pos - start;
                let after = start + span - pos - size;
                assert!((100 * (after - before) - span * ((100 - p) % 2)).abs() <= 300);
            }
        }
    }
}

fn boundary(len: u32, percent: u32) -> u32 {
    (len * percent + 50) / 100
}

fn reach(start: u16, len: u16) -> u32 {
    (start as u32 + len as u32).min(u16::MAX as u32) - start as u32
}

#[test]
fn centered_area_follows_the_rounded_boundaries() {
    let areas = [
        Area { x: 0, y: 0, width: 1, height: 3 },
        Area { x: 3, y: 1, width: 17, height: 11 },
        Area { x: 0, y: 2, width: 80, height: 24 },
        Area { x: 10, y: 5, width: 157, height: 43 },
        Area { x: 65500, y: 65520, width: 100, height: 40 },
    ];
    for r in areas {
        for p in [0u16, 1, 2, 17, 20, 33, 50, 51, 66, 99, 100] {
            let a = centered_area(p, 100 - p, r);
            let (px, py) = (p as u32, (100 - p) as u32);
            let (lx, ly) = (reach(r.x, r.width), reach(r.y, r.height));
            let (sx, sy) = ((100 - px) / 2, (100 - py) / 2);
            assert_eq!(a.x as u32, r.x as u32 + boundary(lx, sx));
            assert_eq!(a.x as u32 + a.width as u32, r.x as u32 + boundary(lx, sx + px));
            assert_eq!(a.y as u32, r.y as u32 + boundary(ly, sy));
            assert_eq!(a.y as u32 + a.height as u32, r.y as u32 + boundary(ly, sy + py));
        }
    }
}

#[test]
fn frame_layout_places_header_center_footer() {
    let frames = [
        Area { x: 0, y: 0, width: 80, height: 24 },
        Area { x: 5, y: 3, width: 120, height: 11 },
        Area { x: 0, y: 0, width: 10, height: 10 },
        Area { x: 1, y: 1, width: 9, height: 9 },
        Area { x: 0, y: 0, width: 3, height: 30 },
        Area { x: 0, y: 65500, width: 50, height: 100 },
    ];
    for fr in frames {
        let p = frame_layout(fr);
        let rect = Rect { x: fr.x, y: fr.y, width: fr.width, height: fr.height };
        let c = Layout::default()
            .direction(Direction::Vertical)
            .margin(2)
            .constraints([Constraint::Length(3), Constraint::Min(1), Constraint::Length(3)])
            .split(rect);
        let area = |r: Rect| Area { x: r.x, y: r.y, width: r.width, height: r.height };
        assert_eq!((p.header, p.center, p.footer), (area(c[0]), area(c[1]), area(c[2])));
        assert_eq!(p.popup, centered_area(50, 20, fr));
        if fr.width >= 4 && fr.height >= 4 {
            let (ix, iy, iw) = (fr.x + 2, fr.y + 2, fr.width - 4);
            let len = ((iy as u32 + fr.height as u32 - 4).min(65535) - iy as u32) as u16;
            if len >= 7 {
                assert_eq!(p.header, Area { x: ix, y: iy, width: iw, height: 3 });
                assert_eq!(p.center, Area { x: ix, y: iy + 3, width: iw, height: len - 6 });
                assert_eq!(p.footer, Area { x: ix, y: iy + len - 3, width: iw, height: 3 });
            }
            assert!(iy <= p.header.y && p.header.y + p.header.height <= p.center.y);
            assert!(p.center.y + p.center.height <= p.footer.y);
            assert!(p.footer.y as u32 + p.footer.height as u32 <= iy as u32 + len as u32);
        }
    }
}
