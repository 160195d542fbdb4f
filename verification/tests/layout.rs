//! Screen regions: the split into panes, scrolling and what a region shows.
use vulnclaw_tui::layout::{
    bottom_offset, extract_rect_text, max_offset, workbench_panels, Panels, Rect, Screen,
    WRAP_LIMIT,
};
use vulnclaw_tui::modes::ActivePane;

/// The panes stand side by side in the workbench, in order, without overlap.
fn assert_side_by_side(area: Rect, composer_height: u16) {
    let panels = workbench_panels(area, composer_height);
    let y = area.y.saturating_add(2);
    let height = area.height.saturating_sub(composer_height + 3);
    for rect in [panels.workspace, panels.transcript, panels.findings] {
        assert_eq!((rect.y, rect.height), (y, height), "{area:?}");
    }
    let edge = area.x as u32 + area.width as u32;
    let edge = edge.min(u16::MAX as u32);
    let right = |rect: Rect| rect.x as u32 + rect.width as u32;
    assert_eq!(area.x, panels.workspace.x, "{area:?}");
    assert!(right(panels.workspace) <= panels.transcript.x as u32, "{area:?}");
    assert!(right(panels.transcript) <= panels.findings.x as u32, "{area:?}");
    assert!(right(panels.findings) <= edge, "{area:?}");
    let columns = edge - area.x as u32;
    if columns >= 104 {
        assert_eq!(panels.workspace.width, 28, "{area:?}");
        assert_eq!(panels.transcript.width as u32, columns - 68, "{area:?}");
        assert_eq!(panels.findings.width, 40, "{area:?}");
        assert_eq!(right(panels.workspace), panels.transcript.x as u32, "{area:?}");
        assert_eq!(right(panels.transcript), panels.findings.x as u32, "{area:?}");
    }
}

fn sweep(x: u16, from: u16, to: u16) {
    for width in from..=to {
        assert_side_by_side(
            Rect {
                x,
                y: 0,
                width,
                height: 30,
            },
            1,
        );
    }
}

#[test]
fn panes_of_narrow_screens_stand_side_by_side() {
    sweep(0, 0, 8191);
}

#[test]
fn panes_of_wider_screens_stand_side_by_side() {
    sweep(0, 8192, 16383);
}

#[test]
fn panes_of_wide_screens_stand_side_by_side() {
    sweep(0, 16384, 24575);
}

#[test]
fn panes_of_very_wide_screens_stand_side_by_side() {
    sweep(0, 24576, 32767);
}

#[test]
fn panes_of_huge_screens_stand_side_by_side() {
    sweep(0, 32768, 40959);
}

#[test]
fn panes_of_even_wider_screens_stand_side_by_side() {
    sweep(0, 40960, 49151);
}

#[test]
fn panes_of_nearly_the_widest_screens_stand_side_by_side() {
    sweep(0, 49152, 57343);
}

#[test]
fn panes_of_the_widest_screens_stand_side_by_side() {
    sweep(0, 57344, 65535);
}

#[test]
fn panes_of_shifted_screens_stand_side_by_side() {
    for x in [1, 7, 100, 1023, 32768, 65000, 65400, 65430, 65432, 65500, 65533, 65534, 65535] {
        sweep(x, 0, 220);
        for width in [1000, 30000, 65000, 65534, 65535] {
            assert_side_by_side(
                Rect {
                    x,
                    y: 65534,
                    width,
                    height: 65535,
                },
                7,
            );
        }
    }
}

#[test]
fn panes_of_a_wide_workbench_cover_every_column_once() {
    for width in [104, 105, 120, 300] {
        let panels = workbench_panels(Rect::new(3, 0, width, 28), 1);
        let holds = |rect: Rect, x: u16| rect.x <= x && x < rect.right();
        for x in 3..3 + width {
            let panes = [panels.workspace, panels.transcript, panels.findings];
            assert_eq!(panes.iter().filter(|rect| holds(**rect, x)).count(), 1);
            assert!(panes.iter().all(|rect| rect.width < width));
        }
    }
}

#[test]
fn the_workbench_is_split_into_fixed_side_panes() {
    let panels = workbench_panels(Rect::new(0, 0, 120, 30), 1);
    assert_eq!(panels.workspace, Rect::new(0, 2, 28, 26));
    assert_eq!(panels.transcript, Rect::new(28, 2, 52, 26));
    assert_eq!(panels.findings, Rect::new(80, 2, 40, 26));
    assert_eq!(panels.region(ActivePane::Workspace), panels.workspace);
    assert_eq!(panels.region(ActivePane::Transcript), panels.transcript);
    assert_eq!(panels.region(ActivePane::Findings), panels.findings);

    let tall: Panels = workbench_panels(Rect::new(5, 1, 120, 4), 7);
    assert_eq!(tall.workspace, Rect::new(5, 3, 28, 0));
}

#[test]
fn rectangles_end_within_sixteen_bits() {
    let rect = Rect::new(65530, 65000, 10, 1000);
    assert_eq!(rect.right(), 65535);
    assert_eq!(rect.bottom(), 65535);
    assert_eq!(Rect::new(1, 2, 3, 4).right(), 4);
    assert_eq!(Rect::new(1, 2, 3, 4).bottom(), 6);
    assert_eq!(Rect::default(), Rect::new(0, 0, 0, 0));
}

#[test]
fn offsets_count_the_rows_without_room() {
    let panel = Rect::new(0, 0, 12, 5);
    assert_eq!(bottom_offset(panel, 4), 0);
    assert_eq!(bottom_offset(panel, 5), 0);
    assert_eq!(bottom_offset(panel, 9), 4);
    assert_eq!(bottom_offset(Rect::new(0, 0, 2, 5), 9), 0);
    assert_eq!(bottom_offset(Rect::new(0, 0, 12, 2), 9), 0);
}

#[test]
fn long_lines_are_wrapped_before_they_are_counted() {
    // Inner width ten: "aaaa bbbb cccc" takes two rows, the border two more.
    let panel = Rect::new(0, 0, 12, 3);
    assert_eq!(max_offset(panel, &vec!["aaaa bbbb cccc".into()]), 1);
    assert_eq!(max_offset(panel, &vec!["aaaa".into()]), 0);
    assert_eq!(max_offset(panel, &vec!["a".into(), "b".into(), "c".into()]), 2);
    // Wide characters take two columns.
    assert_eq!(max_offset(panel, &vec!["漢字漢字漢字".into()]), 1);
    assert_eq!(max_offset(Rect::new(0, 0, 2, 3), &vec!["aaaa".into(); 9]), 0);
}

#[test]
fn text_wraps_up_to_the_limit() {
    let width = WRAP_LIMIT as usize - 1;
    let panel = Rect::new(0, 0, WRAP_LIMIT + 1, 3);
    // Clusters as wide as the pane, behind a word that nearly fills it.
    let cluster = format!("{}\u{ac00}", "\u{1100}".repeat(width / 2 - 1));
    let line = format!("b {}{}", "a".repeat(width - 3), cluster.repeat(4));
    assert_eq!(max_offset(panel, &vec![line]), 3);
    assert_eq!(max_offset(panel, &vec!["a".repeat(3 * width)]), 2);
    // Short lines wrap at any width.
    let wide = Rect::new(0, 0, 65535, 3);
    assert_eq!(max_offset(wide, &vec!["\u{17d8}".repeat(WRAP_LIMIT as usize)]), 0);
    assert_eq!(max_offset(wide, &vec!["a".repeat(WRAP_LIMIT as usize); 5]), 4);
}

fn screen() -> Screen {
    let rows = ["ab  ", "cd e", "    "];
    Screen {
        width: 4,
        height: 3,
        cells: rows
            .iter()
            .flat_map(|row| row.chars().map(|c| c.to_string()))
            .collect(),
    }
}

#[test]
fn a_region_shows_its_rows_without_trailing_blanks() {
    let screen = screen();
    assert_eq!(
        extract_rect_text(&screen, Rect::new(0, 0, 4, 3)),
        "ab\ncd e\n\n"
    );
    assert_eq!(extract_rect_text(&screen, Rect::new(1, 0, 2, 2)), "b\nd\n");
    assert_eq!(
        extract_rect_text(&screen, Rect::new(2, 1, 100, 100)),
        " e\n\n"
    );
    assert_eq!(extract_rect_text(&screen, Rect::new(0, 3, 4, 4)), "");
    assert_eq!(extract_rect_text(&screen, Rect::new(4, 0, 4, 2)), "\n\n");
}

#[test]
fn missing_cells_show_nothing() {
    let screen = Screen {
        width: 3,
        height: 2,
        cells: vec!["x".into(), "漢".into(), "".into(), "y".into()],
    };
    assert_eq!(
        extract_rect_text(&screen, Rect::new(0, 0, 3, 2)),
        "x漢\ny\n"
    );
}

#[test]
fn what_is_outside_of_a_region_makes_no_difference() {
    let mut other = screen();
    other.cells[3] = "#".into();
    other.cells[8] = "#".into();
    let rect = Rect::new(0, 0, 3, 2);
    assert_eq!(
        extract_rect_text(&screen(), rect),
        extract_rect_text(&other, rect)
    );
}
