use chatview::layout::{Panels, Region};
use chatview::screen::{
    compose, cursor_position, surface_cell, surface_offset, ui, Position, SURFACE_MAX,
};
use chatview::session::{Capabilities, Event, Key, State};

fn region(x: u16, y: u16, width: u16, height: u16) -> Region {
    Region { x, y, width, height }
}

fn panels() -> Panels {
    Panels {
        side_panel: region(90, 0, 10, 50),
        log_region: region(0, 0, 90, 5),
        input_region: region(0, 45, 13, 5),
    }
}

fn type_text(state: &mut State, text: &str) {
    for c in text.chars() {
        state.handle(Event::Key(Key::Char(c)));
    }
}

#[test]
fn cursor_sits_one_cell_inside_the_border() {
    assert_eq!(cursor_position(region(0, 45, 13, 5), 0), Position { x: 1, y: 46 });
    assert_eq!(cursor_position(region(0, 45, 13, 5), 4), Position { x: 5, y: 46 });
    assert_eq!(cursor_position(region(7, 45, 13, 5), 4), Position { x: 12, y: 46 });
}

#[test]
fn cursor_stops_at_the_end_of_the_window() {
    assert_eq!(cursor_position(region(0, 45, 13, 5), 10), Position { x: 11, y: 46 });
    assert_eq!(cursor_position(region(0, 45, 13, 5), 12), Position { x: 11, y: 46 });
    assert_eq!(cursor_position(region(0, 45, 13, 5), 5000), Position { x: 11, y: 46 });
}

#[test]
fn cursor_in_a_region_without_room() {
    assert_eq!(cursor_position(region(4, 9, 2, 1), 7), Position { x: 5, y: 10 });
    assert_eq!(cursor_position(region(0, 0, 0, 0), 0), Position { x: 1, y: 1 });
}

#[test]
fn cursor_beyond_the_last_column_of_the_grid() {
    assert_eq!(
        cursor_position(region(u16::MAX, u16::MAX, 0, 0), 3),
        Position { x: 65_536, y: 65_536 }
    );
    assert_eq!(
        cursor_position(region(0, 0, u16::MAX, 1), 100_000),
        Position { x: 65_533, y: 1 }
    );
}

#[test]
fn compose_shows_an_empty_session() {
    let state = State::init();
    let plan = compose(&state, panels());
    assert_eq!(plan.side_panel, region(90, 0, 10, 50));
    assert_eq!(plan.log_region, region(0, 0, 90, 5));
    assert_eq!(plan.input_region, region(0, 45, 13, 5));
    assert_eq!(plan.log_text, "");
    assert_eq!(plan.log_scroll, 0);
    assert_eq!(plan.input_text, "");
    assert_eq!(plan.input_scroll, 0);
    assert_eq!(plan.cursor, Some(Position { x: 1, y: 46 }));
}

#[test]
fn compose_scrolls_input_past_the_right_edge() {
    let mut state = State::init();
    type_text(&mut state, "hello world!");
    let plan = compose(&state, panels());
    assert_eq!(plan.input_text, "hello world!");
    assert_eq!(plan.input_scroll, 2);
    assert_eq!(plan.cursor, Some(Position { x: 11, y: 46 }));
    assert_eq!(plan.log_scroll, 0);
}

#[test]
fn compose_scrolls_by_cursor_not_by_length() {
    let mut state = State::init();
    type_text(&mut state, "hello world!");
    state.handle(Event::Key(Key::Home));
    let plan = compose(&state, panels());
    assert_eq!(plan.input_text, "hello world!");
    assert_eq!(plan.input_scroll, 0);
    assert_eq!(plan.cursor, Some(Position { x: 1, y: 46 }));
}

#[test]
fn compose_scrolls_log_to_newest_lines() {
    let mut state = State::init();
    for line in ["a", "b", "c", "d", "e"] {
        type_text(&mut state, line);
        state.handle(Event::Key(Key::Enter));
    }
    let plan = compose(&state, panels());
    assert_eq!(plan.log_text, "a\nb\nc\nd\ne\n");
    assert_eq!(plan.log_scroll, 3);
    assert_eq!(plan.input_text, "");
    assert_eq!(plan.input_scroll, 0);
}

#[test]
fn compose_without_cursor_places_none() {
    let mut state = State::with_capabilities(Capabilities { log: true, cursor: false });
    type_text(&mut state, "abc");
    let plan = compose(&state, panels());
    assert_eq!(plan.cursor, None);
    assert_eq!(plan.input_text, "abc");
}

#[test]
fn ui_draws_into_the_partition_of_the_area() {
    let mut state = State::init();
    type_text(&mut state, "first");
    state.handle(Event::Key(Key::Enter));
    type_text(&mut state, "ab");
    let plan = ui(&state, region(0, 0, 100, 50)).unwrap();
    assert_eq!(plan.side_panel, region(90, 0, 10, 50));
    assert_eq!(plan.log_region, region(0, 0, 90, 45));
    assert_eq!(plan.input_region, region(0, 45, 90, 5));
    assert_eq!(plan.log_text, "first\n");
    assert_eq!(plan.log_scroll, 0);
    assert_eq!(plan.input_text, "ab");
    assert_eq!(plan.input_scroll, 0);
    assert_eq!(plan.cursor, Some(Position { x: 3, y: 46 }));
}

#[test]
fn ui_refuses_an_area_that_cannot_be_split() {
    let state = State::init();
    assert!(ui(&state, region(0, 0, 1000, 50)).is_none());
    assert!(ui(&state, region(0, 0, 50, 1000)).is_none());
}

#[test]
fn ui_has_a_frame_for_every_ordinary_terminal() {
    let state = State::init();
    for (width, height) in [(0u16, 0u16), (1, 1), (80, 24), (200, 60), (728, 728)] {
        let plan = ui(&state, region(0, 0, width, height)).unwrap();
        assert_eq!(plan.side_panel.x + plan.side_panel.width, width);
        assert!(plan.log_region.x + plan.log_region.width <= width);
        assert!(plan.log_region.y + plan.log_region.height <= height);
        assert!(plan.input_region.x + plan.input_region.width <= width);
        assert!(plan.input_region.y + plan.input_region.height <= height);
    }
}

#[test]
fn surface_offset_keeps_what_fits() {
    assert_eq!(surface_offset(0), 0);
    assert_eq!(surface_offset(1), 1);
    assert_eq!(surface_offset(2), 2);
    assert_eq!(surface_offset(65_534), 65_534);
    assert_eq!(surface_offset(65_535), 65_535);
}

#[test]
fn surface_offset_stops_at_the_largest() {
    assert_eq!(SURFACE_MAX, 65_535);
    assert_eq!(surface_offset(65_536), 65_535);
    assert_eq!(surface_offset(1_000_000), 65_535);
    assert_eq!(surface_offset(usize::MAX), 65_535);
}

#[test]
fn surface_cell_keeps_cells_of_the_grid() {
    assert_eq!(surface_cell(Position { x: 0, y: 0 }), (0, 0));
    assert_eq!(surface_cell(Position { x: 11, y: 46 }), (11, 46));
    assert_eq!(surface_cell(Position { x: 65_535, y: 1 }), (65_535, 1));
    assert_eq!(surface_cell(Position { x: 65_536, y: 65_536 }), (65_535, 65_535));
    assert_eq!(surface_cell(Position { x: 3, y: u32::MAX }), (3, 65_535));
    assert_eq!(surface_cell(Position { x: u32::MAX, y: 3 }), (65_535, 3));
}

#[test]
fn ui_of_eighty_by_twenty_four() {
    let mut state = State::init();
    type_text(&mut state, "hi");
    let plan = ui(&state, region(0, 0, 80, 24)).unwrap();
    assert_eq!(plan.side_panel, region(72, 0, 8, 24));
    assert_eq!(plan.log_region, region(0, 0, 72, 21));
    assert_eq!(plan.input_region, region(0, 21, 72, 3));
    assert_eq!(plan.cursor, Some(Position { x: 3, y: 22 }));
    assert!(ui(&state, region(0, 0, 80, 729)).is_none());
    assert!(ui(&state, region(0, 0, 729, 24)).is_none());
}
