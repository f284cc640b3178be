use rusty_chip8::screen::{clear_screen, draw_sprite};

fn lit_cells(screen: &[bool; 2048]) -> Vec<(usize, usize)> {
    let mut cells = Vec::new();
    for row in 0..32 {
        for col in 0..64 {
            if screen[row * 64 + col] {
                cells.push((col, row));
            }
        }
    }
    cells
}

#[test]
fn draws_most_significant_bit_leftmost() {
    let mut screen = [false; 2048];
    let hit = draw_sprite(&mut screen, 0, 0, &[0b1010_0001]);
    assert!(!hit);
    assert_eq!(lit_cells(&screen), vec![(0, 0), (2, 0), (7, 0)]);
}

#[test]
fn draws_rows_downwards() {
    let mut screen = [false; 2048];
    draw_sprite(&mut screen, 10, 5, &[0x80, 0x40, 0x20]);
    assert_eq!(lit_cells(&screen), vec![(10, 5), (11, 6), (12, 7)]);
}

#[test]
fn sprite_at_column_60_wraps_to_columns_0_to_3() {
    let mut screen = [false; 2048];
    let hit = draw_sprite(&mut screen, 60, 0, &[0xFF]);
    assert!(!hit);
    assert_eq!(
        lit_cells(&screen),
        vec![(0, 0), (1, 0), (2, 0), (3, 0), (60, 0), (61, 0), (62, 0), (63, 0)]
    );
}

#[test]
fn sprite_wraps_round_the_bottom_edge() {
    let mut screen = [false; 2048];
    draw_sprite(&mut screen, 0, 31, &[0x80, 0x80]);
    assert_eq!(lit_cells(&screen), vec![(0, 0), (0, 31)]);
}

#[test]
fn origin_beyond_the_screen_wraps_too() {
    let mut screen = [false; 2048];
    draw_sprite(&mut screen, 64 + 3, 32 + 4, &[0x80]);
    assert_eq!(lit_cells(&screen), vec![(3, 4)]);
    let mut other = [false; 2048];
    draw_sprite(&mut other, 255, 255, &[0xC0]);
    assert_eq!(lit_cells(&other), vec![(0, 31), (63, 31)]);
}

#[test]
fn drawing_twice_restores_the_screen_and_collides() {
    let mut screen = [false; 2048];
    screen[5 * 64 + 21] = true;
    let before = screen;
    let sprite = [0xF0, 0x90, 0x90, 0x90, 0xF0];
    let first = draw_sprite(&mut screen, 18, 3, &sprite);
    assert!(first);
    assert_ne!(screen, before);
    let second = draw_sprite(&mut screen, 18, 3, &sprite);
    assert!(second);
    assert_eq!(screen, before);
}

#[test]
fn second_draw_does_not_collide_when_first_only_cleared() {
    let mut screen = [true; 2048];
    let first = draw_sprite(&mut screen, 0, 0, &[0xFF]);
    assert!(first);
    let second = draw_sprite(&mut screen, 0, 0, &[0xFF]);
    assert!(!second);
    assert_eq!(screen, [true; 2048]);
}

#[test]
fn empty_sprite_changes_nothing() {
    let mut screen = [false; 2048];
    screen[100] = true;
    let before = screen;
    assert!(!draw_sprite(&mut screen, 7, 7, &[]));
    assert!(!draw_sprite(&mut screen, 7, 7, &[0x00, 0x00]));
    assert_eq!(screen, before);
}

#[test]
fn collision_only_where_a_lit_cell_goes_off() {
    let mut screen = [false; 2048];
    screen[1] = true;
    assert!(!draw_sprite(&mut screen, 0, 0, &[0x80]));
    assert!(draw_sprite(&mut screen, 0, 0, &[0x40]));
    assert_eq!(lit_cells(&screen), vec![(0, 0)]);
}

#[test]
fn tallest_sprite_covers_each_row_once() {
    let mut screen = [false; 2048];
    let rows = [0x80u8; 32];
    assert!(!draw_sprite(&mut screen, 0, 16, &rows));
    assert_eq!(lit_cells(&screen).len(), 32);
}

#[test]
fn clear_screen_turns_every_cell_off() {
    let mut screen = [true; 2048];
    clear_screen(&mut screen);
    assert_eq!(screen, [false; 2048]);
}
