use webgl_sketches::game_of_life::{Canvas, Cell, CellRect, Line, Universe};
use webgl_sketches::tracer::{color_levels, osc};

fn universe(width: u32, height: u32, alive: &[(u32, u32)]) -> Universe {
    let mut u = Universe::new(width, height);
    for c in u.cells.iter_mut() {
        *c = Cell::Dead;
    }
    for &(row, col) in alive {
        u.cells[(row * width + col) as usize] = Cell::Alive;
    }
    u
}

fn alive(u: &Universe) -> Vec<(u32, u32)> {
    let mut out = vec![];
    for row in 0..u.height {
        for col in 0..u.width {
            if u.cells[(row * u.width + col) as usize] == Cell::Alive {
                out.push((row, col));
            }
        }
    }
    out
}

#[test]
fn new_universe_pattern() {
    let u = Universe::new(4, 4);
    assert_eq!(u.cells.len(), 16);
    for (i, c) in u.cells.iter().enumerate() {
        let expected = if i % 2 == 0 || i % 7 == 0 { Cell::Alive } else { Cell::Dead };
        assert_eq!(*c, expected);
    }
    assert_eq!(Universe::new(0, 5).cells.len(), 0);
}

#[test]
fn blinker_oscillates() {
    let mut u = universe(5, 5, &[(2, 1), (2, 2), (2, 3)]);
    u.tick();
    assert_eq!(alive(&u), vec![(1, 2), (2, 2), (3, 2)]);
    u.tick();
    assert_eq!(alive(&u), vec![(2, 1), (2, 2), (2, 3)]);
}

#[test]
fn block_is_still() {
    let mut u = universe(4, 4, &[(1, 1), (1, 2), (2, 1), (2, 2)]);
    u.tick();
    assert_eq!(alive(&u), vec![(1, 1), (1, 2), (2, 1), (2, 2)]);
}

#[test]
fn neighbours_wrap_around_edges() {
    // A blinker across the left and right edges.
    let mut u = universe(5, 5, &[(2, 4), (2, 0), (2, 1)]);
    u.tick();
    assert_eq!(alive(&u), vec![(1, 0), (2, 0), (3, 0)]);
}

#[test]
fn lonely_cell_dies_and_crowded_cell_dies() {
    let mut u = universe(5, 5, &[(0, 0)]);
    u.tick();
    assert!(alive(&u).is_empty());
    let mut u = universe(5, 5, &[(2, 2), (1, 1), (1, 2), (1, 3), (2, 1)]);
    u.tick();
    assert!(!alive(&u).contains(&(2, 2)));
}

#[test]
fn canvas_layout() {
    let canvas = Canvas::new(100, 45);
    assert_eq!(canvas.cell_size, 20);
    assert_eq!((canvas.width, canvas.height), (5, 2));
    assert_eq!((canvas.universe.width, canvas.universe.height), (64, 64));
}

#[test]
fn grid_lines_are_spaced_by_cell_size_plus_one() {
    let canvas = Canvas::new(40, 20);
    let lines = canvas.draw_grid();
    assert_eq!(
        lines,
        vec![
            Line { x0: 1, y0: 0, x1: 1, y1: 22 },
            Line { x0: 22, y0: 0, x1: 22, y1: 22 },
            Line { x0: 0, y0: 1, x1: 43, y1: 1 },
        ]
    );
}

#[test]
fn one_square_per_cell() {
    let mut canvas = Canvas::new(40, 20);
    canvas.universe = universe(2, 2, &[(1, 0)]);
    let rects = canvas.draw_cells();
    assert_eq!(
        rects,
        vec![
            CellRect { x: 1, y: 1, size: 20, cell: Cell::Dead },
            CellRect { x: 22, y: 1, size: 20, cell: Cell::Dead },
            CellRect { x: 1, y: 22, size: 20, cell: Cell::Alive },
            CellRect { x: 22, y: 22, size: 20, cell: Cell::Dead },
        ]
    );
    canvas.step();
    assert!(canvas.universe.cells.iter().all(|c| *c == Cell::Dead));
}

#[test]
fn osc_is_a_triangle_wave() {
    assert_eq!(osc(0), 0);
    assert_eq!(osc(255), 255);
    assert_eq!(osc(256), 254);
    assert_eq!(osc(509), 1);
}

#[test]
fn color_levels_of_steps() {
    assert_eq!(color_levels(0), [0, 0, 0]);
    assert_eq!(color_levels(1), [3, 5, 7]);
    // 3 * 100 = 300 -> 255 - 45; 500 -> 255 - 245; 700 % 510 = 190.
    assert_eq!(color_levels(100), [210, 10, 190]);
}
