use aheui::compile::Aheui;
use aheui::flow::Flow;
use aheui::grid::Grid;
use aheui::syllable::Hangul;

fn rows(lines: &[&str]) -> Vec<Vec<Hangul>> {
    lines.iter().map(|l| l.chars().map(Hangul::from_char).collect::<Vec<Hangul>>()).collect()
}

#[test]
fn aheui_test_next_pos() {
    let map = vec!["아희희아희", "아희아희", "아희희"];
    let map: Vec<_> = map
        .iter()
        .map(|x| x.chars().map(Hangul::from_char).collect::<Vec<Hangul>>())
        .collect();
    let map = Aheui::new(map, "dummy", "dummy_main");

    assert!(map.next_pos(0, 0, Flow::Left) == (4, 0));
    assert!(map.next_pos(0, 0, Flow::Right) == (1, 0));
    assert!(map.next_pos(0, 0, Flow::Up) == (0, 2));
    assert!(map.next_pos(0, 0, Flow::Down) == (0, 1));

    assert!(map.next_pos(4, 0, Flow::Left) == (3, 0));
    assert!(map.next_pos(4, 0, Flow::Right) == (0, 0));
    assert!(map.next_pos(4, 0, Flow::Up) == (4, 0));
    assert!(map.next_pos(4, 0, Flow::Down) == (4, 0));

    assert!(map.next_pos(3, 1, Flow::Left) == (2, 1));
    assert!(map.next_pos(3, 1, Flow::Right) == (0, 1));
    assert!(map.next_pos(3, 1, Flow::Up) == (3, 0));
    assert!(map.next_pos(3, 1, Flow::Down) == (3, 0));

    assert!(map.next_pos(2, 2, Flow::Left) == (1, 2));
    assert!(map.next_pos(2, 2, Flow::Right) == (0, 2));
    assert!(map.next_pos(2, 2, Flow::Up) == (2, 1));
    assert!(map.next_pos(2, 2, Flow::Down) == (2, 0));
}

#[test]
fn main_test_next_pos() {
    let map = vec!["아희희아희", "아희아희", "아희희"];
    let map: Vec<_> = map
        .iter()
        .map(|x| x.chars().map(Hangul::from_char).collect::<Vec<Hangul>>())
        .collect();
    let map = Aheui::new(map, "dummy", "dummy_main");

    assert!(map.next_pos(0, 0, Flow::Left) == (4, 0));
    assert!(map.next_pos(0, 0, Flow::Right) == (1, 0));
    assert!(map.next_pos(0, 0, Flow::Up) == (0, 2));
    assert!(map.next_pos(0, 0, Flow::Down) == (0, 1));

    assert!(map.next_pos(4, 0, Flow::Left) == (3, 0));
    assert!(map.next_pos(4, 0, Flow::Right) == (0, 0));
    assert!(map.next_pos(4, 0, Flow::Up) == (4, 0));
    assert!(map.next_pos(4, 0, Flow::Down) == (4, 0));

    assert!(map.next_pos(3, 1, Flow::Left) == (2, 1));
    assert!(map.next_pos(3, 1, Flow::Right) == (0, 1));
    assert!(map.next_pos(3, 1, Flow::Up) == (3, 0));
    assert!(map.next_pos(3, 1, Flow::Down) == (3, 0));

    assert!(map.next_pos(2, 2, Flow::Left) == (1, 2));
    assert!(map.next_pos(2, 2, Flow::Right) == (0, 2));
    assert!(map.next_pos(2, 2, Flow::Up) == (2, 1));
    assert!(map.next_pos(2, 2, Flow::Down) == (2, 0));
}

#[test]
fn steps_cancel_on_a_rectangular_grid() {
    let g = Grid::new(rows(&["아아아", "아아아", "아아아", "아아아"])).unwrap();
    for y in 0..4 {
        for x in 0..3 {
            let (rx, ry) = g.next_pos(x, y, Flow::Right);
            assert_eq!(g.next_pos(rx, ry, Flow::Left), (x, y));
            let (lx, ly) = g.next_pos(x, y, Flow::Left);
            assert_eq!(g.next_pos(lx, ly, Flow::Right), (x, y));
            let (dx, dy) = g.next_pos(x, y, Flow::Down);
            assert_eq!(g.next_pos(dx, dy, Flow::Up), (x, y));
            let (ux, uy) = g.next_pos(x, y, Flow::Up);
            assert_eq!(g.next_pos(ux, uy, Flow::Down), (x, y));
        }
    }
}

#[test]
fn vertical_moves_skip_short_and_empty_rows() {
    let g = Grid::new(rows(&["아아아", "", "아", "아아아"])).unwrap();
    assert_eq!(g.next_pos(2, 0, Flow::Down), (2, 3));
    assert_eq!(g.next_pos(2, 3, Flow::Down), (2, 0));
    assert_eq!(g.next_pos(2, 0, Flow::Up), (2, 3));
    assert_eq!(g.next_pos(0, 0, Flow::Down), (0, 2));
    assert_eq!(g.next_pos(0, 2, Flow::Up), (0, 0));
    assert_eq!(g.next_pos(0, 0, Flow::Up), (0, 3));
}

#[test]
fn single_cell_grid_loops_onto_itself() {
    let g = Grid::new(rows(&["아"])).unwrap();
    for f in [Flow::Left, Flow::Right, Flow::Up, Flow::Down] {
        assert_eq!(g.next_pos(0, 0, f), (0, 0));
    }
}

#[test]
fn grid_needs_a_first_cell() {
    assert!(Grid::new(vec![]).is_none());
    assert!(Grid::new(rows(&["", "아"])).is_none());
    assert!(Aheui::try_new(rows(&["", "아"]), "m", "f").is_none());
    assert!(Aheui::try_new(rows(&["아"]), "m", "f").is_some());
}
