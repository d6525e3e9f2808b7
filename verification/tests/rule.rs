use game_of_life::Cell;

#[test]
fn cell_value_is_zero_or_one() {
    assert_eq!(Cell::Dead.value(), 0);
    assert_eq!(Cell::Alive.value(), 1);
}

#[test]
fn live_cell_dies_with_fewer_than_two_neighbours() {
    assert_eq!(Cell::Alive.next(0), Cell::Dead);
    assert_eq!(Cell::Alive.next(1), Cell::Dead);
}

#[test]
fn live_cell_survives_with_two_or_three_neighbours() {
    assert_eq!(Cell::Alive.next(2), Cell::Alive);
    assert_eq!(Cell::Alive.next(3), Cell::Alive);
}

#[test]
fn live_cell_dies_with_more_than_three_neighbours() {
    for n in 4u8..=8 {
        assert_eq!(Cell::Alive.next(n), Cell::Dead, "{} neighbours", n);
    }
}

#[test]
fn dead_cell_comes_alive_with_exactly_three_neighbours() {
    assert_eq!(Cell::Dead.next(3), Cell::Alive);
}

#[test]
fn dead_cell_stays_dead_with_any_other_count() {
    for n in [0u8, 1, 2, 4, 5, 6, 7, 8] {
        assert_eq!(Cell::Dead.next(n), Cell::Dead, "{} neighbours", n);
    }
}

#[test]
fn even_draw_is_alive_and_odd_draw_is_dead() {
    assert_eq!(Cell::from_draw(0), Cell::Alive);
    assert_eq!(Cell::from_draw(1), Cell::Dead);
    assert_eq!(Cell::from_draw(2), Cell::Alive);
    assert_eq!(Cell::from_draw(98), Cell::Alive);
    assert_eq!(Cell::from_draw(99), Cell::Dead);
}

#[test]
fn draw_parity_holds_below_zero() {
    assert_eq!(Cell::from_draw(-1), Cell::Dead);
    assert_eq!(Cell::from_draw(-2), Cell::Alive);
    assert_eq!(Cell::from_draw(-3), Cell::Dead);
    assert_eq!(Cell::from_draw(i32::MIN), Cell::Alive);
    assert_eq!(Cell::from_draw(i32::MAX), Cell::Dead);
}
