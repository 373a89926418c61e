use shared_ownership::Cell;

#[test]
fn get_returns_the_value_the_cell_was_made_with() {
    let cell = Cell::new(1);
    assert_eq!(cell.get(), 1);
}

#[test]
fn get_leaves_the_cell_unchanged() {
    let cell = Cell::new(42u64);
    let first = cell.get();
    let second = cell.get();
    assert_eq!(first, 42);
    assert_eq!(second, 42);
}

#[test]
fn get_works_through_several_shared_references() {
    let cell = Cell::new('x');
    let a = &cell;
    let b = &cell;
    assert_eq!(a.get(), 'x');
    assert_eq!(b.get(), 'x');
}

#[test]
fn cells_hold_any_copy_type() {
    assert_eq!(Cell::new(true).get(), true);
    assert_eq!(Cell::new((3u8, -4i32)).get(), (3u8, -4i32));
    assert_eq!(Cell::new([10, 20, 30]).get(), [10, 20, 30]);
    assert_eq!(Cell::new(()).get(), ());
}

#[test]
fn distinct_cells_keep_distinct_values() {
    let low = Cell::new(usize::MIN);
    let high = Cell::new(usize::MAX);
    assert_eq!(low.get(), usize::MIN);
    assert_eq!(high.get(), usize::MAX);
}
