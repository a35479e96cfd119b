use bit_grid::codec::LoadError;
use bit_grid::grid::{Grid, SizeMismatch, MAX_SIZE, TOTAL_BITS};
use bit_grid::state::{AppState, PointQueue};
use std::collections::HashSet;

fn set_of(items: &[usize]) -> HashSet<usize> {
    items.iter().copied().collect()
}

#[test]
fn json_test() {
    let mut pq = PointQueue::new();
    pq.off.insert(1111);
    pq.on.insert(323123);
    let on: Vec<usize> = pq.on.iter().copied().collect();
    let off: Vec<usize> = pq.off.iter().copied().collect();
    let mut object = serde_json::Map::new();
    object.insert("on".to_string(), serde_json::Value::from(on));
    object.insert("off".to_string(), serde_json::Value::from(off));
    let result = serde_json::to_string(&serde_json::Value::Object(object));
    println!("{:?}", result);
    let text = result.unwrap();
    assert!(text.contains("\"on\":[323123]"));
    assert!(text.contains("\"off\":[1111]"));
}

#[test]
fn new_queue_is_empty() {
    let queue = PointQueue::new();
    assert!(queue.is_empty());
    assert!(queue.on.is_empty());
    assert!(queue.off.is_empty());
}

#[test]
fn record_on_then_off_cancels() {
    let mut queue = PointQueue::new();
    queue.record(5, true);
    assert_eq!(queue.on, set_of(&[5]));
    assert!(queue.off.is_empty());
    assert!(!queue.is_empty());
    queue.record(5, false);
    assert!(queue.is_empty());
    let drained = queue.drain();
    assert!(drained.on.is_empty());
    assert!(drained.off.is_empty());
}

#[test]
fn record_off_then_on_cancels() {
    let mut queue = PointQueue::new();
    queue.record(5, false);
    assert_eq!(queue.off, set_of(&[5]));
    queue.record(5, true);
    assert!(queue.is_empty());
}

#[test]
fn record_on_twice_is_one_entry() {
    let mut queue = PointQueue::new();
    queue.record(5, true);
    queue.record(5, true);
    let drained = queue.drain();
    assert_eq!(drained.on.len(), 1);
    assert!(drained.on.contains(&5));
    assert!(drained.off.is_empty());
}

#[test]
fn record_off_twice_is_one_entry() {
    let mut queue = PointQueue::new();
    queue.record(9, false);
    queue.record(9, false);
    assert_eq!(queue.off, set_of(&[9]));
    assert!(queue.on.is_empty());
}

#[test]
fn record_keeps_other_indices() {
    let mut queue = PointQueue::new();
    queue.record(1, true);
    queue.record(2, false);
    queue.record(3, true);
    queue.record(1, false);
    queue.record(4, false);
    queue.record(2, false);
    assert_eq!(queue.on, set_of(&[3]));
    assert_eq!(queue.off, set_of(&[2, 4]));
    assert!(queue.on.is_disjoint(&queue.off));
}

#[test]
fn last_write_wins_per_index() {
    let mut queue = PointQueue::new();
    for value in [true, false, true, false, true] {
        queue.record(8, value);
    }
    assert_eq!(queue.on, set_of(&[8]));
    assert!(queue.off.is_empty());
    queue.record(8, false);
    assert!(queue.is_empty());
}

#[test]
fn drain_takes_and_clears() {
    let mut queue = PointQueue::new();
    queue.record(1, true);
    queue.record(2, false);
    let drained = queue.drain();
    assert_eq!(drained.on, set_of(&[1]));
    assert_eq!(drained.off, set_of(&[2]));
    assert!(queue.is_empty());
    let again = queue.drain();
    assert!(again.is_empty());
    queue.record(2, false);
    assert_eq!(queue.off, set_of(&[2]));
}

#[test]
fn clear_forgets_everything() {
    let mut queue = PointQueue::new();
    queue.record(1, true);
    queue.record(2, false);
    queue.clear();
    assert!(queue.is_empty());
}

#[test]
fn new_state_is_blank() {
    let state = AppState::new("dump.bin", "dump.png");
    assert_eq!(state.dump_path, "dump.bin");
    assert_eq!(state.bitmap_path, "dump.png");
    assert!(state.queue.is_empty());
    assert!(state.grid.get_full().iter().all(|b| *b == 0));
}

#[test]
fn toggle_returns_new_value_and_records_it() {
    let mut state = AppState::new("a", "b");
    assert!(state.toggle(42));
    assert_eq!(state.grid.get_item(42), Some(true));
    assert_eq!(state.queue.on, set_of(&[42]));
    assert!(state.queue.off.is_empty());

    assert!(!state.toggle(42));
    assert_eq!(state.grid.get_item(42), Some(false));
    assert!(state.queue.is_empty());
    assert_eq!(state.dump_path, "a");
    assert_eq!(state.bitmap_path, "b");
}

#[test]
fn toggle_out_of_range_changes_nothing() {
    let mut state = AppState::new("a", "b");
    state.toggle(1);
    let before = state.grid.get_full();
    assert!(!state.toggle(TOTAL_BITS));
    assert!(!state.toggle(TOTAL_BITS + 100));
    assert!(!state.toggle(usize::MAX));
    assert!(state.grid.get_full() == before);
    assert_eq!(state.queue.on, set_of(&[1]));
    assert!(state.queue.off.is_empty());
}

#[test]
fn queue_is_the_difference_since_the_last_drain() {
    let mut state = AppState::new("a", "b");
    for index in [10usize, 20, 30] {
        state.toggle(index);
    }
    let first = state.queue.drain();
    assert_eq!(first.on, set_of(&[10, 20, 30]));
    let baseline = state.grid.get_full();

    for index in [20usize, 40, 20, 30, 40, 40, 10, 10] {
        state.toggle(index);
    }
    // 20 and 10 went there and back, 30 went off, 40 went on.
    assert_eq!(state.queue.on, set_of(&[40]));
    assert_eq!(state.queue.off, set_of(&[30]));
    for index in 0..64usize {
        let was = baseline[index / 8] >> (index % 8) & 1 == 1;
        let is = state.grid.get_item(index).unwrap();
        assert_eq!(state.queue.on.contains(&index), !was && is);
        assert_eq!(state.queue.off.contains(&index), was && !is);
    }
}

#[test]
fn same_index_toggled_by_two_callers() {
    let mut state = AppState::new("a", "b");
    let first = state.toggle(77);
    let second = state.toggle(77);
    assert_ne!(first, second);
    assert_eq!(state.grid.get_item(77), Some(second));
    assert_eq!(state.queue.on.contains(&77), second);
    assert!(!state.queue.off.contains(&77));
}

#[test]
fn save_then_load_round_trip() {
    let mut state = AppState::new("a", "b");
    for index in [0usize, 9, 1000, 999_999] {
        state.toggle(index);
    }
    let text = state.save();
    assert_eq!(text.len(), (MAX_SIZE + 2) / 3 * 4);
    assert!(text.starts_with("AQI"));

    let mut other = AppState::new("c", "d");
    assert_eq!(other.load(text.as_bytes()), Ok(()));
    assert!(other.grid.get_full() == state.grid.get_full());
    assert!(other.queue.is_empty());
    assert_eq!(other.dump_path, "c");
}

#[test]
fn load_refuses_malformed_text() {
    let mut state = AppState::new("a", "b");
    state.toggle(3);
    let before = state.grid.get_full();
    assert_eq!(state.load(b"not base64 at all!"), Err(LoadError::Undecodable));
    assert_eq!(
        state.load(b"AAAA"),
        Err(LoadError::WrongLength(SizeMismatch { expected: MAX_SIZE, actual: 3 }))
    );
    assert_eq!(
        state.load(b""),
        Err(LoadError::WrongLength(SizeMismatch { expected: MAX_SIZE, actual: 0 }))
    );
    assert!(state.grid.get_full() == before);
    assert_eq!(state.queue.on, set_of(&[3]));
}

#[test]
fn save_png_paints_the_grid() {
    let mut state = AppState::new("a", "b");
    state.toggle(0);
    state.toggle(1001);
    let picture = state.save_png();
    assert_eq!(picture.image.dimensions(), (1000, 1000));
    assert_eq!(picture.image.get_pixel(0, 0).0, [255, 0, 0]);
    assert_eq!(picture.image.get_pixel(1, 1).0, [255, 0, 0]);
    assert_eq!(picture.image.get_pixel(1, 0).0, [255, 255, 255]);
    assert_eq!(picture.image.get_pixel(999, 999).0, [255, 255, 255]);
}
