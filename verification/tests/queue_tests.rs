use playback_core::queue::{Queue, Song};

fn song(id: u64, duration: u64, title: &str) -> Song {
    Song { id, duration, title: String::from(title) }
}

#[test]
fn new_queue_is_empty() {
    let q = Queue::new();
    assert!(q.current().is_none());
}

#[test]
fn next_on_empty_queue_yields_nothing() {
    let mut q = Queue::new();
    assert!(q.next().is_none());
    assert!(q.prev().is_none());
    assert!(q.current().is_none());
}

#[test]
fn add_song_keeps_cursor_on_first() {
    let mut q = Queue::new();
    q.add_song(song(1, 1000, "A"));
    q.add_song(song(2, 2000, "B"));
    let cur = q.current().unwrap();
    assert_eq!(cur.id, 1);
    assert_eq!(cur.title, "A");
}

#[test]
fn next_wraps_around() {
    let mut q = Queue::new();
    q.add_song(song(1, 1000, "A"));
    q.add_song(song(2, 2000, "B"));
    q.add_song(song(3, 3000, "C"));
    assert_eq!(q.next().unwrap().id, 2);
    assert_eq!(q.next().unwrap().id, 3);
    assert_eq!(q.next().unwrap().id, 1);
}

#[test]
fn prev_wraps_backwards() {
    let mut q = Queue::new();
    q.add_song(song(1, 1000, "A"));
    q.add_song(song(2, 2000, "B"));
    q.add_song(song(3, 3000, "C"));
    assert_eq!(q.prev().unwrap().id, 3);
    assert_eq!(q.prev().unwrap().id, 2);
    assert_eq!(q.prev().unwrap().id, 1);
}

#[test]
fn full_cycle_of_next_returns_to_start() {
    // A queue of length n comes back to the same song after n steps.
    let mut q = Queue::new();
    q.add_song(song(1, 1000, "A"));
    q.add_song(song(2, 2000, "B"));
    q.add_song(song(3, 3000, "C"));
    assert_eq!(q.next().unwrap().id, 2);
    let before = q.current().unwrap().id;
    q.next();
    q.next();
    q.next();
    assert_eq!(q.current().unwrap().id, before);
}

#[test]
fn remove_before_cursor_slides_cursor_down() {
    let mut q = Queue::new();
    q.add_song(song(1, 1000, "A"));
    q.add_song(song(2, 2000, "B"));
    q.add_song(song(3, 3000, "C"));
    q.next();
    q.next();
    // cursor sits on C; removing A keeps C selected
    q.remove_song(0);
    assert_eq!(q.current().unwrap().id, 3);
}

#[test]
fn remove_at_cursor_zero_keeps_cursor_and_cycles() {
    // Queue [A, B, C] with the cursor on A: removing slot 0 leaves the
    // cursor at 0 (now B), and stepping forward cycles C, B, C.
    let mut q = Queue::new();
    q.add_song(song(1, 1000, "A"));
    q.add_song(song(2, 2000, "B"));
    q.add_song(song(3, 3000, "C"));
    q.remove_song(0);
    assert_eq!(q.current().unwrap().id, 2);
    assert_eq!(q.next().unwrap().id, 3);
    assert_eq!(q.next().unwrap().id, 2);
    assert_eq!(q.next().unwrap().id, 3);
}

#[test]
fn remove_out_of_range_is_ignored() {
    let mut q = Queue::new();
    q.add_song(song(1, 1000, "A"));
    q.remove_song(5);
    assert_eq!(q.current().unwrap().id, 1);
}

#[test]
fn remove_last_song_empties_queue() {
    let mut q = Queue::new();
    q.add_song(song(1, 1000, "A"));
    q.remove_song(0);
    assert!(q.current().is_none());
}

#[test]
fn duplicates_are_permitted() {
    let mut q = Queue::new();
    q.add_song(song(7, 1000, "A"));
    q.add_song(song(7, 1000, "A"));
    assert_eq!(q.next().unwrap().id, 7);
    assert_eq!(q.next().unwrap().id, 7);
}

#[test]
fn clear_resets_queue() {
    let mut q = Queue::new();
    q.add_song(song(1, 1000, "A"));
    q.add_song(song(2, 2000, "B"));
    q.next();
    q.clear();
    assert!(q.current().is_none());
    assert!(q.next().is_none());
    q.add_song(song(9, 900, "Z"));
    assert_eq!(q.current().unwrap().id, 9);
}
