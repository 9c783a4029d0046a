use echo_chamber::{Controls, Key, TabsState};

#[test]
fn tabs_start_at_first_title() {
    let tabs = TabsState::new(vec!["Distortion", "Delay", "Reverb"]);
    assert_eq!(tabs.index, 0);
    assert_eq!(tabs.titles, vec!["Distortion", "Delay", "Reverb"]);
}

#[test]
fn tabs_next_wraps_to_first() {
    let mut tabs = TabsState::new(vec!["Distortion", "Delay", "Reverb"]);
    tabs.next();
    assert_eq!(tabs.index, 1);
    tabs.next();
    assert_eq!(tabs.index, 2);
    tabs.next();
    assert_eq!(tabs.index, 0);
}

#[test]
fn tabs_previous_wraps_to_last() {
    let mut tabs = TabsState::new(vec!["Distortion", "Delay", "Reverb"]);
    tabs.previous();
    assert_eq!(tabs.index, 2);
    tabs.previous();
    assert_eq!(tabs.index, 1);
}

#[test]
fn tabs_next_from_out_of_range_index() {
    let mut tabs = TabsState::new(vec!["a", "b", "c"]);
    tabs.index = usize::MAX;
    tabs.next();
    assert_eq!(tabs.index, ((usize::MAX % 3) + 1) % 3);
}

#[test]
fn controls_quit_on_q() {
    let mut c = Controls::new(vec!["Distortion", "Delay"]);
    assert!(!c.handle_key(Key::Char('x')));
    assert!(!c.exit);
    assert!(c.handle_key(Key::Char('q')));
    assert!(c.exit);
}

#[test]
fn controls_arrows_move_tabs_and_counter() {
    let mut c = Controls::new(vec!["Distortion", "Delay", "Reverb"]);
    assert!(!c.handle_key(Key::Left));
    assert_eq!(c.counter, 255);
    assert_eq!(c.tabs.index, 2);
    assert!(!c.handle_key(Key::Right));
    assert!(!c.handle_key(Key::Right));
    assert_eq!(c.counter, 1);
    assert_eq!(c.tabs.index, 1);
    assert!(!c.handle_key(Key::Other));
    assert_eq!(c.counter, 1);
    assert_eq!(c.tabs.index, 1);
    assert!(!c.exit);
}
