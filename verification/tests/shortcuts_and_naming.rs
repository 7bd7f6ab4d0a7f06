use layercomp::naming::file_name;
use layercomp::naming::output_path;
use layercomp::naming::random_name_part;
use layercomp::shortcuts::KeyAction;
use layercomp::shortcuts::KeySet;
use layercomp::shortcuts::ShortcutKeys;
use layercomp::shortcuts::StateShortcutKeys;
use layercomp::shortcuts::KEY_CODE_CONTROL_LEFT;
use layercomp::shortcuts::KEY_CODE_ESCAPE;
use layercomp::shortcuts::KEY_CODE_KEY_C;

fn keys(codes: &[u32]) -> KeySet {
    let mut set = KeySet::new();
    for &c in codes {
        set.insert(c);
    }
    set
}

#[test]
fn key_sets_stay_sorted_and_deduplicated() {
    let mut set = KeySet::new();
    set.insert(67);
    set.insert(17);
    set.insert(67);
    assert_eq!(set.codes, vec![17, 67]);
    assert_eq!(set.len(), 2);
}

#[test]
fn equal_combinations_compare_equal_whatever_the_insertion_order() {
    let a = keys(&[17, 67]);
    let b = keys(&[67, 17]);
    assert!(a.same_combo(&b));
    assert!(!a.same_combo(&keys(&[17])));
    assert!(!a.same_combo(&keys(&[17, 68])));
}

#[test]
fn recording_a_favourite_takes_the_held_combination() {
    let mut watcher = ShortcutKeys::new(keys(&[1, 2]));
    watcher.state = StateShortcutKeys::SetFavoriteShortcut;
    watcher.on_key_down(65);
    watcher.on_key_down(66);
    let action = watcher.on_key_up(true);
    assert_eq!(action, KeyAction::Idle);
    assert_eq!(watcher.state, StateShortcutKeys::NotBusy);
    assert_eq!(watcher.favorite_hot_keys.codes, vec![65, 66]);
    assert_eq!(watcher.pressed_hot_keys.len(), 0);
}

#[test]
fn reserved_combinations_cannot_become_the_favourite() {
    let mut watcher = ShortcutKeys::new(keys(&[1, 2]));
    watcher.state = StateShortcutKeys::SetFavoriteShortcut;
    watcher.on_key_down(KEY_CODE_CONTROL_LEFT);
    watcher.on_key_down(KEY_CODE_KEY_C);
    let action = watcher.on_key_up(true);
    assert_eq!(action, KeyAction::Idle);
    assert_eq!(watcher.state, StateShortcutKeys::ShortcutNotAvailable);
    assert_eq!(watcher.favorite_hot_keys.codes, vec![1, 2]);

    watcher.state = StateShortcutKeys::SetFavoriteShortcut;
    watcher.on_key_down(KEY_CODE_ESCAPE);
    watcher.on_key_up(true);
    assert_eq!(watcher.state, StateShortcutKeys::ShortcutNotAvailable);
    assert_eq!(watcher.favorite_hot_keys.codes, vec![1, 2]);
}

#[test]
fn escape_closes_the_grab_window() {
    let mut watcher = ShortcutKeys::new(keys(&[65, 66]));
    watcher.on_key_down(KEY_CODE_ESCAPE);
    let action = watcher.on_key_up(true);
    assert_eq!(action, KeyAction::CloseGrabber { show_main: true });
    assert_eq!(watcher.state, StateShortcutKeys::NotBusy);

    watcher.state = StateShortcutKeys::ShortcutNotAvailable;
    watcher.on_key_down(KEY_CODE_ESCAPE);
    let action = watcher.on_key_up(false);
    assert_eq!(action, KeyAction::CloseGrabber { show_main: false });
    assert_eq!(watcher.state, StateShortcutKeys::ShortcutNotAvailable);
}

#[test]
fn the_favourite_combination_starts_the_grabber() {
    let mut watcher = ShortcutKeys::new(keys(&[65, 66]));
    watcher.on_key_down(66);
    watcher.on_key_down(65);
    let action = watcher.on_key_up(true);
    assert_eq!(action, KeyAction::StartGrabber);
    assert_eq!(watcher.state, StateShortcutKeys::StartScreenGrabber);
    assert_eq!(watcher.pressed_hot_keys.len(), 0);

    // While the grabber runs, the combination does nothing further.
    watcher.on_key_down(65);
    watcher.on_key_down(66);
    let action = watcher.on_key_up(true);
    assert_eq!(action, KeyAction::Idle);
    assert_eq!(watcher.state, StateShortcutKeys::StartScreenGrabber);
}

#[test]
fn a_partial_combination_does_nothing() {
    let mut watcher = ShortcutKeys::new(keys(&[65, 66]));
    watcher.on_key_down(65);
    let action = watcher.on_key_up(true);
    assert_eq!(action, KeyAction::Idle);
    assert_eq!(watcher.state, StateShortcutKeys::NotBusy);
    assert_eq!(watcher.pressed_hot_keys.len(), 0);
}

#[test]
fn watchers_compare_by_favourites_pressed_keys_and_state() {
    let a = ShortcutKeys::new(keys(&[65, 66]));
    let b = ShortcutKeys::new(keys(&[65, 66]));
    assert!(a.same(&b));
    let c = ShortcutKeys::new(keys(&[65]));
    assert!(!a.same(&c));
    let mut d = ShortcutKeys::new(keys(&[65, 66]));
    d.state = StateShortcutKeys::StartScreenGrabber;
    assert!(!a.same(&d));
}

#[test]
fn random_name_parts_have_the_requested_length_and_charset() {
    let part = random_name_part(16);
    assert_eq!(part.len(), 16);
    assert!(part.chars().all(|c| c.is_ascii_alphanumeric()));
    let other = random_name_part(12);
    assert_eq!(other.len(), 12);
}

#[test]
fn an_empty_name_gets_the_screenshot_prefix() {
    assert_eq!(file_name("", "abc123"), "screenshot-abc123");
    assert_eq!(file_name("mine", "abc123"), "mine");
}

#[test]
fn the_output_path_is_directory_name_dot_extension() {
    assert_eq!(output_path("./shots/", "screenshot-abc", "png"), "./shots/screenshot-abc.png");
}
