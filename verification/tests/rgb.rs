use wooting_sdk::rgb::RgbKeyboard;
use wooting_sdk::rgb::TeardownStep;
use wooting_sdk::rgb::BUFFER_LENGTH;
use wooting_sdk::rgb::COLUMNS;
use wooting_sdk::rgb::COMPONENTS;
use wooting_sdk::rgb::ROWS;
use wooting_sdk::Key;

fn cell_offset(row: usize, column: usize) -> usize {
    (row * COLUMNS + column) * COMPONENTS
}

#[test]
fn buffer_covers_the_whole_matrix() {
    assert_eq!(ROWS, 6);
    assert_eq!(COLUMNS, 21);
    assert_eq!(COMPONENTS, 3);
    assert_eq!(BUFFER_LENGTH, 378);
}

#[test]
fn a_fresh_keyboard_stages_all_black_with_auto_update_off() {
    let keyboard = RgbKeyboard::new();
    assert_eq!(keyboard.staged_colors().len(), BUFFER_LENGTH);
    assert!(keyboard.staged_colors().iter().all(|&b| b == 0));
    assert!(!keyboard.is_auto_update());
}

#[test]
fn default_matches_new() {
    let keyboard = RgbKeyboard::default();
    assert_eq!(keyboard.staged_colors().len(), BUFFER_LENGTH);
    assert!(keyboard.staged_colors().iter().all(|&b| b == 0));
    assert!(!keyboard.is_auto_update());
}

#[test]
fn array_set_full_of_white_q_zeroes_everything_else() {
    // Q sits at matrix address (2, 1), so its three component bytes start
    // at (2 * 21 + 1) * 3 = 129 in the flattened buffer.
    let mut keyboard = RgbKeyboard::new();
    keyboard.array_set_full(&[(Key::Q, (255, 255, 255))]);
    let buffer = keyboard.staged_colors();
    assert_eq!(buffer.len(), BUFFER_LENGTH);
    let offset = cell_offset(2, 1);
    assert_eq!(offset, 129);
    for (i, &byte) in buffer.iter().enumerate() {
        if i >= offset && i < offset + 3 {
            assert_eq!(byte, 255, "byte {} inside Q's cell", i);
        } else {
            assert_eq!(byte, 0, "byte {} outside Q's cell", i);
        }
    }
}

#[test]
fn array_set_full_of_an_empty_list_stages_all_black() {
    let mut keyboard = RgbKeyboard::new();
    keyboard.array_set_full(&[(Key::Q, (255, 255, 255))]);
    let empty: &[(Key, (u8, u8, u8))] = &[];
    keyboard.array_set_full(empty);
    assert_eq!(keyboard.staged_colors().len(), BUFFER_LENGTH);
    assert!(keyboard.staged_colors().iter().all(|&b| b == 0));
}

#[test]
fn array_set_full_is_an_overwrite_not_a_merge() {
    let mut keyboard = RgbKeyboard::new();
    keyboard.array_set_full(&[(Key::Q, (255, 255, 255))]);
    keyboard.array_set_full(&[(Key::W, (1, 2, 3))]);
    let buffer = keyboard.staged_colors();
    let q = cell_offset(2, 1);
    let w = cell_offset(2, 2);
    assert_eq!(&buffer[q..q + 3], &[0, 0, 0]);
    assert_eq!(&buffer[w..w + 3], &[1, 2, 3]);
}

#[test]
fn array_set_full_lets_the_last_entry_win() {
    let mut keyboard = RgbKeyboard::new();
    keyboard.array_set_full(&[(Key::Q, (1, 1, 1)), (Key::Q, (9, 8, 7))]);
    let q = cell_offset(2, 1);
    assert_eq!(&keyboard.staged_colors()[q..q + 3], &[9, 8, 7]);
}

#[test]
fn array_set_full_later_staging_wins_across_other_keys() {
    let mut keyboard = RgbKeyboard::new();
    keyboard.array_set_full(&[
        (Key::Q, (1, 1, 1)),
        (Key::W, (4, 5, 6)),
        (Key::Q, (9, 8, 7)),
    ]);
    let buffer = keyboard.staged_colors();
    let q = cell_offset(2, 1);
    let w = cell_offset(2, 2);
    assert_eq!(&buffer[q..q + 3], &[9, 8, 7]);
    assert_eq!(&buffer[w..w + 3], &[4, 5, 6]);
}

#[test]
fn array_set_single_stages_one_cell() {
    let mut keyboard = RgbKeyboard::new();
    keyboard.array_set_single(Key::W, 10, 20, 30);
    let buffer = keyboard.staged_colors();
    let w = cell_offset(2, 2);
    for (i, &byte) in buffer.iter().enumerate() {
        if i >= w && i < w + 3 {
            assert_eq!(byte, [10, 20, 30][i - w]);
        } else {
            assert_eq!(byte, 0);
        }
    }
}

#[test]
fn array_set_single_builds_on_the_staged_state() {
    let mut keyboard = RgbKeyboard::new();
    keyboard.array_set_full(&[(Key::Q, (255, 255, 255))]);
    keyboard.array_set_single(Key::W, 10, 20, 30);
    let buffer = keyboard.staged_colors();
    let q = cell_offset(2, 1);
    let w = cell_offset(2, 2);
    assert_eq!(&buffer[q..q + 3], &[255, 255, 255]);
    assert_eq!(&buffer[w..w + 3], &[10, 20, 30]);
}

#[test]
fn auto_update_toggles_and_defaults_to_off() {
    let mut keyboard = RgbKeyboard::new();
    assert!(!keyboard.is_auto_update());
    keyboard.array_auto_update(true);
    assert!(keyboard.is_auto_update());
    keyboard.array_auto_update(false);
    assert!(!keyboard.is_auto_update());
}

#[test]
fn teardown_owes_one_reset_then_one_auto_update_disable() {
    let mut keyboard = RgbKeyboard::new();
    let steps = keyboard.teardown();
    assert_eq!(
        steps,
        vec![TeardownStep::ResetAll, TeardownStep::DisableAutoUpdate]
    );
    assert!(!keyboard.is_auto_update());
}

#[test]
fn teardown_owes_the_same_steps_after_mutation() {
    let mut keyboard = RgbKeyboard::new();
    keyboard.array_auto_update(true);
    keyboard.array_set_single(Key::A, 5, 5, 5);
    let steps = keyboard.teardown();
    assert_eq!(
        steps,
        vec![TeardownStep::ResetAll, TeardownStep::DisableAutoUpdate]
    );
    assert!(!keyboard.is_auto_update());
}
