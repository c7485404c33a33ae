use wooting_sdk::FromScanIndex;
use wooting_sdk::IntoMatrixRowColumn;
use wooting_sdk::Key;

fn all_keys() -> Vec<Key> {
    vec![
        Key::Escape,
        Key::F1,
        Key::F2,
        Key::F3,
        Key::F4,
        Key::F5,
        Key::F6,
        Key::F7,
        Key::F8,
        Key::F9,
        Key::F10,
        Key::F11,
        Key::F12,
        Key::PrintScreen,
        Key::Pause,
        Key::ScrollLock,
        Key::A1,
        Key::A2,
        Key::A3,
        Key::Mode,
        Key::Tilde,
        Key::One,
        Key::Two,
        Key::Three,
        Key::Four,
        Key::Five,
        Key::Six,
        Key::Seven,
        Key::Eight,
        Key::Nine,
        Key::Zero,
        Key::Dash,
        Key::Equals,
        Key::Backspace,
        Key::Insert,
        Key::Home,
        Key::PageUp,
        Key::NumLock,
        Key::NumDivide,
        Key::NumMultiply,
        Key::NumSubtract,
        Key::Tab,
        Key::Q,
        Key::W,
        Key::E,
        Key::R,
        Key::T,
        Key::Y,
        Key::U,
        Key::I,
        Key::O,
        Key::P,
        Key::LeftBracket,
        Key::RightBracket,
        Key::Backslash,
        Key::Delete,
        Key::End,
        Key::PageDown,
        Key::NumSeven,
        Key::NumEight,
        Key::NumNine,
        Key::NumAddition,
        Key::CapsLock,
        Key::A,
        Key::S,
        Key::D,
        Key::F,
        Key::G,
        Key::H,
        Key::J,
        Key::K,
        Key::L,
        Key::SemiColon,
        Key::Apostrophe,
        Key::ISO1,
        Key::Return,
        Key::NumFour,
        Key::NumFive,
        Key::NumSix,
        Key::LeftShift,
        Key::ISO2,
        Key::Z,
        Key::X,
        Key::C,
        Key::V,
        Key::B,
        Key::N,
        Key::M,
        Key::Comma,
        Key::Period,
        Key::ForwardSlash,
        Key::RightShift,
        Key::UpArrow,
        Key::NumOne,
        Key::NumTwo,
        Key::NumThree,
        Key::NumReturn,
        Key::LeftControl,
        Key::LeftMod,
        Key::LeftAlt,
        Key::Space,
        Key::RightAlt,
        Key::RightMod,
        Key::Fn,
        Key::RightControl,
        Key::LeftArrow,
        Key::DownArrow,
        Key::RightArrow,
        Key::NumZero,
        Key::NumDelete,
    ]
}

#[test]
fn from_scan_index_decodes_known_indices() {
    assert_eq!(Key::from_scan_index(0), Some(Key::Escape));
    assert_eq!(Key::from_scan_index(13), Some(Key::PrintScreen));
    assert_eq!(Key::from_scan_index(16), Some(Key::Tilde));
    assert_eq!(Key::from_scan_index(33), Some(Key::Q));
    assert_eq!(Key::from_scan_index(48), Some(Key::CapsLock));
    assert_eq!(Key::from_scan_index(64), Some(Key::LeftShift));
    assert_eq!(Key::from_scan_index(83), Some(Key::Space));
    assert_eq!(Key::from_scan_index(87), Some(Key::ISO2));
    assert_eq!(Key::from_scan_index(90), Some(Key::NumOne));
    assert_eq!(Key::from_scan_index(110), Some(Key::Mode));
}

#[test]
fn from_scan_index_returns_none_on_the_gap_set() {
    assert_eq!(Key::from_scan_index(88), None);
    assert_eq!(Key::from_scan_index(89), None);
    for index in 111..=255u16 {
        assert_eq!(Key::from_scan_index(index as u8), None);
    }
}

#[test]
fn scan_index_110_is_the_last_assigned() {
    assert_eq!(Key::from_scan_index(110), Some(Key::Mode));
    assert_eq!(Key::from_scan_index(111), None);
}

#[test]
fn shared_scan_index_decodes_to_iso1() {
    // Index 45 is shared by `ISO1` and `Backslash`; the decode direction
    // resolves the documented aliasing to `ISO1`.
    assert_eq!(Key::from_scan_index(45), Some(Key::ISO1));
}

#[test]
fn scan_index_55_also_decodes_to_i() {
    // A layout quirk of the hardware table: `I` answers to 40 and to 55.
    assert_eq!(Key::from_scan_index(40), Some(Key::I));
    assert_eq!(Key::from_scan_index(55), Some(Key::I));
}

#[test]
fn every_scan_index_below_111_is_assigned_except_the_gap_pair() {
    // Indices 0..=110 minus the gap pair {88, 89} are all assigned.
    for index in 0..=110u8 {
        let decoded = Key::from_scan_index(index);
        if index == 88 || index == 89 {
            assert_eq!(decoded, None);
        } else {
            assert!(decoded.is_some(), "index {} should decode", index);
        }
    }
}

#[test]
fn matrix_addresses_lie_within_the_matrix() {
    for key in all_keys() {
        let (row, column) = key.into_matrix_row_and_column();
        assert!(row < 6, "{:?} row out of range", key);
        assert!(column < 21, "{:?} column out of range", key);
    }
}

#[test]
fn matrix_addresses_are_injective() {
    let keys = all_keys();
    for a in &keys {
        for b in &keys {
            if a != b {
                assert_ne!(
                    a.into_matrix_row_and_column(),
                    b.into_matrix_row_and_column(),
                    "{:?} and {:?} share a matrix address",
                    a,
                    b
                );
            }
        }
    }
}

#[test]
fn matrix_address_of_sampled_keys() {
    assert_eq!(Key::Escape.into_matrix_row_and_column(), (0, 0));
    assert_eq!(Key::Q.into_matrix_row_and_column(), (2, 1));
    assert_eq!(Key::Backslash.into_matrix_row_and_column(), (2, 13));
    assert_eq!(Key::ISO1.into_matrix_row_and_column(), (3, 12));
    assert_eq!(Key::Space.into_matrix_row_and_column(), (5, 6));
    assert_eq!(Key::NumDelete.into_matrix_row_and_column(), (5, 19));
}

#[test]
fn decoding_a_keys_scan_index_round_trips() {
    // The implicit encode direction, spot-checked per matrix row: decoding
    // each key's own index yields the key back.
    let samples: Vec<(u8, Key)> = vec![
        (0, Key::Escape),
        (15, Key::ScrollLock),
        (16, Key::Tilde),
        (29, Key::Backspace),
        (32, Key::Tab),
        (40, Key::I),
        (48, Key::CapsLock),
        (60, Key::Return),
        (64, Key::LeftShift),
        (75, Key::RightShift),
        (80, Key::LeftControl),
        (95, Key::NumZero),
        (110, Key::Mode),
    ];
    for (index, key) in samples {
        assert_eq!(Key::from_scan_index(index), Some(key));
    }
}

#[test]
fn key_names_match_their_labels() {
    assert_eq!(Key::Escape.name(), "Esc");
    assert_eq!(Key::PrintScreen.name(), "Print Screen");
    assert_eq!(Key::Tilde.name(), "~");
    assert_eq!(Key::Q.name(), "Q");
    assert_eq!(Key::ISO1.name(), "ISO");
    assert_eq!(Key::ISO2.name(), "ISO");
    assert_eq!(Key::Space.name(), "Space");
    assert_eq!(Key::NumDelete.name(), "Delete");
    assert_eq!(Key::Backslash.name(), "\\");
    assert_eq!(Key::NumDivide.name(), "\\");
}
