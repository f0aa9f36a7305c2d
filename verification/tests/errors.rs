use lorelei_simulator::error::{SimulatorError, NAME_BOUND};

fn identity(error: &SimulatorError) -> Vec<u8> {
    match error {
        SimulatorError::UnknownGame { game, name_len } => game[..*name_len].to_vec(),
        SimulatorError::SaveStateError => Vec::new(),
    }
}

#[test]
fn save_state_error_message() {
    assert_eq!(SimulatorError::SaveStateError.message(), "Can't read save state");
}

#[test]
fn unknown_game_message_echoes_the_identity() {
    let error = SimulatorError::unknown_game("ABC");
    assert_eq!(error.message(), "Unknown game ABC from ROM");
    let error = SimulatorError::unknown_game("SUPER MARIOLAND");
    assert_eq!(error.message(), "Unknown game SUPER MARIOLAND from ROM");
}

#[test]
fn unknown_game_with_an_empty_identity() {
    let error = SimulatorError::unknown_game("");
    assert_eq!(identity(&error), b"");
    assert_eq!(error.message(), "Unknown game  from ROM");
}

#[test]
fn unknown_game_pads_with_zeros() {
    let error = SimulatorError::unknown_game("ZELDA");
    let SimulatorError::UnknownGame { game, name_len } = error else {
        panic!("not an unknown-game error");
    };
    assert_eq!(name_len, 5);
    assert_eq!(&game[..5], b"ZELDA");
    assert_eq!(&game[5..], &[0u8; 59][..]);
}

#[test]
fn unknown_game_keeps_an_identity_that_just_fits() {
    let title = "A".repeat(NAME_BOUND);
    let error = SimulatorError::unknown_game(&title);
    assert_eq!(identity(&error), title.as_bytes());
    assert_eq!(error.message(), format!("Unknown game {title} from ROM"));
}

#[test]
fn unknown_game_cuts_a_long_identity_at_the_bound() {
    let title = "B".repeat(NAME_BOUND + 36);
    let error = SimulatorError::unknown_game(&title);
    assert_eq!(identity(&error), "B".repeat(NAME_BOUND).as_bytes());
}

#[test]
fn unknown_game_cuts_between_characters() {
    // 63 one-byte characters, then a two-byte one that straddles the bound.
    let title = format!("{}é and more", "C".repeat(NAME_BOUND - 1));
    let error = SimulatorError::unknown_game(&title);
    assert_eq!(identity(&error), "C".repeat(NAME_BOUND - 1).as_bytes());
    assert_eq!(
        error.message(),
        format!("Unknown game {} from ROM", "C".repeat(NAME_BOUND - 1))
    );
    // 62 one-byte characters, then a three-byte one that ends past the bound.
    let title = format!("{}€€€", "D".repeat(NAME_BOUND - 2));
    let error = SimulatorError::unknown_game(&title);
    assert_eq!(identity(&error), "D".repeat(NAME_BOUND - 2).as_bytes());
    // The same character fits when it ends at the bound.
    let title = format!("{}€€€", "E".repeat(NAME_BOUND - 3));
    let error = SimulatorError::unknown_game(&title);
    assert_eq!(identity(&error), format!("{}€", "E".repeat(NAME_BOUND - 3)).as_bytes());
}

#[test]
fn unknown_game_keeps_text_that_is_not_ascii() {
    let error = SimulatorError::unknown_game("ポケモン");
    assert_eq!(identity(&error), "ポケモン".as_bytes());
    assert_eq!(error.message(), "Unknown game ポケモン from ROM");
}

#[test]
fn errors_made_here_are_well_formed() {
    assert!(SimulatorError::SaveStateError.is_well_formed());
    assert!(SimulatorError::unknown_game("").is_well_formed());
    assert!(SimulatorError::unknown_game("TETRIS").is_well_formed());
    assert!(SimulatorError::unknown_game(&"é".repeat(40)).is_well_formed());
}

#[test]
fn malformed_errors_are_told_apart() {
    let mut game = [0u8; 64];
    game[..3].copy_from_slice(b"ABC");
    assert!(SimulatorError::UnknownGame { game, name_len: 3 }.is_well_formed());
    // A length past the buffer.
    assert!(!SimulatorError::UnknownGame { game, name_len: 65 }.is_well_formed());
    // Bytes after the identity that are not zero.
    assert!(!SimulatorError::UnknownGame { game, name_len: 2 }.is_well_formed());
    // Bytes that are no text.
    let mut game = [0u8; 64];
    game[0] = 0xFF;
    assert!(!SimulatorError::UnknownGame { game, name_len: 1 }.is_well_formed());
    // Half a character.
    let mut game = [0u8; 64];
    game[0] = "é".as_bytes()[0];
    assert!(!SimulatorError::UnknownGame { game, name_len: 1 }.is_well_formed());
    // A full buffer.
    assert!(SimulatorError::UnknownGame { game: [b'A'; 64], name_len: 64 }.is_well_formed());
}
