use lorelei_simulator::error::SimulatorError;
use lorelei_simulator::profile::{bytes_equal, Game, GameProfile};
use lorelei_simulator::simulator::Simulator;

fn assert_profile(profile: GameProfile, low: u16, high: u16, decision: u16, target: Option<u16>) {
    assert_eq!(profile.rng_low, low);
    assert_eq!(profile.rng_high, high);
    assert_eq!(profile.decision_address, decision);
    assert_eq!(profile.signature_target, target);
}

#[test]
fn every_supported_title_is_found() {
    assert_eq!(Game::from_title("POKEMON YELLOW"), Some(Game::Yellow));
    assert_eq!(Game::from_title("POKEMON RED"), Some(Game::Red));
    assert_eq!(Game::from_title("POKEMON BLUE"), Some(Game::Blue));
    assert_eq!(Game::from_title("POKEMON_GLDAAUE"), Some(Game::Gold));
    assert_eq!(Game::from_title("POKEMON_SLVAAXE"), Some(Game::Silver));
    assert_eq!(Game::from_title("PM_CRYSTAL"), Some(Game::Crystal));
}

#[test]
fn titles_match_exactly() {
    assert_eq!(Game::from_title(""), None);
    assert_eq!(Game::from_title("POKEMON"), None);
    assert_eq!(Game::from_title("pokemon red"), None);
    assert_eq!(Game::from_title("POKEMON RED "), None);
    assert_eq!(Game::from_title(" POKEMON RED"), None);
    assert_eq!(Game::from_title("POKEMON GREEN"), None);
    assert_eq!(Game::from_title("POKEMON_GLDAAUF"), None);
    assert_eq!(Game::from_title("PM_CRYSTAL\0"), None);
    assert_eq!(Game::from_title("TETRIS"), None);
}

#[test]
fn first_generation_profiles_have_no_signature() {
    for game in [Game::Yellow, Game::Red, Game::Blue] {
        let profile = game.profile();
        assert_profile(profile, 0xFFD3, 0xFFD4, 0xCCDD, None);
        assert_eq!(profile.signature(), None);
    }
}

#[test]
fn second_generation_profiles_are_guarded() {
    for game in [Game::Gold, Game::Silver] {
        let profile = game.profile();
        assert_profile(profile, 0xFFE3, 0xFFE4, 0xCBC2, Some(0xCBC7));
        assert_eq!(profile.signature(), Some([0x79, 0xEA, 0xC7, 0xCB, 0xC9, 0x91]));
    }
    let crystal = Game::Crystal.profile();
    assert_profile(crystal, 0xFFE1, 0xFFE2, 0xC6E4, Some(0xC6E9));
    assert_eq!(crystal.signature(), Some([0x79, 0xEA, 0xE9, 0xC6, 0xC9, 0x91]));
}

#[test]
fn rng_ports_are_the_pair_and_nothing_else() {
    let red = Game::Red.profile();
    assert!(red.reads_rng(0xFFD3));
    assert!(red.reads_rng(0xFFD4));
    assert!(!red.reads_rng(0xFFD2));
    assert!(!red.reads_rng(0xFFD5));
    assert!(!red.reads_rng(0xFFE3));
    let crystal = Game::Crystal.profile();
    assert!(crystal.reads_rng(0xFFE1));
    assert!(crystal.reads_rng(0xFFE2));
    assert!(!crystal.reads_rng(0xFFE3));
    assert!(!crystal.reads_rng(0xFFD3));
}

#[test]
fn game_names_read_as_titles() {
    assert_eq!(Game::Gold.name(), "Pokémon: Gold Version");
    assert_eq!(Game::Silver.name(), "Pokémon: Silver Version");
    assert_eq!(Game::Crystal.name(), "Pokémon: Crystal Version");
    assert_eq!(Game::Yellow.name(), "Pokémon Yellow Version: Special Pikachu Edition");
    assert_eq!(Game::Red.name(), "Pokémon: Red Version");
    assert_eq!(Game::Blue.name(), "Pokémon: Blue Version");
}

#[test]
fn bytes_equal_compares_length_and_content() {
    assert!(bytes_equal(b"", b""));
    assert!(bytes_equal(b"abc", b"abc"));
    assert!(!bytes_equal(b"abc", b"abd"));
    assert!(!bytes_equal(b"abc", b"ab"));
    assert!(!bytes_equal(b"ab", b"abc"));
}

#[test]
fn construction_recognizes_each_title() {
    let titles = [
        ("POKEMON YELLOW", Game::Yellow),
        ("POKEMON RED", Game::Red),
        ("POKEMON BLUE", Game::Blue),
        ("POKEMON_GLDAAUE", Game::Gold),
        ("POKEMON_SLVAAXE", Game::Silver),
        ("PM_CRYSTAL", Game::Crystal),
    ];
    for (title, game) in titles {
        let simulator = Simulator::new_from_vec(vec![1, 2, 3], vec![4, 5], None, Some(title));
        let Ok(simulator) = simulator else {
            panic!("{title} was not recognized");
        };
        assert_eq!(simulator.game(), game);
        assert_eq!(simulator.rom(), &vec![1, 2, 3]);
        assert_eq!(simulator.base_snapshot(), &vec![4, 5]);
    }
}

#[test]
fn construction_refuses_an_unknown_title() {
    let result = Simulator::new_from_vec(vec![1], vec![2], Some(10), Some("TETRIS"));
    let Err(SimulatorError::UnknownGame { game, name_len }) = result else {
        panic!("an unknown title made a simulator");
    };
    assert_eq!(name_len, 6);
    assert_eq!(&game[..6], b"TETRIS");
    assert!(game[6..].iter().all(|byte| *byte == 0));
}

#[test]
fn construction_refuses_an_unusable_snapshot() {
    let result = Simulator::new_from_vec(vec![1], vec![2], None, None);
    assert!(matches!(result, Err(SimulatorError::SaveStateError)));
    let result = Simulator::new_from_slices(&[1], &[2], None, None);
    assert!(matches!(result, Err(SimulatorError::SaveStateError)));
}

#[test]
fn construction_from_slices_copies_the_inputs() {
    let rom = [9u8, 8, 7];
    let state = [6u8, 5];
    let simulator = Simulator::new_from_slices(&rom, &state, Some(2), Some("PM_CRYSTAL"));
    let Ok(simulator) = simulator else {
        panic!("PM_CRYSTAL was not recognized");
    };
    assert_eq!(simulator.game(), Game::Crystal);
    assert_eq!(simulator.rom(), &vec![9, 8, 7]);
    assert_eq!(simulator.base_snapshot(), &vec![6, 5]);
    assert!(!simulator.is_running());
    assert!(!simulator.is_warm());
    assert!(simulator.results().is_empty());
}
