use lorelei_simulator::hooks::{check_signature, Status, BANK_SIZE, SIGNATURE_LEN};
use lorelei_simulator::profile::Game;

const GOLD_SIGNATURE: [u8; 6] = [0x79, 0xEA, 0xC7, 0xCB, 0xC9, 0x91];
const CRYSTAL_SIGNATURE: [u8; 6] = [0x79, 0xEA, 0xE9, 0xC6, 0xC9, 0x91];

/// An image of `banks` banks with `signature` at `pc` in `bank`.
fn image_with(banks: usize, bank: usize, pc: usize, signature: &[u8]) -> Vec<u8> {
    let mut image = vec![0u8; banks * BANK_SIZE];
    let start = bank * BANK_SIZE + (pc - BANK_SIZE);
    image[start..start + signature.len()].copy_from_slice(signature);
    image
}

#[test]
fn signature_is_found_where_the_program_counter_points() {
    let image = image_with(4, 2, 0x4123, &GOLD_SIGNATURE);
    assert!(check_signature(&image, 0x4123, 2, 0xCBC7));
}

#[test]
fn signature_is_not_found_elsewhere() {
    let image = image_with(4, 2, 0x4123, &GOLD_SIGNATURE);
    assert!(!check_signature(&image, 0x4122, 2, 0xCBC7));
    assert!(!check_signature(&image, 0x4124, 2, 0xCBC7));
    assert!(!check_signature(&image, 0x4123, 1, 0xCBC7));
    assert!(!check_signature(&image, 0x4123, 3, 0xCBC7));
}

#[test]
fn signature_of_another_target_does_not_match() {
    let image = image_with(4, 2, 0x4123, &GOLD_SIGNATURE);
    assert!(!check_signature(&image, 0x4123, 2, 0xC6E9));
    let image = image_with(4, 2, 0x4123, &CRYSTAL_SIGNATURE);
    assert!(check_signature(&image, 0x4123, 2, 0xC6E9));
    assert!(!check_signature(&image, 0x4123, 2, 0xCBC7));
}

#[test]
fn each_signature_byte_counts() {
    for position in 0..SIGNATURE_LEN {
        let mut signature = GOLD_SIGNATURE;
        signature[position] ^= 0x01;
        let image = image_with(4, 1, 0x5000, &signature);
        assert!(!check_signature(&image, 0x5000, 1, 0xCBC7));
    }
}

#[test]
fn code_in_the_fixed_bank_never_matches() {
    // The signature lies at the very start of bank 1: the program counter
    // would have to be the first address of the window, which is left out.
    let mut image = vec![0u8; 2 * BANK_SIZE];
    image[BANK_SIZE..BANK_SIZE + 6].copy_from_slice(&GOLD_SIGNATURE);
    assert!(!check_signature(&image, 0x4000, 1, 0xCBC7));
    assert!(!check_signature(&image, 0x3FFF, 1, 0xCBC7));
    assert!(!check_signature(&image, 0x0000, 1, 0xCBC7));
    // One byte further it is in.
    let image = image_with(2, 1, 0x4001, &GOLD_SIGNATURE);
    assert!(check_signature(&image, 0x4001, 1, 0xCBC7));
}

#[test]
fn signature_must_lie_within_the_image() {
    // The signature ends exactly at the end of the image.
    let image = image_with(2, 1, 0x7FFA, &GOLD_SIGNATURE);
    assert!(check_signature(&image, 0x7FFA, 1, 0xCBC7));
    // One byte short.
    let short = &image[..image.len() - 1];
    assert!(!check_signature(short, 0x7FFA, 1, 0xCBC7));
    // A bank that the image does not have.
    assert!(!check_signature(&image, 0x4123, 2, 0xCBC7));
    assert!(!check_signature(&image, 0x4123, 0xFFFF, 0xCBC7));
    assert!(!check_signature(&[], 0x4123, 0, 0xCBC7));
    assert!(!check_signature(&GOLD_SIGNATURE[..5], 0x4001, 0, 0xCBC7));
}

#[test]
fn program_counter_may_point_past_the_bank_window() {
    // Bank 0 with the counter at 0x8001 reads the image at 0x4001.
    let image = image_with(2, 1, 0x4001, &GOLD_SIGNATURE);
    assert!(check_signature(&image, 0x8001, 0, 0xCBC7));
}

#[test]
fn new_status_is_undecided() {
    let status = Status::new(Game::Silver);
    assert!(!status.rng_hit);
    assert_eq!(status.decision_made, 0);
    assert_eq!(status.game, Game::Silver);
}

#[test]
fn reads_elsewhere_pass_through() {
    let mut status = Status::new(Game::Red);
    assert_eq!(status.read_memory(0xFFD2, 0x42), 0x42);
    assert_eq!(status.read_memory(0xFFD5, 0x43), 0x43);
    assert_eq!(status.read_memory(0xCCDD, 0x44), 0x44);
    assert_eq!(status.supply_read(0x0000, 0x45, 0x99), 0x45);
    assert!(!status.rng_hit);
    assert_eq!(status.decision_made, 0);
}

#[test]
fn reads_of_the_port_get_the_drawn_byte() {
    let mut status = Status::new(Game::Red);
    assert_eq!(status.supply_read(0xFFD3, 0x10, 0xAB), 0xAB);
    assert!(status.rng_hit);
    let mut status = Status::new(Game::Red);
    assert_eq!(status.supply_read(0xFFD4, 0x10, 0xCD), 0xCD);
    assert!(status.rng_hit);
    let mut status = Status::new(Game::Gold);
    assert_eq!(status.supply_read(0xFFE3, 0x10, 0x01), 0x01);
    assert!(status.rng_hit);
    let mut status = Status::new(Game::Crystal);
    assert_eq!(status.supply_read(0xFFE2, 0x10, 0x02), 0x02);
    assert!(status.rng_hit);
    // Another title's port is no port.
    let mut status = Status::new(Game::Crystal);
    assert_eq!(status.supply_read(0xFFE3, 0x10, 0x02), 0x10);
    assert!(!status.rng_hit);
}

#[test]
fn reads_of_the_port_are_replaced_by_random_bytes() {
    let mut status = Status::new(Game::Yellow);
    let mut seen = [false; 256];
    for _ in 0..512 {
        seen[status.read_memory(0xFFD3, 0x55) as usize] = true;
    }
    assert!(status.rng_hit);
    // 512 draws that all give the machine's own byte do not happen.
    assert!(seen.iter().filter(|hit| **hit).count() > 1);
}

#[test]
fn unguarded_title_latches_any_nonzero_write() {
    let mut status = Status::new(Game::Blue);
    assert!(status.write_memory(0xCCDD, 5, 0x0150, &[], 0));
    assert_eq!(status.decision_made, 5);
    assert!(!status.rng_hit);
}

#[test]
fn zero_is_never_latched() {
    let mut status = Status::new(Game::Blue);
    assert!(status.write_memory(0xCCDD, 0, 0x0150, &[], 0));
    assert_eq!(status.decision_made, 0);
    let image = image_with(4, 2, 0x4123, &GOLD_SIGNATURE);
    let mut status = Status::new(Game::Gold);
    assert!(status.write_memory(0xCBC2, 0, 0x4123, &image, 2));
    assert_eq!(status.decision_made, 0);
}

#[test]
fn writes_elsewhere_are_not_decisions() {
    let mut status = Status::new(Game::Red);
    assert!(status.write_memory(0xCCDC, 5, 0x0150, &[], 0));
    assert!(status.write_memory(0xCCDE, 5, 0x0150, &[], 0));
    assert!(status.write_memory(0xCBC2, 5, 0x0150, &[], 0));
    assert_eq!(status.decision_made, 0);
}

#[test]
fn first_decision_stays() {
    let mut status = Status::new(Game::Red);
    status.write_memory(0xCCDD, 5, 0x0150, &[], 0);
    status.write_memory(0xCCDD, 9, 0x0150, &[], 0);
    status.write_memory(0xCCDD, 0, 0x0150, &[], 0);
    assert_eq!(status.decision_made, 5);
}

#[test]
fn guarded_title_needs_the_signature() {
    let image = image_with(4, 2, 0x4123, &GOLD_SIGNATURE);
    for game in [Game::Gold, Game::Silver] {
        let mut status = Status::new(game);
        // Right address, nonzero payload, wrong place in the code.
        assert!(status.write_memory(0xCBC2, 7, 0x4200, &image, 2));
        assert_eq!(status.decision_made, 0);
        assert!(status.write_memory(0xCBC2, 7, 0x4123, &image, 1));
        assert_eq!(status.decision_made, 0);
        assert!(status.write_memory(0xCBC2, 7, 0x0123, &image, 2));
        assert_eq!(status.decision_made, 0);
        // From the guarded code path it is latched.
        assert!(status.write_memory(0xCBC2, 7, 0x4123, &image, 2));
        assert_eq!(status.decision_made, 7);
        // And stays, whatever follows.
        assert!(status.write_memory(0xCBC2, 8, 0x4123, &image, 2));
        assert_eq!(status.decision_made, 7);
    }
}

#[test]
fn crystal_has_its_own_address_and_signature() {
    let gold_image = image_with(4, 2, 0x4123, &GOLD_SIGNATURE);
    let crystal_image = image_with(4, 2, 0x4123, &CRYSTAL_SIGNATURE);
    let mut status = Status::new(Game::Crystal);
    status.write_memory(0xC6E4, 3, 0x4123, &gold_image, 2);
    assert_eq!(status.decision_made, 0);
    status.write_memory(0xCBC2, 3, 0x4123, &crystal_image, 2);
    assert_eq!(status.decision_made, 0);
    status.write_memory(0xC6E4, 3, 0x4123, &crystal_image, 2);
    assert_eq!(status.decision_made, 3);
}

#[test]
fn watches_write_screens_out_what_cannot_be_a_decision() {
    let mut status = Status::new(Game::Gold);
    assert!(status.watches_write(0xCBC2, 1));
    assert!(!status.watches_write(0xCBC2, 0));
    assert!(!status.watches_write(0xCBC3, 1));
    let image = image_with(4, 2, 0x4123, &GOLD_SIGNATURE);
    status.write_memory(0xCBC2, 4, 0x4123, &image, 2);
    assert!(!status.watches_write(0xCBC2, 1));
}
