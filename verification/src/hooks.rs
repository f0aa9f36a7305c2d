//! What a worker does when the virtual machine reads or writes memory: it
//! replaces reads of the random-number port by fresh random bytes, and latches
//! the opponent's decision when the decision address is written.

use vstd::prelude::*;
use vstd::slice::*;
use crate::profile::{profile_of, signature_bytes, Game, GameProfile};

verus! {

/// Size of one switchable bank of the program image, and the address at
/// which the switchable bank is mapped.
pub const BANK_SIZE: usize = 0x4000;

/// Length of a decision signature in bytes.
pub const SIGNATURE_LEN: usize = 6;

/// Where in the program image the instruction at `pc` lies when `bank` is
/// the active bank.
pub open spec fn image_offset(pc: u16, bank: u16) -> int {
    BANK_SIZE * bank + (pc - BANK_SIZE)
}

/// Whether the image holds the signature for `target` at the place the
/// program counter points to. Code below or at the start of the switchable
/// bank never matches, nor does a place that the image does not cover.
pub open spec fn signature_present(image: Seq<u8>, pc: u16, bank: u16, target: u16) -> bool {
    &&& pc > BANK_SIZE
    &&& image_offset(pc, bank) + SIGNATURE_LEN <= image.len()
    &&& image.subrange(image_offset(pc, bank), image_offset(pc, bank) + SIGNATURE_LEN)
        == signature_bytes(target)
}

/// Whether a write is the opponent's decision: a nonzero byte to the
/// decision address, from the guarded code path where the title has one.
pub open spec fn is_decision_write(
    profile: GameProfile,
    address: u16,
    data: u8,
    image: Seq<u8>,
    pc: u16,
    bank: u16,
) -> bool {
    &&& address == profile.decision_address
    &&& data != 0
    &&& match profile.signature_target {
        Some(target) => signature_present(image, pc, bank, target),
        None => true,
    }
}

/// Tests whether the image holds the signature for `target` at the place
/// the program counter points to.
pub fn check_signature(image: &[u8], pc: u16, bank: u16, target: u16) -> (r: bool)
    ensures
        r == signature_present(image@, pc, bank, target),
{
    if pc as usize <= BANK_SIZE {
        return false;
    }
    let start: usize = BANK_SIZE * (bank as usize) + (pc as usize - BANK_SIZE);
    if image.len() < SIGNATURE_LEN || start > image.len() - SIGNATURE_LEN {
        return false;
    }
    let low: u8 = (target % 256) as u8;
    let high: u8 = (target / 256) as u8;
    let expected: [u8; 6] = [0x79, 0xEA, low, high, 0xC9, 0x91];
    let ghost window = image@.subrange(start as int, start + SIGNATURE_LEN);
    let mut i: usize = 0;
    while i < SIGNATURE_LEN
        invariant
            i <= SIGNATURE_LEN,
            pc > BANK_SIZE,
            start == image_offset(pc, bank),
            start + SIGNATURE_LEN <= image.len(),
            window == image@.subrange(start as int, start + SIGNATURE_LEN),
            expected@ == signature_bytes(target),
            forall|j: int| 0 <= j < i ==> window[j] == expected@[j],
        decreases SIGNATURE_LEN - i,
    {
        if image[start + i] != expected[i] {
            return false;
        }
        i += 1;
    }
    assert(window =~= signature_bytes(target));
    true
}

/// A worker's interception state for the trial in progress.
#[derive(Copy, Clone, Debug)]
pub struct Status {
    /// Whether the random-number port was read in this trial.
    pub rng_hit: bool,
    /// The latched decision code; zero while undecided.
    pub decision_made: u8,
    /// The title whose profile is intercepted.
    pub game: Game,
}

/// Signature gating. Where the title has a signature, a write that does
/// not come from the guarded code path changes nothing, whatever it writes
/// and wherever.
pub proof fn lemma_unsigned_write_ignored(
    status: Status,
    address: u16,
    data: u8,
    image: Seq<u8>,
    pc: u16,
    bank: u16,
)
    requires
        profile_of(status.game).signature_target matches Some(target) && !signature_present(
            image,
            pc,
            bank,
            target,
        ),
    ensures
        status.after_write(address, data, image, pc, bank) == status,
{
}

/// A decision is latched once. The first decision write of a trial sets
/// the code to its payload, which is not zero; once a code is set, no write
/// changes it.
pub proof fn lemma_latched_once(
    status: Status,
    address: u16,
    data: u8,
    image: Seq<u8>,
    pc: u16,
    bank: u16,
)
    ensures
        status.decision_made != 0 ==> status.after_write(address, data, image, pc, bank) == status,
        status.decision_made == 0 && is_decision_write(
            profile_of(status.game),
            address,
            data,
            image,
            pc,
            bank,
        ) ==> status.after_write(address, data, image, pc, bank).decision_made == data && data
            != 0,
        status.decision_made == 0 && !is_decision_write(
            profile_of(status.game),
            address,
            data,
            image,
            pc,
            bank,
        ) ==> status.after_write(address, data, image, pc, bank) == status,
        status.after_write(address, data, image, pc, bank).rng_hit == status.rng_hit,
        status.after_write(address, data, image, pc, bank).game == status.game,
{
}

/// Draws the byte that replaces a read of the random-number port, with
/// `rand::random`. Nothing is claimed of the byte drawn: it comes from the
/// generator of the calling thread, which is seeded from the operating
/// system. The call panics only where that source of randomness fails.
#[verifier::external_body]
fn random_byte() -> u8 {
    rand::random::<u8>()
}

impl Status {
    /// The state at the start of a trial: no randomness seen, undecided.
    pub fn new(game: Game) -> (s: Status)
        ensures
            s == (Status { rng_hit: false, decision_made: 0, game }),
    {
        Status { rng_hit: false, decision_made: 0, game }
    }

    /// The state after a read at `address`.
    pub open spec fn after_read(self, address: u16) -> Status {
        if profile_of(self.game).is_rng_port(address) {
            Status { rng_hit: true, ..self }
        } else {
            self
        }
    }

    /// The state after a write: the first decision write is latched, every
    /// later one is ignored.
    pub open spec fn after_write(
        self,
        address: u16,
        data: u8,
        image: Seq<u8>,
        pc: u16,
        bank: u16,
    ) -> Status {
        if self.decision_made == 0 && is_decision_write(
            profile_of(self.game),
            address,
            data,
            image,
            pc,
            bank,
        ) {
            Status { decision_made: data, ..self }
        } else {
            self
        }
    }

    /// Answers a read when the byte to supply at the random-number port has
    /// already been drawn: a read of the port gets `drawn` and marks the
    /// trial as having consumed randomness, any other read gets the
    /// machine's own byte.
    pub fn supply_read(&mut self, address: u16, original_data: u8, drawn: u8) -> (supplied: u8)
        ensures
            *final(self) == old(self).after_read(address),
            supplied == if profile_of(old(self).game).is_rng_port(address) {
                drawn
            } else {
                original_data
            },
    {
        if self.game.profile().reads_rng(address) {
            self.rng_hit = true;
            drawn
        } else {
            original_data
        }
    }

    /// Answers a read: a read of the random-number port gets a freshly
    /// drawn byte, which may be any byte, and marks the trial as having
    /// consumed randomness; any other read gets the machine's own byte.
    pub fn read_memory(&mut self, address: u16, original_data: u8) -> (supplied: u8)
        ensures
            *final(self) == old(self).after_read(address),
            !profile_of(old(self).game).is_rng_port(address) ==> supplied == original_data,
    {
        if self.game.profile().reads_rng(address) {
            let drawn = random_byte();
            self.supply_read(address, original_data, drawn)
        } else {
            original_data
        }
    }

    /// Tests whether a write could be a decision at all, before the caller
    /// goes to the machine for the program counter and the image.
    pub fn watches_write(&self, address: u16, data: u8) -> (r: bool)
        ensures
            r == (self.decision_made == 0 && address == profile_of(self.game).decision_address
                && data != 0),
    {
        self.decision_made == 0 && address == self.game.profile().decision_address && data != 0
    }

    /// Observes a write. `pc` is the program counter at the write, `image`
    /// the program image and `bank` its active bank. The write itself is
    /// always let through.
    pub fn write_memory(&mut self, address: u16, data: u8, pc: u16, image: &[u8], bank: u16) -> (allow:
        bool)
        ensures
            allow,
            *final(self) == old(self).after_write(address, data, image@, pc, bank),
    {
        let profile = self.game.profile();
        if self.decision_made == 0 && address == profile.decision_address && data != 0 {
            let accepted = match profile.signature_target {
                Some(target) => check_signature(image, pc, bank, target),
                None => true,
            };
            if accepted {
                self.decision_made = data;
            }
        }
        true
    }
}

} // verus!
