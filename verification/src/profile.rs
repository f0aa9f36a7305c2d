//! The registry of supported titles: which memory addresses carry the
//! opponent's randomness and its decision, and which byte signature guards the
//! decision where one is needed.

use vstd::prelude::*;
use vstd::utf8::*;
use vstd::string::*;

verus! {

/// A supported title.
#[derive(Copy, Clone, Debug, PartialEq, Eq, Structural)]
pub enum Game {
    Yellow,
    Red,
    Blue,
    Gold,
    Silver,
    Crystal,
}

/// What the trial loop intercepts for one title.
#[derive(Copy, Clone, Debug)]
pub struct GameProfile {
    /// First address of the random-number port pair.
    pub rng_low: u16,
    /// Second address of the random-number port pair.
    pub rng_high: u16,
    /// Address the opponent writes its chosen move to.
    pub decision_address: u16,
    /// Address that the guarding signature must store to, where the title
    /// needs a signature check; `None` where any nonzero write counts.
    pub signature_target: Option<u16>,
}

/// The profile of each title.
pub open spec fn profile_of(game: Game) -> GameProfile {
    match game {
        Game::Yellow | Game::Red | Game::Blue => GameProfile {
            rng_low: 0xFFD3,
            rng_high: 0xFFD4,
            decision_address: 0xCCDD,
            signature_target: None,
        },
        Game::Gold | Game::Silver => GameProfile {
            rng_low: 0xFFE3,
            rng_high: 0xFFE4,
            decision_address: 0xCBC2,
            signature_target: Some(0xCBC7u16),
        },
        Game::Crystal => GameProfile {
            rng_low: 0xFFE1,
            rng_high: 0xFFE2,
            decision_address: 0xC6E4,
            signature_target: Some(0xC6E9u16),
        },
    }
}

/// The title that an identity string names, if it names one.
pub open spec fn game_of_title(title: Seq<char>) -> Option<Game> {
    if title == "POKEMON YELLOW"@ {
        Some(Game::Yellow)
    } else if title == "POKEMON RED"@ {
        Some(Game::Red)
    } else if title == "POKEMON BLUE"@ {
        Some(Game::Blue)
    } else if title == "POKEMON_GLDAAUE"@ {
        Some(Game::Gold)
    } else if title == "POKEMON_SLVAAXE"@ {
        Some(Game::Silver)
    } else if title == "PM_CRYSTAL"@ {
        Some(Game::Crystal)
    } else {
        None
    }
}

/// The name of a title for a reader.
pub open spec fn game_name(game: Game) -> Seq<char> {
    match game {
        Game::Gold => "Pokémon: Gold Version"@,
        Game::Silver => "Pokémon: Silver Version"@,
        Game::Crystal => "Pokémon: Crystal Version"@,
        Game::Yellow => "Pokémon Yellow Version: Special Pikachu Edition"@,
        Game::Red => "Pokémon: Red Version"@,
        Game::Blue => "Pokémon: Blue Version"@,
    }
}

/// The identity string of each title.
pub open spec fn title_of(game: Game) -> Seq<char> {
    match game {
        Game::Yellow => "POKEMON YELLOW"@,
        Game::Red => "POKEMON RED"@,
        Game::Blue => "POKEMON BLUE"@,
        Game::Gold => "POKEMON_GLDAAUE"@,
        Game::Silver => "POKEMON_SLVAAXE"@,
        Game::Crystal => "PM_CRYSTAL"@,
    }
}

/// The registry holds each title under its own identity string and under
/// no other: an identity names a title exactly when it is that title's.
pub proof fn lemma_registry(title: Seq<char>, game: Game)
    ensures
        game_of_title(title_of(game)) == Some(game),
        game_of_title(title) == Some(game) <==> title == title_of(game),
{
    reveal_strlit("POKEMON YELLOW");
    reveal_strlit("POKEMON RED");
    reveal_strlit("POKEMON BLUE");
    reveal_strlit("POKEMON_GLDAAUE");
    reveal_strlit("POKEMON_SLVAAXE");
    reveal_strlit("PM_CRYSTAL");
    assert("POKEMON YELLOW"@.len() == 14);
    assert("POKEMON RED"@.len() == 11);
    assert("POKEMON BLUE"@.len() == 12);
    assert("POKEMON_GLDAAUE"@.len() == 15);
    assert("POKEMON_SLVAAXE"@.len() == 15);
    assert("PM_CRYSTAL"@.len() == 10);
    assert("POKEMON_GLDAAUE"@[8] == 'G');
    assert("POKEMON_SLVAAXE"@[8] == 'S');
}

/// The six guarded bytes for a store to `target`: load, store to the
/// little-endian address, return, and the byte that follows.
pub open spec fn signature_bytes(target: u16) -> Seq<u8> {
    seq![0x79u8, 0xEAu8, (target % 256) as u8, (target / 256) as u8, 0xC9u8, 0x91u8]
}

impl GameProfile {
    /// Whether a read at `address` consumes the hardware randomness.
    pub open spec fn is_rng_port(self, address: u16) -> bool {
        address == self.rng_low || address == self.rng_high
    }

    /// Tests whether a read at `address` consumes the hardware randomness.
    pub fn reads_rng(&self, address: u16) -> (r: bool)
        ensures
            r == self.is_rng_port(address),
    {
        address == self.rng_low || address == self.rng_high
    }

    /// The signature that guards the decision address, where the title has
    /// one.
    pub fn signature(&self) -> (r: Option<[u8; 6]>)
        ensures
            match self.signature_target {
                Some(target) => r is Some && r->0@ == signature_bytes(target),
                None => r is None,
            },
    {
        match self.signature_target {
            Some(target) => {
                let low: u8 = (target % 256) as u8;
                let high: u8 = (target / 256) as u8;
                let bytes: [u8; 6] = [0x79, 0xEA, low, high, 0xC9, 0x91];
                Some(bytes)
            },
            None => None,
        }
    }
}

/// Compares two byte strings.
pub fn bytes_equal(a: &[u8], b: &[u8]) -> (r: bool)
    ensures
        r == (a@ == b@),
{
    if a.len() != b.len() {
        return false;
    }
    let mut i: usize = 0;
    while i < a.len()
        invariant
            a.len() == b.len(),
            i <= a.len(),
            forall|j: int| 0 <= j < i ==> a@[j] == b@[j],
        decreases a.len() - i,
    {
        if a[i] != b[i] {
            return false;
        }
        i += 1;
    }
    assert(a@ =~= b@);
    true
}

/// Two strings are the same text exactly when their encodings are the same
/// bytes.
pub proof fn lemma_same_text_same_bytes(a: Seq<char>, b: Seq<char>)
    ensures
        (encode_utf8(a) == encode_utf8(b)) == (a == b),
{
    encode_utf8_decode_utf8(a);
    encode_utf8_decode_utf8(b);
}

/// Tests whether `title` is exactly `expected`.
fn title_is(title: &str, expected: &str) -> (r: bool)
    ensures
        r == (title@ == expected@),
{
    proof {
        lemma_same_text_same_bytes(title@, expected@);
    }
    bytes_equal(title.as_bytes(), expected.as_bytes())
}

impl Game {
    /// Looks a title up by the identity string of its image. The match is
    /// exact: case, spacing and length all count.
    pub fn from_title(title: &str) -> (r: Option<Game>)
        ensures
            r == game_of_title(title@),
    {
        if title_is(title, "POKEMON YELLOW") {
            Some(Game::Yellow)
        } else if title_is(title, "POKEMON RED") {
            Some(Game::Red)
        } else if title_is(title, "POKEMON BLUE") {
            Some(Game::Blue)
        } else if title_is(title, "POKEMON_GLDAAUE") {
            Some(Game::Gold)
        } else if title_is(title, "POKEMON_SLVAAXE") {
            Some(Game::Silver)
        } else if title_is(title, "PM_CRYSTAL") {
            Some(Game::Crystal)
        } else {
            None
        }
    }

    /// The name of the title for a reader.
    pub fn name(self) -> (name: &'static str)
        ensures
            name@ == game_name(self),
    {
        match self {
            Game::Gold => "Pokémon: Gold Version",
            Game::Silver => "Pokémon: Silver Version",
            Game::Crystal => "Pokémon: Crystal Version",
            Game::Yellow => "Pokémon Yellow Version: Special Pikachu Edition",
            Game::Red => "Pokémon: Red Version",
            Game::Blue => "Pokémon: Blue Version",
        }
    }

    /// The addresses and signature to intercept for this title.
    pub fn profile(self) -> (p: GameProfile)
        ensures
            p == profile_of(self),
    {
        match self {
            Game::Yellow | Game::Red | Game::Blue => GameProfile {
                rng_low: 0xFFD3,
                rng_high: 0xFFD4,
                decision_address: 0xCCDD,
                signature_target: None,
            },
            Game::Gold | Game::Silver => GameProfile {
                rng_low: 0xFFE3,
                rng_high: 0xFFE4,
                decision_address: 0xCBC2,
                signature_target: Some(0xCBC7),
            },
            Game::Crystal => GameProfile {
                rng_low: 0xFFE1,
                rng_high: 0xFFE2,
                decision_address: 0xC6E4,
                signature_target: Some(0xC6E9),
            },
        }
    }
}

} // verus!
