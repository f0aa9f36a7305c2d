//! Why a simulator could not be made.

use vstd::prelude::*;
use vstd::string::*;
use vstd::utf8::*;
use vstd::slice::*;

verus! {

broadcast use vstd::array::group_array_axioms;

/// The most bytes of an unrecognized identity that an error carries.
pub const NAME_BOUND: usize = 64;

/// A failure to make a simulator. Either of them is final: no simulator
/// comes into existence.
#[derive(Copy, Clone, Debug)]
pub enum SimulatorError {
    /// The snapshot is not usable with the image on this hardware model.
    SaveStateError,
    /// The image's identity is not in the registry. `game` holds the first
    /// `name_len` bytes of the identity, followed by zeros.
    UnknownGame { game: [u8; 64], name_len: usize },
}

/// The largest position at or below `limit` where the text can be cut
/// between two characters.
pub open spec fn boundary_at_or_below(bytes: Seq<u8>, limit: int) -> int
    decreases limit,
{
    if limit <= 0 || is_char_boundary(bytes, limit) {
        limit
    } else {
        boundary_at_or_below(bytes, limit - 1)
    }
}

/// How many bytes of an identity an error keeps: all of them if they fit,
/// else as many whole characters as fit.
pub open spec fn kept_len(bytes: Seq<u8>) -> int {
    if bytes.len() <= NAME_BOUND {
        bytes.len() as int
    } else {
        boundary_at_or_below(bytes, NAME_BOUND as int)
    }
}

/// The part of an identity that an error keeps.
pub open spec fn kept_identity(title: Seq<char>) -> Seq<u8> {
    encode_utf8(title).subrange(0, kept_len(encode_utf8(title)))
}

/// The cut lies within the text and within the limit, and the text before
/// it is whole.
pub proof fn lemma_boundary_at_or_below(bytes: Seq<u8>, limit: int)
    requires
        valid_utf8(bytes),
        0 <= limit <= bytes.len(),
    ensures
        0 <= boundary_at_or_below(bytes, limit) <= limit,
        is_char_boundary(bytes, boundary_at_or_below(bytes, limit)),
        valid_utf8(bytes.subrange(0, boundary_at_or_below(bytes, limit))),
    decreases limit,
{
    if limit <= 0 || is_char_boundary(bytes, limit) {
        valid_utf8_split(bytes, limit);
    } else {
        lemma_boundary_at_or_below(bytes, limit - 1);
    }
}

/// What an error keeps of an identity is whole text of at most
/// [`NAME_BOUND`] bytes.
pub proof fn lemma_kept_identity(title: Seq<char>)
    ensures
        kept_identity(title).len() <= NAME_BOUND,
        kept_identity(title).len() == kept_len(encode_utf8(title)),
        valid_utf8(kept_identity(title)),
        encode_utf8(title).len() <= NAME_BOUND ==> kept_identity(title) == encode_utf8(title),
{
    let bytes = encode_utf8(title);
    encode_utf8_valid_utf8(title);
    if bytes.len() <= NAME_BOUND {
        assert(bytes.subrange(0, bytes.len() as int) =~= bytes);
    } else {
        lemma_boundary_at_or_below(bytes, NAME_BOUND as int);
    }
}

/// Reads bytes as text with `std::str::from_utf8`: the text that the bytes
/// encode where they are well-formed UTF-8, nothing where they are not.
#[verifier::external_body]
fn text_of<'a>(bytes: &'a [u8]) -> (text: Option<&'a str>)
    ensures
        text is Some <==> valid_utf8(bytes@),
        text matches Some(t) ==> t.spec_bytes() == bytes@,
{
    std::str::from_utf8(bytes).ok()
}

impl SimulatorError {
    /// The bytes of the identity that the error carries; none for a
    /// snapshot failure.
    pub open spec fn identity(self) -> Seq<u8> {
        match self {
            SimulatorError::SaveStateError => Seq::empty(),
            SimulatorError::UnknownGame { game, name_len } => game@.subrange(0, name_len as int),
        }
    }

    /// An unknown-game error holds whole text, then zeros.
    pub open spec fn wf(self) -> bool {
        match self {
            SimulatorError::SaveStateError => true,
            SimulatorError::UnknownGame { game, name_len } => {
                &&& name_len <= NAME_BOUND
                &&& valid_utf8(game@.subrange(0, name_len as int))
                &&& forall|i: int| name_len <= i < NAME_BOUND ==> game@[i] == 0
            },
        }
    }

    /// Whether this is the error for the unrecognized identity `title`.
    pub open spec fn is_unknown_game(self, title: Seq<char>) -> bool {
        &&& self is UnknownGame
        &&& self.wf()
        &&& self.identity() == kept_identity(title)
    }

    /// Tests whether the error is well-formed. Every error that this crate
    /// makes is.
    pub fn is_well_formed(&self) -> (r: bool)
        ensures
            r == self.wf(),
    {
        match self {
            SimulatorError::SaveStateError => true,
            SimulatorError::UnknownGame { game, name_len } => {
                if *name_len > NAME_BOUND {
                    return false;
                }
                if text_of(slice_subrange(game.as_slice(), 0, *name_len)).is_none() {
                    return false;
                }
                let mut i: usize = *name_len;
                while i < NAME_BOUND
                    invariant
                        *name_len <= i <= NAME_BOUND,
                        *self == (SimulatorError::UnknownGame { game: *game, name_len: *name_len }),
                        valid_utf8(game@.subrange(0, *name_len as int)),
                        forall|j: int| *name_len <= j < i ==> game@[j] == 0,
                    decreases NAME_BOUND - i,
                {
                    if game[i] != 0 {
                        return false;
                    }
                    i += 1;
                }
                true
            },
        }
    }

    /// The text that describes the error.
    pub open spec fn message_text(self) -> Seq<char> {
        match self {
            SimulatorError::SaveStateError => "Can't read save state"@,
            SimulatorError::UnknownGame { .. } => "Unknown game "@ + decode_utf8(self.identity())
                + " from ROM"@,
        }
    }

    /// Describes the error for a reader.
    pub fn message(&self) -> (text: String)
        requires
            self.wf(),
        ensures
            text@ == self.message_text(),
    {
        match self {
            SimulatorError::SaveStateError => String::from_str("Can't read save state"),
            SimulatorError::UnknownGame { game, name_len } => {
                let kept = slice_subrange(game.as_slice(), 0, *name_len);
                let mut text = String::from_str("Unknown game ");
                match text_of(kept) {
                    Some(name) => {
                        proof {
                            encode_utf8_decode_utf8(name@);
                        }
                        text.append(name);
                    },
                    None => {
                        assert(false);
                    },
                }
                text.append(" from ROM");
                text
            },
        }
    }

    /// The error for an identity that the registry does not hold.
    pub fn unknown_game(title: &str) -> (e: SimulatorError)
        ensures
            e.is_unknown_game(title@),
    {
        let bytes = title.as_bytes();
        proof {
            encode_utf8_valid_utf8(title@);
            lemma_kept_identity(title@);
        }
        let mut name_len: usize = if bytes.len() <= NAME_BOUND {
            bytes.len()
        } else {
            NAME_BOUND
        };
        if bytes.len() > NAME_BOUND {
            while !title.is_char_boundary(name_len)
                invariant
                    bytes@ == title.spec_bytes(),
                    valid_utf8(bytes@),
                    0 <= name_len <= NAME_BOUND < bytes@.len(),
                    boundary_at_or_below(bytes@, NAME_BOUND as int) == boundary_at_or_below(
                        bytes@,
                        name_len as int,
                    ),
                decreases name_len,
            {
                proof {
                    is_char_boundary_start_end_of_seq(bytes@);
                }
                name_len -= 1;
            }
        }
        let mut game: [u8; 64] = [0u8; 64];
        let mut i: usize = 0;
        while i < name_len
            invariant
                i <= name_len <= NAME_BOUND,
                name_len <= bytes@.len(),
                forall|j: int| 0 <= j < i ==> game@[j] == bytes@[j],
                forall|j: int| i <= j < NAME_BOUND ==> game@[j] == 0,
            decreases name_len - i,
        {
            game[i] = bytes[i];
            i += 1;
        }
        assert(game@.subrange(0, name_len as int) =~= bytes@.subrange(0, name_len as int));
        SimulatorError::UnknownGame { game, name_len }
    }
}

} // verus!
