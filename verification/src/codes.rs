//! Room-code generation: fixed-length codes over a low-ambiguity alphabet
//! (hex digits), drawn at random and re-drawn on collision with an existing
//! game's code.

use vstd::prelude::*;

verus! {

/// Number of characters in a room code.
pub const GAME_CODE_LENGTH: usize = 6;

/// The code alphabet: decimal digits and the lowercase hex letters.
pub open spec fn is_code_char(c: char) -> bool {
    c == '0' || c == '1' || c == '2' || c == '3' || c == '4' || c == '5' || c == '6' || c == '7'
        || c == '8' || c == '9' || c == 'a' || c == 'b' || c == 'c' || c == 'd' || c == 'e'
        || c == 'f'
}

/// A well-formed room code: exactly `GAME_CODE_LENGTH` characters, all drawn
/// from the code alphabet.
pub open spec fn is_valid_game_code(s: Seq<char>) -> bool {
    &&& s.len() == GAME_CODE_LENGTH
    &&& forall|i: int| 0 <= i < s.len() ==> is_code_char(#[trigger] s[i])
}

/// The sixteen characters codes are drawn from, in the order the generator
/// is seeded with them.
fn game_code_alphabet() -> (r: Vec<char>)
    ensures
        r@ == seq![
            '1', '2', '3', '4', '5', '6', '7', '8', '9', '0', 'a', 'b', 'c', 'd', 'e', 'f',
        ],
        r@.len() == 16,
        forall|i: int| 0 <= i < r@.len() ==> is_code_char(#[trigger] r@[i]),
        forall|i: int| 0 <= i < r@.len() ==> (#[trigger] r@[i] as u32) < 128,
{
    let mut v: Vec<char> = Vec::new();
    v.push('1');
    v.push('2');
    v.push('3');
    v.push('4');
    v.push('5');
    v.push('6');
    v.push('7');
    v.push('8');
    v.push('9');
    v.push('0');
    v.push('a');
    v.push('b');
    v.push('c');
    v.push('d');
    v.push('e');
    v.push('f');
    proof {
        assert(v@ =~= seq![
            '1', '2', '3', '4', '5', '6', '7', '8', '9', '0', 'a', 'b', 'c', 'd', 'e', 'f',
        ]);
    }
    v
}

/// Relies on nanoid::format with nanoid::rngs::default: returns `size`
/// characters, each drawn from `alphabet`. The alphabet must be nonempty
/// (an empty one never yields a character), at most 255 symbols (more is
/// refused), and ASCII (so that the generator's byte count equals the
/// character count); `size` must be positive (the generator's general path
/// never returns for a zero size). The default generator reads the OS
/// randomness source and aborts if it fails — an environmental failure of
/// the same kind as allocation failure, not input-dependent.
#[verifier::external_body]
fn nanoid_format(alphabet: &Vec<char>, size: usize) -> (r: String)
    requires
        1 <= size,
        1 <= alphabet@.len() <= 255,
        forall|i: int| 0 <= i < alphabet@.len() ==> (#[trigger] alphabet@[i] as u32) < 128,
    ensures
        r@.len() == size as nat,
        forall|i: int| 0 <= i < r@.len() ==> alphabet@.contains(#[trigger] r@[i]),
{
    nanoid::format(nanoid::rngs::default, alphabet.as_slice(), size)
}

/// Whether `code` differs from every code in `existing`.
pub fn code_is_free(code: &String, existing: &Vec<String>) -> (b: bool)
    ensures
        b == (forall|i: int| 0 <= i < existing@.len() ==> (#[trigger] existing@[i])@ != code@),
{
    let mut i: usize = 0;
    while i < existing.len()
        invariant
            i <= existing@.len(),
            forall|k: int| 0 <= k < i ==> (#[trigger] existing@[k])@ != code@,
        decreases existing@.len() - i,
    {
        if existing[i].eq(code) {
            return false;
        }
        i += 1;
    }
    true
}

/// Draws fresh room codes until one is free of collisions with `existing`,
/// giving up after `max_attempts` draws. A returned code is well formed and
/// never equals an already-existing game's code. With no existing codes at
/// all, the first draw cannot collide, so one allowed attempt suffices;
/// with no allowed attempts nothing is drawn.
pub fn generate_game_code(existing: &Vec<String>, max_attempts: u64) -> (r: Option<String>)
    ensures
        r matches Some(code) ==> is_valid_game_code(code@),
        r matches Some(code) ==> forall|i: int|
            0 <= i < existing@.len() ==> (#[trigger] existing@[i])@ != code@,
        existing@.len() == 0 && max_attempts >= 1 ==> r is Some,
        max_attempts == 0 ==> r is None,
{
    let alphabet = game_code_alphabet();
    let mut attempts: u64 = 0;
    while attempts < max_attempts
        invariant
            alphabet@.len() == 16,
            forall|i: int| 0 <= i < alphabet@.len() ==> is_code_char(#[trigger] alphabet@[i]),
            forall|i: int| 0 <= i < alphabet@.len() ==> (#[trigger] alphabet@[i] as u32) < 128,
            existing@.len() == 0 ==> attempts == 0,
        decreases max_attempts - attempts,
    {
        let code = nanoid_format(&alphabet, GAME_CODE_LENGTH);
        proof {
            assert forall|i: int| 0 <= i < code@.len() implies is_code_char(#[trigger] code@[i]) by {
                assert(alphabet@.contains(code@[i]));
                let j = choose|j: int| 0 <= j < alphabet@.len() && alphabet@[j] == code@[i];
                assert(is_code_char(alphabet@[j]));
            }
        }
        if code_is_free(&code, existing) {
            return Some(code);
        }
        attempts += 1;
    }
    None
}

} // verus!
