//! Known wrong board numbers, keyed by checksum, and the pass that puts them right.
use vstd::prelude::*;
use crate::game::Game;

verus! {

/// How many games are listed.
pub const CORRECTION_COUNT: usize = 11;

/// Games whose images say mapper 19 while the board is mapper 210: for each,
/// the checksum, the mapper and the submapper that the record is given.
pub const CORRECTIONS: [(u32, u16, u8); 11] = [
    // Famista '91
    (0x808606F0, 210, 1),
    // Heisei Tensai Bakabon
    (0x81B7F1A8, 210, 1),
    // Family Circuit '91
    (0xC247CC80, 210, 1),
    // Chibi Maruko-chan: Uki Uki Shopping
    (0x0C47946D, 210, 1),
    // Famista '92
    (0x1DC0F740, 210, 2),
    // Famista '93
    (0x429103C9, 210, 2),
    // Famista '94
    (0x46FD7843, 210, 2),
    // Splatterhouse: Wanpaku Graffiti
    (0x47232739, 210, 2),
    // Top Striker
    (0x6EC51DE5, 210, 2),
    // Wagyan Land 2
    (0xADFFD64F, 210, 2),
    // Wagyan Land 3
    (0xD323B806, 210, 2),
];

/// Whether entry `i` of the table is the one for `crc32`.
pub open spec fn listed_at(crc32: u32, i: int) -> bool {
    0 <= i < 11 && CORRECTIONS[i].0 == crc32
}

/// The mapper and submapper that the table gives for `crc32`, if it lists it.
pub open spec fn correction(crc32: u32) -> Option<(u16, u8)> {
    if exists|i: int| listed_at(crc32, i) {
        let i = choose|i: int| listed_at(crc32, i);
        Some((CORRECTIONS[i].1, CORRECTIONS[i].2))
    } else {
        None
    }
}

/// `game` after the correction pass: mapper and submapper are the table's
/// where the checksum is listed, and nothing else changes.
pub open spec fn corrected(game: Game) -> Game {
    match correction(game.crc32) {
        Some((mapper, submapper)) => Game { mapper, submapper, ..game },
        None => game,
    }
}

/// No checksum is listed twice.
pub proof fn lemma_listed_once(crc32: u32, i: int, j: int)
    requires
        listed_at(crc32, i),
        listed_at(crc32, j),
    ensures
        i == j,
{
}

/// The correction for a checksum is read off the entry that lists it.
pub proof fn lemma_correction_listed(crc32: u32, i: int)
    requires
        listed_at(crc32, i),
    ensures
        correction(crc32) == Some((CORRECTIONS[i].1, CORRECTIONS[i].2)),
{
    lemma_listed_once(crc32, i, choose|k: int| listed_at(crc32, k));
}

/// The mapper and submapper that the table gives for `crc32`, if it lists it.
pub fn lookup_correction(crc32: u32) -> (found: Option<(u16, u8)>)
    ensures
        found == correction(crc32),
{
    let mut i: usize = 0;
    while i < CORRECTION_COUNT
        invariant
            i <= 11,
            forall|k: int| 0 <= k < i ==> !listed_at(crc32, k),
        decreases 11 - i,
    {
        let entry = CORRECTIONS[i];
        if entry.0 == crc32 {
            proof {
                lemma_correction_listed(crc32, i as int);
            }
            return Some((entry.1, entry.2));
        }
        i += 1;
    }
    None
}

/// Puts the mapper and submapper of `game` right where its checksum is listed.
pub fn apply_corrections(game: &mut Game)
    ensures
        *final(game) == corrected(*old(game)),
{
    match lookup_correction(game.crc32) {
        Some((mapper, submapper)) => {
            game.mapper = mapper;
            game.submapper = submapper;
        },
        None => {},
    }
}

/// The pass leaves the checksum alone.
pub proof fn lemma_corrected_keeps_checksum(game: Game)
    ensures
        corrected(game).crc32 == game.crc32,
{
}

/// Applying the pass twice gives what applying it once gives.
pub proof fn lemma_corrected_idempotent(game: Game)
    ensures
        corrected(corrected(game)) == corrected(game),
{
}

} // verus!
