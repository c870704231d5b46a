//! Compiling the game database: scanned games are gathered, put in order of
//! checksum, corrected, and reduced to the entries that are kept.
//!
//! Games with the same checksum are all kept, in the order in which they
//! were scanned.
use vstd::prelude::*;
use crate::corrections::apply_corrections;
use crate::corrections::corrected;
use crate::game::info_of;
use crate::game::Game;
use crate::game::GameInfo;
use crate::text::chars_of;
use crate::text::same_chars;

verus! {

/// Whether a file with this extension is scanned: only `nes`, in lower case,
/// is; a file without an extension, or with one that is not text, is passed over.
pub open spec fn is_scanned(extension: Option<Seq<char>>) -> bool {
    extension == Some("nes"@)
}

/// Whether a file with this extension is scanned.
pub fn is_rom_extension(extension: Option<&str>) -> (scanned: bool)
    ensures
        scanned == is_scanned(
            match extension {
                Some(text) => Some(text@),
                None => None,
            },
        ),
{
    match extension {
        Some(text) => {
            let found = chars_of(text);
            let wanted = chars_of("nes");
            same_chars(found.as_slice(), wanted.as_slice())
        },
        None => false,
    }
}

/// How the attempt to read one cartridge image ended.
#[derive(Debug)]
pub enum ScanOutcome {
    /// The image was read and gave this record.
    Loaded(Game),
    /// The parser refused the image, for the reason given.
    Rejected(String),
    /// The parser broke down on the image.
    Faulted,
}

/// The records gathered from a batch of scans: one for each image that was
/// read, corrected, in the order of the batch.  Images that were refused and
/// images on which the parser broke down leave nothing behind.
pub open spec fn gathered(outcomes: Seq<ScanOutcome>) -> Seq<Game>
    decreases outcomes.len(),
{
    if outcomes.len() == 0 {
        Seq::<Game>::empty()
    } else {
        let before = gathered(outcomes.drop_last());
        match outcomes.last() {
            ScanOutcome::Loaded(game) => before.push(corrected(game)),
            _ => before,
        }
    }
}

/// An image that was read adds its corrected record at the end of what was
/// gathered; any other outcome adds nothing and takes nothing away.
pub proof fn lemma_gathered_push(outcomes: Seq<ScanOutcome>, outcome: ScanOutcome)
    ensures
        gathered(outcomes.push(outcome)) == match outcome {
            ScanOutcome::Loaded(game) => gathered(outcomes).push(corrected(game)),
            _ => gathered(outcomes),
        },
{
    assert(outcomes.push(outcome).drop_last() =~= outcomes);
}

/// A batch of one image that was read and one on which the parser broke down
/// gives exactly the record of the first, whichever came first.
pub proof fn lemma_gathered_past_a_fault(game: Game)
    ensures
        gathered(seq![ScanOutcome::Loaded(game), ScanOutcome::Faulted]) == seq![corrected(game)],
        gathered(seq![ScanOutcome::Faulted, ScanOutcome::Loaded(game)]) == seq![corrected(game)],
{
    let none = Seq::<ScanOutcome>::empty();
    lemma_gathered_push(none, ScanOutcome::Loaded(game));
    lemma_gathered_push(none, ScanOutcome::Faulted);
    lemma_gathered_push(none.push(ScanOutcome::Loaded(game)), ScanOutcome::Faulted);
    lemma_gathered_push(none.push(ScanOutcome::Faulted), ScanOutcome::Loaded(game));
    assert(seq![ScanOutcome::Loaded(game), ScanOutcome::Faulted] =~= none.push(
        ScanOutcome::Loaded(game),
    ).push(ScanOutcome::Faulted));
    assert(seq![ScanOutcome::Faulted, ScanOutcome::Loaded(game)] =~= none.push(
        ScanOutcome::Faulted,
    ).push(ScanOutcome::Loaded(game)));
}

/// Whether `keys` never goes down.
pub open spec fn non_decreasing(keys: Seq<u32>) -> bool {
    forall|i: int, j: int| 0 <= i <= j < keys.len() ==> keys[i] <= keys[j]
}

/// The checksums of `games`, in order.
pub open spec fn game_keys(games: Seq<Game>) -> Seq<u32> {
    Seq::new(games.len(), |i: int| games[i].crc32)
}

/// The checksums of `entries`, in order.
pub open spec fn entry_keys(entries: Seq<GameInfo>) -> Seq<u32> {
    Seq::new(entries.len(), |i: int| entries[i].crc32)
}

/// Where a game with checksum `crc32` goes into `games`: behind the last
/// game whose checksum is not greater.
pub open spec fn insertion_point(games: Seq<Game>, crc32: u32) -> int
    decreases games.len(),
{
    if games.len() == 0 || games.last().crc32 <= crc32 {
        games.len() as int
    } else {
        insertion_point(games.drop_last(), crc32)
    }
}

/// `games` with `game` put in at its insertion point.
pub open spec fn inserted(games: Seq<Game>, game: Game) -> Seq<Game> {
    games.insert(insertion_point(games, game.crc32), game)
}

/// `games` in order of checksum, games of one checksum in the order they had.
pub open spec fn sorted_by_checksum(games: Seq<Game>) -> Seq<Game>
    decreases games.len(),
{
    if games.len() == 0 {
        games
    } else {
        inserted(sorted_by_checksum(games.drop_last()), games.last())
    }
}

/// The games of `games` whose checksum is `crc32`, in order.
pub open spec fn with_checksum(games: Seq<Game>, crc32: u32) -> Seq<Game> {
    games.filter(|game: Game| game.crc32 == crc32)
}

/// Each game of `games` after the correction pass.
pub open spec fn all_corrected(games: Seq<Game>) -> Seq<Game> {
    Seq::new(games.len(), |i: int| corrected(games[i]))
}

/// The database entries of `games`.
pub open spec fn entries_of(games: Seq<Game>) -> Seq<GameInfo> {
    Seq::new(games.len(), |i: int| info_of(games[i]))
}

/// The record list that goes into the database: sorted, then corrected.
pub open spec fn compiled(games: Seq<Game>) -> Seq<Game> {
    all_corrected(sorted_by_checksum(games))
}

/// The insertion point lies within the list, everything before it has a
/// checksum that is not greater, and everything from it on has a greater one.
pub proof fn lemma_insertion_point(games: Seq<Game>, crc32: u32)
    requires
        non_decreasing(game_keys(games)),
    ensures
        0 <= insertion_point(games, crc32) <= games.len(),
        forall|i: int| 0 <= i < insertion_point(games, crc32) ==> games[i].crc32 <= crc32,
        forall|i: int|
            insertion_point(games, crc32) <= i < games.len() ==> games[i].crc32 > crc32,
    decreases games.len(),
{
    let keys = game_keys(games);
    if games.len() > 0 && games.last().crc32 <= crc32 {
        assert forall|i: int| 0 <= i < games.len() implies games[i].crc32 <= crc32 by {
            assert(keys[i] <= keys[games.len() - 1]);
        }
    } else if games.len() > 0 {
        let front = games.drop_last();
        assert(non_decreasing(game_keys(front))) by {
            assert forall|i: int, j: int| 0 <= i <= j < front.len() implies game_keys(front)[i]
                <= game_keys(front)[j] by {
                assert(keys[i] <= keys[j]);
            }
        }
        lemma_insertion_point(front, crc32);
        let at = insertion_point(front, crc32);
        assert forall|i: int| 0 <= i < at implies games[i].crc32 <= crc32 by {
            assert(games[i] == front[i]);
        }
        assert forall|i: int| at <= i < games.len() implies games[i].crc32 > crc32 by {
            if i < front.len() {
                assert(games[i] == front[i]);
            }
        }
    }
}

/// Putting a game into a list that is in order leaves a list that is in order.
pub proof fn lemma_inserted_in_order(games: Seq<Game>, game: Game)
    requires
        non_decreasing(game_keys(games)),
    ensures
        non_decreasing(game_keys(inserted(games, game))),
{
    lemma_insertion_point(games, game.crc32);
    let at = insertion_point(games, game.crc32);
    let after = inserted(games, game);
    let keys = game_keys(games);
    assert forall|i: int, j: int| 0 <= i <= j < after.len() implies game_keys(after)[i]
        <= game_keys(after)[j] by {
        if j < at {
            assert(keys[i] <= keys[j]);
        } else if i > at {
            assert(keys[i - 1] <= keys[j - 1]);
        }
    }
}

/// Sorting gives a list whose checksums never go down.
pub proof fn lemma_sorted_in_order(games: Seq<Game>)
    ensures
        non_decreasing(game_keys(sorted_by_checksum(games))),
        sorted_by_checksum(games).len() == games.len(),
    decreases games.len(),
{
    if games.len() > 0 {
        lemma_sorted_in_order(games.drop_last());
        lemma_insertion_point(sorted_by_checksum(games.drop_last()), games.last().crc32);
        lemma_inserted_in_order(sorted_by_checksum(games.drop_last()), games.last());
    }
}

/// Sorting neither drops a game nor makes one up.
pub proof fn lemma_sorted_same_games(games: Seq<Game>)
    ensures
        sorted_by_checksum(games).to_multiset() == games.to_multiset(),
    decreases games.len(),
{
    broadcast use vstd::seq_lib::group_to_multiset_ensures;

    if games.len() > 0 {
        let front = games.drop_last();
        let sorted_front = sorted_by_checksum(front);
        lemma_sorted_same_games(front);
        lemma_sorted_in_order(front);
        lemma_insertion_point(sorted_front, games.last().crc32);
        assert(games =~= front.push(games.last()));
    }
}

/// Sorting keeps the games of one checksum in the order they had.
pub proof fn lemma_sorted_is_stable(games: Seq<Game>, crc32: u32)
    ensures
        with_checksum(sorted_by_checksum(games), crc32) == with_checksum(games, crc32),
    decreases games.len(),
{
    let pred = |game: Game| game.crc32 == crc32;
    if games.len() > 0 {
        let front = games.drop_last();
        let last = games.last();
        let sorted_front = sorted_by_checksum(front);
        lemma_sorted_is_stable(front, crc32);
        lemma_sorted_in_order(front);
        lemma_insertion_point(sorted_front, last.crc32);
        let at = insertion_point(sorted_front, last.crc32);
        let head = sorted_front.take(at);
        let tail = sorted_front.skip(at);
        assert(sorted_front =~= head + tail);
        assert(games =~= front.push(last));
        lemma_with_checksum_push(front, last, crc32);
        lemma_with_checksum_push(head, last, crc32);
        Seq::filter_distributes_over_add(head, tail, pred);
        Seq::filter_distributes_over_add(head.push(last), tail, pred);
        if last.crc32 == crc32 {
            lemma_filter_none(tail, crc32);
        }
    }
}

/// A game added at the end is kept by the filter exactly if the checksum is its own.
proof fn lemma_with_checksum_push(games: Seq<Game>, game: Game, crc32: u32)
    ensures
        with_checksum(games.push(game), crc32) == if game.crc32 == crc32 {
            with_checksum(games, crc32).push(game)
        } else {
            with_checksum(games, crc32)
        },
{
    reveal(Seq::filter);
    assert(games.push(game).drop_last() =~= games);
}

/// A list whose games all have another checksum has no game of this one.
proof fn lemma_filter_none(games: Seq<Game>, crc32: u32)
    requires
        forall|i: int| 0 <= i < games.len() ==> games[i].crc32 != crc32,
    ensures
        with_checksum(games, crc32) == Seq::<Game>::empty(),
    decreases games.len(),
{
    let pred = |game: Game| game.crc32 == crc32;
    if games.len() > 0 {
        lemma_filter_none(games.drop_last(), crc32);
        assert(games =~= games.drop_last().push(games.last()));
        lemma_with_checksum_push(games.drop_last(), games.last(), crc32);
    }
}

/// The compiled record list is in order of checksum, and so are its entries.
pub proof fn lemma_compiled_in_order(games: Seq<Game>)
    ensures
        non_decreasing(game_keys(compiled(games))),
        non_decreasing(entry_keys(entries_of(compiled(games)))),
{
    lemma_sorted_in_order(games);
    let sorted = sorted_by_checksum(games);
    assert(game_keys(compiled(games)) =~= game_keys(sorted));
    assert(entry_keys(entries_of(compiled(games))) =~= game_keys(sorted));
}

/// Gathers the records of a batch of scans.
pub fn collect_games(outcomes: Vec<ScanOutcome>) -> (games: Vec<Game>)
    ensures
        games@ == gathered(outcomes@),
{
    let ghost batch = outcomes@;
    let mut games: Vec<Game> = Vec::new();
    for outcome in it: outcomes
        invariant
            it.seq() == batch,
            games@ == gathered(batch.take(it.index())),
    {
        assert(batch.take(it.index() + 1).drop_last() =~= batch.take(it.index()));
        match outcome {
            ScanOutcome::Loaded(game) => {
                let mut game = game;
                apply_corrections(&mut game);
                games.push(game);
            },
            _ => {},
        }
    }
    assert(batch.take(batch.len() as int) =~= batch);
    games
}

/// Puts `games` in order of checksum; games of one checksum keep their order.
pub fn sort_games(games: &mut Vec<Game>)
    ensures
        final(games)@ == sorted_by_checksum(old(games)@),
{
    let len = games.len();
    let mut i: usize = 0;
    while i < len
        invariant
            i <= len,
            len == games@.len(),
            len == old(games)@.len(),
            games@.take(i as int) == sorted_by_checksum(old(games)@.take(i as int)),
            games@.skip(i as int) == old(games)@.skip(i as int),
        decreases len - i,
    {
        let ghost whole = old(games)@;
        let ghost front = games@.take(i as int);
        let ghost rest = whole.skip(i + 1);
        let game = games.remove(i);
        let crc32 = game.crc32;
        proof {
            assert(game == whole.skip(i as int)[0]);
            assert(front.take(i as int) =~= front);
            assert forall|k: int| 0 <= k < rest.len() implies games@[i + k] == rest[k] by {
                assert(whole.skip(i as int)[1 + k] == whole[i + 1 + k]);
            }
            lemma_sorted_in_order(whole.take(i as int));
        }
        let mut at: usize = i;
        while at > 0 && games[at - 1].crc32 > crc32
            invariant
                at <= i < len,
                games@.len() == len - 1,
                games@.take(i as int) == front,
                insertion_point(front, crc32) == insertion_point(front.take(at as int), crc32),
            decreases at,
        {
            assert(front.take(at as int).drop_last() =~= front.take(at - 1));
            at -= 1;
        }
        games.insert(at, game);
        proof {
            assert(whole.take(i + 1).drop_last() =~= whole.take(i as int));
            assert(games@ =~= inserted(front, game) + rest);
        }
        i += 1;
    }
    assert(old(games)@.take(len as int) =~= old(games)@);
}

/// Finishes the record list and gives the database entries: the games are
/// sorted, each is corrected once more, and each is reduced to its entry.
pub fn compile_database(games: &mut Vec<Game>) -> (entries: Vec<GameInfo>)
    ensures
        final(games)@ == compiled(old(games)@),
        entries@ == entries_of(final(games)@),
        non_decreasing(entry_keys(entries@)),
{
    sort_games(games);
    let ghost sorted = games@;
    let len = games.len();
    proof {
        lemma_sorted_in_order(old(games)@);
        lemma_compiled_in_order(old(games)@);
    }
    let mut entries: Vec<GameInfo> = Vec::with_capacity(len);
    let mut i: usize = 0;
    while i < len
        invariant
            i <= len,
            len == games@.len(),
            len == sorted.len(),
            entries@.len() == i,
            forall|k: int| 0 <= k < i ==> games@[k] == corrected(sorted[k]),
            forall|k: int| i <= k < len ==> games@[k] == sorted[k],
            forall|k: int| 0 <= k < i ==> entries@[k] == info_of(games@[k]),
        decreases len - i,
    {
        apply_corrections(&mut games[i]);
        entries.push(games[i].info());
        i += 1;
    }
    entries
}

} // verus!
