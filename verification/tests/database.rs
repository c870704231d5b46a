use tetanes_store::database::collect_games;
use tetanes_store::database::compile_database;
use tetanes_store::database::is_rom_extension;
use tetanes_store::database::sort_games;
use tetanes_store::database::ScanOutcome;
use tetanes_store::game::Game;
use tetanes_store::game::Mirroring;
use tetanes_store::game::NesRegion;
use tetanes_store::listing::log_header;
use tetanes_store::listing::log_line;
use tetanes_store::listing::log_line_with;
use tetanes_store::listing::log_lines;

fn game(crc32: u32, title: &str) -> Game {
    Game {
        crc32,
        region: NesRegion::Ntsc,
        mapper: 19,
        submapper: 0,
        chr_banks: 2,
        prg_rom_banks: 8,
        prg_ram_banks: 0,
        battery: false,
        mirroring: Mirroring::Horizontal,
        title: String::from(title),
    }
}

fn corrected(crc32: u32, title: &str, submapper: u8) -> Game {
    let mut game = game(crc32, title);
    game.mapper = 210;
    game.submapper = submapper;
    game
}

fn batch(len: usize) -> Vec<Game> {
    let mut state: u32 = 0xC0FF_EE00;
    let mut games = Vec::new();
    for i in 0..len {
        state = state.wrapping_mul(1_664_525).wrapping_add(1_013_904_223);
        let crc32 = if i % 5 == 0 { (state >> 28) << 28 } else { state };
        games.push(game(crc32, &format!("game {}", i)));
    }
    games
}

#[test]
fn scan_takes_files_with_the_rom_extension_only() {
    assert!(is_rom_extension(Some("nes")));
    assert!(!is_rom_extension(Some("NES")));
    assert!(!is_rom_extension(Some("Nes")));
    assert!(!is_rom_extension(Some("nes ")));
    assert!(!is_rom_extension(Some("ne")));
    assert!(!is_rom_extension(Some("ness")));
    assert!(!is_rom_extension(Some("zip")));
    assert!(!is_rom_extension(Some("")));
    assert!(!is_rom_extension(None));
}

#[test]
fn scan_keeps_the_good_image_and_goes_on_past_a_fault() {
    let games = collect_games(vec![ScanOutcome::Loaded(game(7, "good")), ScanOutcome::Faulted]);
    assert_eq!(games, vec![game(7, "good")]);
    let games = collect_games(vec![ScanOutcome::Faulted, ScanOutcome::Loaded(game(7, "good"))]);
    assert_eq!(games, vec![game(7, "good")]);
}

#[test]
fn scan_skips_what_was_refused() {
    let games = collect_games(vec![
        ScanOutcome::Rejected(String::from("bad header")),
        ScanOutcome::Loaded(game(9, "first")),
        ScanOutcome::Faulted,
        ScanOutcome::Loaded(game(3, "second")),
        ScanOutcome::Rejected(String::from("too short")),
    ]);
    assert_eq!(games, vec![game(9, "first"), game(3, "second")]);
}

#[test]
fn scan_of_nothing_gives_nothing() {
    assert!(collect_games(Vec::new()).is_empty());
    assert!(collect_games(vec![ScanOutcome::Faulted, ScanOutcome::Faulted]).is_empty());
}

#[test]
fn scan_corrects_each_game() {
    let games = collect_games(vec![
        ScanOutcome::Loaded(game(0x808606F0, "Famista '91")),
        ScanOutcome::Loaded(game(0xD323B806, "Wagyan Land 3")),
    ]);
    assert_eq!(
        games,
        vec![corrected(0x808606F0, "Famista '91", 1), corrected(0xD323B806, "Wagyan Land 3", 2)]
    );
}

#[test]
fn sort_orders_by_checksum() {
    let mut games = vec![game(30, "c"), game(10, "a"), game(0xFFFF_FFFF, "z"), game(0, "0"), game(20, "b")];
    sort_games(&mut games);
    assert_eq!(
        games,
        vec![game(0, "0"), game(10, "a"), game(20, "b"), game(30, "c"), game(0xFFFF_FFFF, "z")]
    );
}

#[test]
fn sort_keeps_equal_checksums_in_scan_order() {
    let mut games = vec![
        game(5, "first five"),
        game(1, "first one"),
        game(5, "second five"),
        game(1, "second one"),
        game(5, "third five"),
    ];
    sort_games(&mut games);
    assert_eq!(
        games,
        vec![
            game(1, "first one"),
            game(1, "second one"),
            game(5, "first five"),
            game(5, "second five"),
            game(5, "third five"),
        ]
    );
}

#[test]
fn sort_of_short_lists() {
    let mut none: Vec<Game> = Vec::new();
    sort_games(&mut none);
    assert!(none.is_empty());
    let mut one = vec![game(4, "only")];
    sort_games(&mut one);
    assert_eq!(one, vec![game(4, "only")]);
}

#[test]
fn sort_agrees_with_a_stable_sort() {
    for len in [2usize, 3, 10, 64, 301] {
        let mut games = batch(len);
        let mut expected = games.clone();
        expected.sort_by_key(|game| game.crc32);
        sort_games(&mut games);
        assert_eq!(games, expected, "length {}", len);
    }
}

#[test]
fn database_is_never_decreasing() {
    for len in [0usize, 1, 2, 17, 200] {
        let mut games = batch(len);
        let entries = compile_database(&mut games);
        assert_eq!(entries.len(), len);
        assert!(entries.windows(2).all(|pair| pair[0].crc32 <= pair[1].crc32), "length {}", len);
        assert!(games.windows(2).all(|pair| pair[0].crc32 <= pair[1].crc32), "length {}", len);
    }
}

#[test]
fn database_entries_are_the_sorted_corrected_games() {
    let mut games = vec![
        game(0xADFFD64F, "Wagyan Land 2"),
        game(0x0C47946D, "Chibi Maruko-chan"),
        game(0x5000_0000, "Other"),
    ];
    let entries = compile_database(&mut games);
    assert_eq!(
        games,
        vec![
            corrected(0x0C47946D, "Chibi Maruko-chan", 1),
            game(0x5000_0000, "Other"),
            corrected(0xADFFD64F, "Wagyan Land 2", 2),
        ]
    );
    let expected: Vec<_> = games.iter().map(|game| game.info()).collect();
    assert_eq!(entries, expected);
    assert_eq!(entries[0].mapper_num, 210);
    assert_eq!(entries[0].submapper_num, 1);
    assert_eq!(entries[0].title, "Chibi Maruko-chan");
    assert_eq!(entries[1].mapper_num, 19);
    assert_eq!(entries[2].submapper_num, 2);
}

#[test]
fn database_keeps_games_with_the_same_checksum() {
    let mut games = vec![game(8, "b"), game(8, "a"), game(2, "c")];
    let entries = compile_database(&mut games);
    let titles: Vec<&str> = entries.iter().map(|entry| entry.title.as_str()).collect();
    assert_eq!(titles, vec!["c", "b", "a"]);
}

#[test]
fn listing_header() {
    assert_eq!(
        log_header(),
        "# CRC, Region, Mapper, PrgRomSize, ChrRomSize, ChrRamSize, PrgRamSize, Battery, Mirroring, SubMapper, Title"
    );
}

#[test]
fn listing_line() {
    assert_eq!(
        log_line(&game(0xB9B4CBD5, "Lorem Ipsum")),
        "  B9B4CBD5, NTSC, 19, 0, 2, 8, 0, false, Horizontal, \"Lorem Ipsum\""
    );
}

#[test]
fn listing_checksum_has_eight_digits() {
    assert!(log_line(&game(0xAB, "x")).starts_with("  000000AB, "));
    assert!(log_line(&game(0, "x")).starts_with("  00000000, "));
    assert!(log_line(&game(0x0C47946D, "x")).starts_with("  0C47946D, "));
    assert!(log_line(&game(0xFFFF_FFFF, "x")).starts_with("  FFFFFFFF, "));
}

#[test]
fn listing_line_of_every_field() {
    let game = Game {
        crc32: 0x0012_FACE,
        region: NesRegion::Pal,
        mapper: 65535,
        submapper: 255,
        chr_banks: 10,
        prg_rom_banks: 100,
        prg_ram_banks: 4_000_000,
        battery: true,
        mirroring: Mirroring::SingleScreenB,
        title: String::from("A \"quoted\" \\ title\n"),
    };
    assert_eq!(
        log_line(&game),
        "  0012FACE, PAL, 65535, 255, 10, 100, 4000000, true, SingleScreenB, \"A \\\"quoted\\\" \\\\ title\\n\""
    );
    assert_eq!(
        log_line(&game),
        format!(
            "  {:08X}, PAL, {}, {}, {}, {}, {}, {}, {:?}, {:?}",
            game.crc32,
            game.mapper,
            game.submapper,
            game.chr_banks,
            game.prg_rom_banks,
            game.prg_ram_banks,
            game.battery,
            game.mirroring,
            game.title
        )
    );
}

#[test]
fn listing_mirroring_names() {
    let names = [
        (Mirroring::Vertical, "Vertical"),
        (Mirroring::Horizontal, "Horizontal"),
        (Mirroring::SingleScreenA, "SingleScreenA"),
        (Mirroring::SingleScreenB, "SingleScreenB"),
        (Mirroring::FourScreen, "FourScreen"),
    ];
    for (mirroring, name) in names {
        let mut game = game(1, "t");
        game.mirroring = mirroring;
        assert_eq!(log_line(&game), format!("  00000001, NTSC, 19, 0, 2, 8, 0, false, {}, \"t\"", name));
        assert_eq!(format!("{:?}", mirroring), name);
    }
}

#[test]
fn listing_line_with_a_given_title() {
    assert_eq!(
        log_line_with(&game(0x10, "ignored"), "<title>"),
        "  00000010, NTSC, 19, 0, 2, 8, 0, false, Horizontal, <title>"
    );
}

#[test]
fn listing_has_a_line_for_each_game() {
    let games = vec![game(1, "a"), game(2, "b"), game(3, "c")];
    let lines = log_lines(&games);
    assert_eq!(lines.len(), 3);
    for (line, game) in lines.iter().zip(&games) {
        assert_eq!(*line, log_line(game));
    }
    assert!(log_lines(&Vec::new()).is_empty());
}
