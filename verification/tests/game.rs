use tetanes_store::corrections::apply_corrections;
use tetanes_store::corrections::lookup_correction;
use tetanes_store::corrections::CORRECTIONS;
use tetanes_store::crc32::compute_crc32;
use tetanes_store::game::region_from_filename;
use tetanes_store::game::title_from_filename;
use tetanes_store::game::Cart;
use tetanes_store::game::Game;
use tetanes_store::game::GameInfo;
use tetanes_store::game::Mirroring;
use tetanes_store::game::NesRegion;

fn cart(prg: usize, chr: usize, ram: usize) -> Cart {
    Cart {
        prg_rom: (0..prg).map(|i| (i * 7 + 3) as u8).collect(),
        chr_rom: (0..chr).map(|i| (i * 13 + 5) as u8).collect(),
        prg_ram: vec![0; ram],
        mapper_num: 4,
        submapper_num: 2,
        mirroring: Mirroring::Vertical,
        battery_backed: true,
    }
}

fn game(crc32: u32) -> Game {
    Game {
        crc32,
        region: NesRegion::Pal,
        mapper: 19,
        submapper: 0,
        chr_banks: 16,
        prg_rom_banks: 8,
        prg_ram_banks: 1,
        battery: true,
        mirroring: Mirroring::FourScreen,
        title: String::from("Some Game"),
    }
}

#[test]
fn game_record_of_a_cartridge() {
    let cart = cart(0x8000, 0x4000, 0x2000);
    let game = Game::new(&cart, Some("Super Game (USA).nes"), "Super Game (USA).nes");
    let mut both = cart.prg_rom.clone();
    both.extend_from_slice(&cart.chr_rom);
    assert_eq!(game.crc32, compute_crc32(&both));
    assert_ne!(game.crc32, compute_crc32(&cart.prg_rom));
    assert_eq!(game.region, NesRegion::Ntsc);
    assert_eq!(game.mapper, 4);
    assert_eq!(game.submapper, 2);
    assert_eq!(game.chr_banks, 2);
    assert_eq!(game.prg_rom_banks, 2);
    assert_eq!(game.prg_ram_banks, 0);
    assert!(game.battery);
    assert_eq!(game.mirroring, Mirroring::Vertical);
    assert_eq!(game.title, "Super Game (USA)");
}

#[test]
fn game_without_graphics_rom_is_identified_by_program_rom() {
    let cart = cart(0x4000, 0, 0x8000);
    assert!(!cart.has_chr_rom());
    let game = Game::new(&cart, Some("a.nes"), "a.nes");
    assert_eq!(game.crc32, compute_crc32(&cart.prg_rom));
    assert_eq!(game.chr_banks, 0);
    assert_eq!(game.prg_rom_banks, 1);
    assert_eq!(game.prg_ram_banks, 2);
}

#[test]
fn game_bank_counts_round_down() {
    let game = Game::new(&cart(0x4000 * 3 + 0x3FFF, 0x2000 - 1, 0x4000), None, "x");
    assert_eq!(game.chr_banks, 0);
    assert_eq!(game.prg_rom_banks, 3);
    assert_eq!(game.prg_ram_banks, 1);
}

#[test]
fn region_is_read_off_the_name() {
    assert_eq!(region_from_filename(Some("Zelda (Europe).nes")), NesRegion::Pal);
    assert_eq!(region_from_filename(Some("Elite (PAL).nes")), NesRegion::Pal);
    assert_eq!(region_from_filename(Some("PAL")), NesRegion::Pal);
    assert_eq!(region_from_filename(Some("xxEuropexx")), NesRegion::Pal);
    assert_eq!(region_from_filename(Some("Zelda (USA).nes")), NesRegion::Ntsc);
    assert_eq!(region_from_filename(Some("")), NesRegion::Ntsc);
}

#[test]
fn region_tokens_are_case_sensitive() {
    assert_eq!(region_from_filename(Some("zelda (europe).nes")), NesRegion::Ntsc);
    assert_eq!(region_from_filename(Some("Elite (pal).nes")), NesRegion::Ntsc);
    assert_eq!(region_from_filename(Some("EUROPE Pal")), NesRegion::Ntsc);
    assert_eq!(region_from_filename(Some("Europ e PA L")), NesRegion::Ntsc);
}

#[test]
fn region_defaults_to_ntsc() {
    assert_eq!(region_from_filename(None), NesRegion::Ntsc);
    assert_eq!(NesRegion::default(), NesRegion::Ntsc);
    let game = Game::new(&cart(16, 0, 0), None, "Elite (PAL)\u{FFFD}.nes");
    assert_eq!(game.region, NesRegion::Ntsc);
    assert_eq!(game.title, "Elite (PAL)\u{FFFD}");
}

#[test]
fn title_is_the_name_without_its_extension() {
    assert_eq!(title_from_filename("Metroid.nes"), "Metroid");
    assert_eq!(title_from_filename("Metroid"), "Metroid");
    assert_eq!(title_from_filename("Metroid.nes.nes"), "Metroid");
    assert_eq!(title_from_filename("Metroid.NES"), "Metroid.NES");
    assert_eq!(title_from_filename("Metroid.nes.bak"), "Metroid.nes.bak");
    assert_eq!(title_from_filename(".nes"), "");
    assert_eq!(title_from_filename(""), "");
    assert_eq!(title_from_filename("nes"), "nes");
    assert_eq!(title_from_filename("Pok\u{e9}mon \u{1F3AE}.nes"), "Pok\u{e9}mon \u{1F3AE}");
}

#[test]
fn title_agrees_with_trim_end_matches() {
    for name in ["a.nes", "a.nes.nes.nes", ".nes.nes", "b.ne", "c.nes ", "\u{3b1}\u{3b2}.nes"] {
        assert_eq!(title_from_filename(name), name.trim_end_matches(".nes"));
    }
}

#[test]
fn region_agrees_with_contains() {
    for name in ["(Europe)", "Europ", "uropeE", "PPAL", "PA", "EuroPAL", ""] {
        let expected = if name.contains("Europe") || name.contains("PAL") {
            NesRegion::Pal
        } else {
            NesRegion::Ntsc
        };
        assert_eq!(region_from_filename(Some(name)), expected, "{}", name);
    }
}

#[test]
fn corrections_first_group() {
    for crc32 in [0x808606F0u32, 0x81B7F1A8, 0xC247CC80, 0xC47946D] {
        let mut game = game(crc32);
        apply_corrections(&mut game);
        assert_eq!((game.mapper, game.submapper), (210, 1), "{:08X}", crc32);
        assert_eq!(lookup_correction(crc32), Some((210, 1)));
    }
}

#[test]
fn corrections_second_group() {
    for crc32 in
        [0x1DC0F740u32, 0x429103C9, 0x46FD7843, 0x47232739, 0x6EC51DE5, 0xADFFD64F, 0xD323B806]
    {
        let mut game = game(crc32);
        apply_corrections(&mut game);
        assert_eq!((game.mapper, game.submapper), (210, 2), "{:08X}", crc32);
        assert_eq!(lookup_correction(crc32), Some((210, 2)));
    }
}

#[test]
fn corrections_leave_other_games_alone() {
    for crc32 in [0u32, 1, 0x808606F1, 0xC47946DD, 0xFFFF_FFFF] {
        let mut corrected = game(crc32);
        apply_corrections(&mut corrected);
        assert_eq!(corrected, game(crc32));
        assert_eq!(lookup_correction(crc32), None);
    }
}

#[test]
fn corrections_change_mapper_and_submapper_only() {
    let mut corrected = game(0x46FD7843);
    apply_corrections(&mut corrected);
    let mut expected = game(0x46FD7843);
    expected.mapper = 210;
    expected.submapper = 2;
    assert_eq!(corrected, expected);
}

#[test]
fn corrections_overwrite_whatever_was_there() {
    let mut listed = game(0x808606F0);
    listed.mapper = 210;
    listed.submapper = 7;
    apply_corrections(&mut listed);
    assert_eq!((listed.mapper, listed.submapper), (210, 1));
}

#[test]
fn corrections_twice_is_once() {
    let mut keys: Vec<u32> = CORRECTIONS.iter().map(|entry| entry.0).collect();
    keys.extend_from_slice(&[0, 0x1234_5678, 0xFFFF_FFFF]);
    for crc32 in keys {
        let mut once = game(crc32);
        apply_corrections(&mut once);
        let mut twice = once.clone();
        apply_corrections(&mut twice);
        assert_eq!(once, twice, "{:08X}", crc32);
    }
}

#[test]
fn corrections_table_lists_each_game_once() {
    assert_eq!(CORRECTIONS.len(), 11);
    for (i, a) in CORRECTIONS.iter().enumerate() {
        for b in &CORRECTIONS[i + 1..] {
            assert_ne!(a.0, b.0);
        }
    }
}

#[test]
fn game_info_is_a_projection() {
    let game = game(0xCAFE_F00D);
    assert_eq!(
        game.info(),
        GameInfo {
            crc32: 0xCAFE_F00D,
            region: NesRegion::Pal,
            mapper_num: 19,
            submapper_num: 0,
            title: String::from("Some Game"),
        }
    );
}
