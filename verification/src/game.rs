//! Game records: what is known of one cartridge image, and how a record is
//! made from the cartridge's contents and the name of its file.
use vstd::prelude::*;
use crate::crc32::checksum;
use crate::crc32::combine;
use crate::crc32::compute_combine_crc32;
use crate::crc32::compute_crc32;
use crate::crc32::lemma_combine_concat;
use crate::text::chars_of;
use crate::text::contains;
use crate::text::contains_chars;
use crate::text::push_chars;
use crate::text::trim_end;
use crate::text::trimmed_len;

verus! {

/// Size of one bank of graphics ROM.
pub const CHR_BANK_SIZE: usize = 0x2000;

/// Size of one bank of program ROM or program RAM.
pub const PRG_BANK_SIZE: usize = 0x4000;

/// The television system a game was made for.
#[derive(Debug, Clone, Copy, PartialEq, Eq, Structural)]
pub enum NesRegion {
    Ntsc,
    Pal,
}

impl Default for NesRegion {
    fn default() -> (region: Self)
        ensures
            region == NesRegion::Ntsc,
    {
        NesRegion::Ntsc
    }
}

/// How the cartridge lays out the name tables.
#[derive(Debug, Clone, Copy, PartialEq, Eq, Structural)]
pub enum Mirroring {
    Vertical,
    Horizontal,
    SingleScreenA,
    SingleScreenB,
    FourScreen,
}

/// What a cartridge parser hands over: the ROM segments and the board's metadata.
#[derive(Debug, Clone, PartialEq, Eq)]
pub struct Cart {
    /// Program ROM.
    pub prg_rom: Vec<u8>,
    /// Graphics ROM; empty where the cartridge has none.
    pub chr_rom: Vec<u8>,
    /// Program RAM.
    pub prg_ram: Vec<u8>,
    pub mapper_num: u16,
    pub submapper_num: u8,
    pub mirroring: Mirroring,
    pub battery_backed: bool,
}

impl Cart {
    /// Whether the cartridge has graphics ROM.
    pub fn has_chr_rom(&self) -> (present: bool)
        ensures
            present == (self.chr_rom@.len() > 0),
    {
        self.chr_rom.len() > 0
    }
}

/// One scanned game.
#[derive(Debug, Clone, PartialEq, Eq)]
#[must_use]
pub struct Game {
    pub crc32: u32,
    pub region: NesRegion,
    pub mapper: u16,
    pub submapper: u8,
    pub chr_banks: usize,
    pub prg_rom_banks: usize,
    pub prg_ram_banks: usize,
    pub battery: bool,
    pub mirroring: Mirroring,
    pub title: String,
}

/// The part of a game record that the database keeps.
#[derive(Debug, Clone, PartialEq, Eq)]
#[must_use]
pub struct GameInfo {
    pub crc32: u32,
    pub region: NesRegion,
    pub mapper_num: u16,
    pub submapper_num: u8,
    pub title: String,
}

/// The checksum that identifies a cartridge: that of its program ROM,
/// combined over its graphics ROM where it has one.
pub open spec fn cart_checksum(cart: Cart) -> u32 {
    if cart.chr_rom@.len() > 0 {
        combine(checksum(cart.prg_rom@), cart.chr_rom@)
    } else {
        checksum(cart.prg_rom@)
    }
}

/// The region that a file name tells of: PAL where it holds `Europe` or
/// `PAL`, in exactly this case; NTSC otherwise, and where the name is not text.
pub open spec fn region_of(filename: Option<Seq<char>>) -> NesRegion {
    match filename {
        Some(name) => if contains(name, "Europe"@) || contains(name, "PAL"@) {
            NesRegion::Pal
        } else {
            NesRegion::Ntsc
        },
        None => NesRegion::Ntsc,
    }
}

/// The title that a file name gives: the name without `.nes` at its end.
pub open spec fn title_of(filename: Seq<char>) -> Seq<char> {
    trim_end(filename, ".nes"@)
}

/// Whether `game` is the record of `cart` as found in a file of the given
/// name; `filename` is the name where it is text, `shown` the name as it can
/// be displayed.
pub open spec fn is_record_of(
    game: Game,
    cart: Cart,
    filename: Option<Seq<char>>,
    shown: Seq<char>,
) -> bool {
    &&& game.crc32 == cart_checksum(cart)
    &&& game.region == region_of(filename)
    &&& game.mapper == cart.mapper_num
    &&& game.submapper == cart.submapper_num
    &&& game.chr_banks == cart.chr_rom@.len() / 0x2000
    &&& game.prg_rom_banks == cart.prg_rom@.len() / 0x4000
    &&& game.prg_ram_banks == cart.prg_ram@.len() / 0x4000
    &&& game.battery == cart.battery_backed
    &&& game.mirroring == cart.mirroring
    &&& game.title@ == title_of(shown)
}

/// A cartridge is identified by the checksum of its two ROM segments laid end
/// to end, whether or not it has graphics ROM.
pub proof fn lemma_cart_checksum_spans_both(cart: Cart)
    ensures
        cart_checksum(cart) == checksum(cart.prg_rom@ + cart.chr_rom@),
{
    if cart.chr_rom@.len() > 0 {
        lemma_combine_concat(0, cart.prg_rom@, cart.chr_rom@);
    } else {
        assert(cart.prg_rom@ + cart.chr_rom@ =~= cart.prg_rom@);
    }
}

/// The region that a file name tells of.
pub fn region_from_filename(filename: Option<&str>) -> (region: NesRegion)
    ensures
        region == region_of(
            match filename {
                Some(name) => Some(name@),
                None => None,
            },
        ),
{
    match filename {
        Some(name) => {
            let chars = chars_of(name);
            let europe = chars_of("Europe");
            let pal = chars_of("PAL");
            if contains_chars(chars.as_slice(), europe.as_slice()) || contains_chars(
                chars.as_slice(),
                pal.as_slice(),
            ) {
                NesRegion::Pal
            } else {
                NesRegion::Ntsc
            }
        },
        None => NesRegion::Ntsc,
    }
}

/// The title that a file name gives.
pub fn title_from_filename(filename: &str) -> (title: String)
    ensures
        title@ == title_of(filename@),
{
    let chars = chars_of(filename);
    let suffix = chars_of(".nes");
    let end = trimmed_len(chars.as_slice(), suffix.as_slice());
    let mut title = String::new();
    push_chars(&mut title, chars.as_slice(), end);
    title
}

impl Game {
    /// The record of `cart`, found in a file called `filename`.
    ///
    /// `filename` is the name where it could be read as text, `shown` is the
    /// name as it can be displayed whether or not it could.
    pub fn new(cart: &Cart, filename: Option<&str>, shown: &str) -> (game: Game)
        ensures
            is_record_of(
                game,
                *cart,
                match filename {
                    Some(name) => Some(name@),
                    None => None,
                },
                shown@,
            ),
    {
        let mut crc32 = compute_crc32(cart.prg_rom.as_slice());
        if cart.has_chr_rom() {
            crc32 = compute_combine_crc32(crc32, cart.chr_rom.as_slice());
        }
        let region = region_from_filename(filename);
        let chr_banks = cart.chr_rom.len() / CHR_BANK_SIZE;
        let prg_rom_banks = cart.prg_rom.len() / PRG_BANK_SIZE;
        let prg_ram_banks = cart.prg_ram.len() / PRG_BANK_SIZE;
        Game {
            crc32,
            region,
            mapper: cart.mapper_num,
            submapper: cart.submapper_num,
            chr_banks,
            prg_rom_banks,
            prg_ram_banks,
            battery: cart.battery_backed,
            mirroring: cart.mirroring,
            title: title_from_filename(shown),
        }
    }

    /// The part of this record that the database keeps.
    pub fn info(&self) -> (info: GameInfo)
        ensures
            info == info_of(*self),
    {
        GameInfo {
            crc32: self.crc32,
            region: self.region,
            mapper_num: self.mapper,
            submapper_num: self.submapper,
            title: self.title.clone(),
        }
    }
}

/// The part of a game record that the database keeps.
pub open spec fn info_of(game: Game) -> GameInfo {
    GameInfo {
        crc32: game.crc32,
        region: game.region,
        mapper_num: game.mapper,
        submapper_num: game.submapper,
        title: game.title,
    }
}

} // verus!
