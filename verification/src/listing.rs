//! The listing that goes with the database: a header line, then one line for
//! each game, with its fields in a fixed order and `, ` between them.
use vstd::prelude::*;
use vstd::string::StringExecFns;
use crate::game::Game;
use crate::game::Mirroring;
use crate::game::NesRegion;
use crate::text::debug_quoted;
use crate::text::decimal;
use crate::text::hex8;
use crate::text::push_decimal;
use crate::text::push_hex8;
use crate::text::quote;

verus! {

/// The first line of the listing.
pub open spec fn header_text() -> Seq<char> {
    "# CRC, Region, Mapper, PrgRomSize, ChrRomSize, ChrRamSize, PrgRamSize, Battery, Mirroring, SubMapper, Title"@
}

/// How a region is written.
pub open spec fn region_text(region: NesRegion) -> Seq<char> {
    match region {
        NesRegion::Ntsc => "NTSC"@,
        NesRegion::Pal => "PAL"@,
    }
}

/// How a mirroring mode is written.
pub open spec fn mirroring_text(mirroring: Mirroring) -> Seq<char> {
    match mirroring {
        Mirroring::Vertical => "Vertical"@,
        Mirroring::Horizontal => "Horizontal"@,
        Mirroring::SingleScreenA => "SingleScreenA"@,
        Mirroring::SingleScreenB => "SingleScreenB"@,
        Mirroring::FourScreen => "FourScreen"@,
    }
}

/// How a flag is written.
pub open spec fn flag_text(flag: bool) -> Seq<char> {
    if flag {
        "true"@
    } else {
        "false"@
    }
}

/// The line for `game`, given its title as it is to be shown: two blanks,
/// the checksum as eight upper-case hexadecimal digits, then region, mapper,
/// submapper, the three bank counts, the battery flag, the mirroring mode
/// and the title.
pub open spec fn line_text(game: Game, title: Seq<char>) -> Seq<char> {
    "  "@ + hex8(game.crc32) + ", "@ + region_text(game.region) + ", "@ + decimal(
        game.mapper as nat,
    ) + ", "@ + decimal(game.submapper as nat) + ", "@ + decimal(game.chr_banks as nat) + ", "@
        + decimal(game.prg_rom_banks as nat) + ", "@ + decimal(game.prg_ram_banks as nat) + ", "@
        + flag_text(game.battery) + ", "@ + mirroring_text(game.mirroring) + ", "@ + title
}

/// How a region is written.
pub fn region_name(region: NesRegion) -> (name: &'static str)
    ensures
        name@ == region_text(region),
{
    match region {
        NesRegion::Ntsc => "NTSC",
        NesRegion::Pal => "PAL",
    }
}

/// How a mirroring mode is written.
pub fn mirroring_name(mirroring: Mirroring) -> (name: &'static str)
    ensures
        name@ == mirroring_text(mirroring),
{
    match mirroring {
        Mirroring::Vertical => "Vertical",
        Mirroring::Horizontal => "Horizontal",
        Mirroring::SingleScreenA => "SingleScreenA",
        Mirroring::SingleScreenB => "SingleScreenB",
        Mirroring::FourScreen => "FourScreen",
    }
}

/// How a flag is written.
pub fn flag_name(flag: bool) -> (name: &'static str)
    ensures
        name@ == flag_text(flag),
{
    if flag {
        "true"
    } else {
        "false"
    }
}

/// The first line of the listing.
pub fn log_header() -> (header: &'static str)
    ensures
        header@ == header_text(),
{
    "# CRC, Region, Mapper, PrgRomSize, ChrRomSize, ChrRamSize, PrgRamSize, Battery, Mirroring, SubMapper, Title"
}

/// The line for `game`, with `title` standing for its title.
pub fn log_line_with(game: &Game, title: &str) -> (line: String)
    ensures
        line@ == line_text(*game, title@),
{
    let mut line = String::from_str("  ");
    push_hex8(&mut line, game.crc32);
    line.append(", ");
    line.append(region_name(game.region));
    line.append(", ");
    push_decimal(&mut line, game.mapper as u64);
    line.append(", ");
    push_decimal(&mut line, game.submapper as u64);
    line.append(", ");
    push_decimal(&mut line, game.chr_banks as u64);
    line.append(", ");
    push_decimal(&mut line, game.prg_rom_banks as u64);
    line.append(", ");
    push_decimal(&mut line, game.prg_ram_banks as u64);
    line.append(", ");
    line.append(flag_name(game.battery));
    line.append(", ");
    line.append(mirroring_name(game.mirroring));
    line.append(", ");
    line.append(title);
    line
}

/// The line for `game`, its title between double quotes.
pub fn log_line(game: &Game) -> (line: String)
    ensures
        line@ == line_text(*game, debug_quoted(game.title@)),
{
    let title = quote(game.title.as_str());
    log_line_with(game, title.as_str())
}

/// All lines for `games`, in order, without the header.
pub fn log_lines(games: &Vec<Game>) -> (lines: Vec<String>)
    ensures
        lines@.len() == games@.len(),
        forall|i: int|
            0 <= i < games@.len() ==> (#[trigger] lines@[i])@ == line_text(
                games@[i],
                debug_quoted(games@[i].title@),
            ),
{
    let len = games.len();
    let mut lines: Vec<String> = Vec::with_capacity(len);
    let mut i: usize = 0;
    while i < len
        invariant
            i <= len,
            len == games@.len(),
            lines@.len() == i,
            forall|k: int|
                0 <= k < i ==> (#[trigger] lines@[k])@ == line_text(
                    games@[k],
                    debug_quoted(games@[k].title@),
                ),
        decreases len - i,
    {
        lines.push(log_line(&games[i]));
        i += 1;
    }
    lines
}

} // verus!
