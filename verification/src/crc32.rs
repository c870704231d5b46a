//! Table-driven CRC-32 (reflected, ISO 3309 / zlib polynomial), specified bit by bit.
//!
//! The checksum is defined over a 32-bit shift register: each input byte is
//! folded into the low eight bits and the register is then shifted right eight
//! times, subtracting the generator polynomial whenever a one falls out.  The
//! executable code does the same work with one table lookup per byte; the
//! lookup table is proved equal, entry by entry, to the shift register.
use vstd::prelude::*;

verus! {

/// The generator polynomial, bit-reversed.
pub const POLYNOMIAL: u32 = 0xEDB8_8320;

/// Mask applied to the running value on entry and on exit.
pub const MASK: u32 = 0xFFFF_FFFF;

/// Largest slice handed to the inner loop at once.
pub const BUFFER_SIZE: usize = 0x2000;

/// `CRC_TABLE[i]` is the register `i` after eight shifts.
pub const CRC_TABLE: [u32; 256] = [
    0x00000000, 0x77073096, 0xEE0E612C, 0x990951BA, 0x076DC419, 0x706AF48F, 0xE963A535, 0x9E6495A3,
    0x0EDB8832, 0x79DCB8A4, 0xE0D5E91E, 0x97D2D988, 0x09B64C2B, 0x7EB17CBD, 0xE7B82D07, 0x90BF1D91,
    0x1DB71064, 0x6AB020F2, 0xF3B97148, 0x84BE41DE, 0x1ADAD47D, 0x6DDDE4EB, 0xF4D4B551, 0x83D385C7,
    0x136C9856, 0x646BA8C0, 0xFD62F97A, 0x8A65C9EC, 0x14015C4F, 0x63066CD9, 0xFA0F3D63, 0x8D080DF5,
    0x3B6E20C8, 0x4C69105E, 0xD56041E4, 0xA2677172, 0x3C03E4D1, 0x4B04D447, 0xD20D85FD, 0xA50AB56B,
    0x35B5A8FA, 0x42B2986C, 0xDBBBC9D6, 0xACBCF940, 0x32D86CE3, 0x45DF5C75, 0xDCD60DCF, 0xABD13D59,
    0x26D930AC, 0x51DE003A, 0xC8D75180, 0xBFD06116, 0x21B4F4B5, 0x56B3C423, 0xCFBA9599, 0xB8BDA50F,
    0x2802B89E, 0x5F058808, 0xC60CD9B2, 0xB10BE924, 0x2F6F7C87, 0x58684C11, 0xC1611DAB, 0xB6662D3D,
    0x76DC4190, 0x01DB7106, 0x98D220BC, 0xEFD5102A, 0x71B18589, 0x06B6B51F, 0x9FBFE4A5, 0xE8B8D433,
    0x7807C9A2, 0x0F00F934, 0x9609A88E, 0xE10E9818, 0x7F6A0DBB, 0x086D3D2D, 0x91646C97, 0xE6635C01,
    0x6B6B51F4, 0x1C6C6162, 0x856530D8, 0xF262004E, 0x6C0695ED, 0x1B01A57B, 0x8208F4C1, 0xF50FC457,
    0x65B0D9C6, 0x12B7E950, 0x8BBEB8EA, 0xFCB9887C, 0x62DD1DDF, 0x15DA2D49, 0x8CD37CF3, 0xFBD44C65,
    0x4DB26158, 0x3AB551CE, 0xA3BC0074, 0xD4BB30E2, 0x4ADFA541, 0x3DD895D7, 0xA4D1C46D, 0xD3D6F4FB,
    0x4369E96A, 0x346ED9FC, 0xAD678846, 0xDA60B8D0, 0x44042D73, 0x33031DE5, 0xAA0A4C5F, 0xDD0D7CC9,
    0x5005713C, 0x270241AA, 0xBE0B1010, 0xC90C2086, 0x5768B525, 0x206F85B3, 0xB966D409, 0xCE61E49F,
    0x5EDEF90E, 0x29D9C998, 0xB0D09822, 0xC7D7A8B4, 0x59B33D17, 0x2EB40D81, 0xB7BD5C3B, 0xC0BA6CAD,
    0xEDB88320, 0x9ABFB3B6, 0x03B6E20C, 0x74B1D29A, 0xEAD54739, 0x9DD277AF, 0x04DB2615, 0x73DC1683,
    0xE3630B12, 0x94643B84, 0x0D6D6A3E, 0x7A6A5AA8, 0xE40ECF0B, 0x9309FF9D, 0x0A00AE27, 0x7D079EB1,
    0xF00F9344, 0x8708A3D2, 0x1E01F268, 0x6906C2FE, 0xF762575D, 0x806567CB, 0x196C3671, 0x6E6B06E7,
    0xFED41B76, 0x89D32BE0, 0x10DA7A5A, 0x67DD4ACC, 0xF9B9DF6F, 0x8EBEEFF9, 0x17B7BE43, 0x60B08ED5,
    0xD6D6A3E8, 0xA1D1937E, 0x38D8C2C4, 0x4FDFF252, 0xD1BB67F1, 0xA6BC5767, 0x3FB506DD, 0x48B2364B,
    0xD80D2BDA, 0xAF0A1B4C, 0x36034AF6, 0x41047A60, 0xDF60EFC3, 0xA867DF55, 0x316E8EEF, 0x4669BE79,
    0xCB61B38C, 0xBC66831A, 0x256FD2A0, 0x5268E236, 0xCC0C7795, 0xBB0B4703, 0x220216B9, 0x5505262F,
    0xC5BA3BBE, 0xB2BD0B28, 0x2BB45A92, 0x5CB36A04, 0xC2D7FFA7, 0xB5D0CF31, 0x2CD99E8B, 0x5BDEAE1D,
    0x9B64C2B0, 0xEC63F226, 0x756AA39C, 0x026D930A, 0x9C0906A9, 0xEB0E363F, 0x72076785, 0x05005713,
    0x95BF4A82, 0xE2B87A14, 0x7BB12BAE, 0x0CB61B38, 0x92D28E9B, 0xE5D5BE0D, 0x7CDCEFB7, 0x0BDBDF21,
    0x86D3D2D4, 0xF1D4E242, 0x68DDB3F8, 0x1FDA836E, 0x81BE16CD, 0xF6B9265B, 0x6FB077E1, 0x18B74777,
    0x88085AE6, 0xFF0F6A70, 0x66063BCA, 0x11010B5C, 0x8F659EFF, 0xF862AE69, 0x616BFFD3, 0x166CCF45,
    0xA00AE278, 0xD70DD2EE, 0x4E048354, 0x3903B3C2, 0xA7672661, 0xD06016F7, 0x4969474D, 0x3E6E77DB,
    0xAED16A4A, 0xD9D65ADC, 0x40DF0B66, 0x37D83BF0, 0xA9BCAE53, 0xDEBB9EC5, 0x47B2CF7F, 0x30B5FFE9,
    0xBDBDF21C, 0xCABAC28A, 0x53B39330, 0x24B4A3A6, 0xBAD03605, 0xCDD70693, 0x54DE5729, 0x23D967BF,
    0xB3667A2E, 0xC4614AB8, 0x5D681B02, 0x2A6F2B94, 0xB40BBE37, 0xC30C8EA1, 0x5A05DF1B, 0x2D02EF8D,
];

/// The register after one bit has been shifted out.
pub open spec fn shift_bit(reg: u32) -> u32 {
    if reg & 1 == 1 {
        (reg >> 1) ^ POLYNOMIAL
    } else {
        reg >> 1
    }
}

/// The register after eight bits have been shifted out.
pub open spec fn shift_byte(reg: u32) -> u32 {
    shift_bit(shift_bit(shift_bit(shift_bit(shift_bit(shift_bit(shift_bit(shift_bit(reg))))))))
}

/// The register after `byte` has been folded in.
pub open spec fn feed_byte(reg: u32, byte: u8) -> u32 {
    shift_byte(reg ^ (byte as u32))
}

/// The register after all of `data` has been folded in, first byte first.
pub open spec fn feed(reg: u32, data: Seq<u8>) -> u32
    decreases data.len(),
{
    if data.len() == 0 {
        reg
    } else {
        feed_byte(feed(reg, data.drop_last()), data.last())
    }
}

/// The checksum of a buffer that continues one whose checksum is `crc`.
pub open spec fn combine(crc: u32, data: Seq<u8>) -> u32 {
    feed(crc ^ MASK, data) ^ MASK
}

/// The checksum of `data`.
pub open spec fn checksum(data: Seq<u8>) -> u32 {
    combine(0, data)
}

/// Eight consecutive table entries, starting at `first`, agree with the shift register.
pub open spec fn table_row(
    first: u32,
    e0: u32,
    e1: u32,
    e2: u32,
    e3: u32,
    e4: u32,
    e5: u32,
    e6: u32,
    e7: u32,
) -> bool {
    &&& shift_byte(first) == e0
    &&& shift_byte((first + 1) as u32) == e1
    &&& shift_byte((first + 2) as u32) == e2
    &&& shift_byte((first + 3) as u32) == e3
    &&& shift_byte((first + 4) as u32) == e4
    &&& shift_byte((first + 5) as u32) == e5
    &&& shift_byte((first + 6) as u32) == e6
    &&& shift_byte((first + 7) as u32) == e7
}

/// The shift register gives, for each of the 256 one-byte registers, the value listed here.
pub open spec fn shift_byte_values() -> bool {
    &&& table_row(0x00, 0x00000000, 0x77073096, 0xEE0E612C, 0x990951BA, 0x076DC419, 0x706AF48F, 0xE963A535, 0x9E6495A3)
    &&& table_row(0x08, 0x0EDB8832, 0x79DCB8A4, 0xE0D5E91E, 0x97D2D988, 0x09B64C2B, 0x7EB17CBD, 0xE7B82D07, 0x90BF1D91)
    &&& table_row(0x10, 0x1DB71064, 0x6AB020F2, 0xF3B97148, 0x84BE41DE, 0x1ADAD47D, 0x6DDDE4EB, 0xF4D4B551, 0x83D385C7)
    &&& table_row(0x18, 0x136C9856, 0x646BA8C0, 0xFD62F97A, 0x8A65C9EC, 0x14015C4F, 0x63066CD9, 0xFA0F3D63, 0x8D080DF5)
    &&& table_row(0x20, 0x3B6E20C8, 0x4C69105E, 0xD56041E4, 0xA2677172, 0x3C03E4D1, 0x4B04D447, 0xD20D85FD, 0xA50AB56B)
    &&& table_row(0x28, 0x35B5A8FA, 0x42B2986C, 0xDBBBC9D6, 0xACBCF940, 0x32D86CE3, 0x45DF5C75, 0xDCD60DCF, 0xABD13D59)
    &&& table_row(0x30, 0x26D930AC, 0x51DE003A, 0xC8D75180, 0xBFD06116, 0x21B4F4B5, 0x56B3C423, 0xCFBA9599, 0xB8BDA50F)
    &&& table_row(0x38, 0x2802B89E, 0x5F058808, 0xC60CD9B2, 0xB10BE924, 0x2F6F7C87, 0x58684C11, 0xC1611DAB, 0xB6662D3D)
    &&& table_row(0x40, 0x76DC4190, 0x01DB7106, 0x98D220BC, 0xEFD5102A, 0x71B18589, 0x06B6B51F, 0x9FBFE4A5, 0xE8B8D433)
    &&& table_row(0x48, 0x7807C9A2, 0x0F00F934, 0x9609A88E, 0xE10E9818, 0x7F6A0DBB, 0x086D3D2D, 0x91646C97, 0xE6635C01)
    &&& table_row(0x50, 0x6B6B51F4, 0x1C6C6162, 0x856530D8, 0xF262004E, 0x6C0695ED, 0x1B01A57B, 0x8208F4C1, 0xF50FC457)
    &&& table_row(0x58, 0x65B0D9C6, 0x12B7E950, 0x8BBEB8EA, 0xFCB9887C, 0x62DD1DDF, 0x15DA2D49, 0x8CD37CF3, 0xFBD44C65)
    &&& table_row(0x60, 0x4DB26158, 0x3AB551CE, 0xA3BC0074, 0xD4BB30E2, 0x4ADFA541, 0x3DD895D7, 0xA4D1C46D, 0xD3D6F4FB)
    &&& table_row(0x68, 0x4369E96A, 0x346ED9FC, 0xAD678846, 0xDA60B8D0, 0x44042D73, 0x33031DE5, 0xAA0A4C5F, 0xDD0D7CC9)
    &&& table_row(0x70, 0x5005713C, 0x270241AA, 0xBE0B1010, 0xC90C2086, 0x5768B525, 0x206F85B3, 0xB966D409, 0xCE61E49F)
    &&& table_row(0x78, 0x5EDEF90E, 0x29D9C998, 0xB0D09822, 0xC7D7A8B4, 0x59B33D17, 0x2EB40D81, 0xB7BD5C3B, 0xC0BA6CAD)
    &&& table_row(0x80, 0xEDB88320, 0x9ABFB3B6, 0x03B6E20C, 0x74B1D29A, 0xEAD54739, 0x9DD277AF, 0x04DB2615, 0x73DC1683)
    &&& table_row(0x88, 0xE3630B12, 0x94643B84, 0x0D6D6A3E, 0x7A6A5AA8, 0xE40ECF0B, 0x9309FF9D, 0x0A00AE27, 0x7D079EB1)
    &&& table_row(0x90, 0xF00F9344, 0x8708A3D2, 0x1E01F268, 0x6906C2FE, 0xF762575D, 0x806567CB, 0x196C3671, 0x6E6B06E7)
    &&& table_row(0x98, 0xFED41B76, 0x89D32BE0, 0x10DA7A5A, 0x67DD4ACC, 0xF9B9DF6F, 0x8EBEEFF9, 0x17B7BE43, 0x60B08ED5)
    &&& table_row(0xA0, 0xD6D6A3E8, 0xA1D1937E, 0x38D8C2C4, 0x4FDFF252, 0xD1BB67F1, 0xA6BC5767, 0x3FB506DD, 0x48B2364B)
    &&& table_row(0xA8, 0xD80D2BDA, 0xAF0A1B4C, 0x36034AF6, 0x41047A60, 0xDF60EFC3, 0xA867DF55, 0x316E8EEF, 0x4669BE79)
    &&& table_row(0xB0, 0xCB61B38C, 0xBC66831A, 0x256FD2A0, 0x5268E236, 0xCC0C7795, 0xBB0B4703, 0x220216B9, 0x5505262F)
    &&& table_row(0xB8, 0xC5BA3BBE, 0xB2BD0B28, 0x2BB45A92, 0x5CB36A04, 0xC2D7FFA7, 0xB5D0CF31, 0x2CD99E8B, 0x5BDEAE1D)
    &&& table_row(0xC0, 0x9B64C2B0, 0xEC63F226, 0x756AA39C, 0x026D930A, 0x9C0906A9, 0xEB0E363F, 0x72076785, 0x05005713)
    &&& table_row(0xC8, 0x95BF4A82, 0xE2B87A14, 0x7BB12BAE, 0x0CB61B38, 0x92D28E9B, 0xE5D5BE0D, 0x7CDCEFB7, 0x0BDBDF21)
    &&& table_row(0xD0, 0x86D3D2D4, 0xF1D4E242, 0x68DDB3F8, 0x1FDA836E, 0x81BE16CD, 0xF6B9265B, 0x6FB077E1, 0x18B74777)
    &&& table_row(0xD8, 0x88085AE6, 0xFF0F6A70, 0x66063BCA, 0x11010B5C, 0x8F659EFF, 0xF862AE69, 0x616BFFD3, 0x166CCF45)
    &&& table_row(0xE0, 0xA00AE278, 0xD70DD2EE, 0x4E048354, 0x3903B3C2, 0xA7672661, 0xD06016F7, 0x4969474D, 0x3E6E77DB)
    &&& table_row(0xE8, 0xAED16A4A, 0xD9D65ADC, 0x40DF0B66, 0x37D83BF0, 0xA9BCAE53, 0xDEBB9EC5, 0x47B2CF7F, 0x30B5FFE9)
    &&& table_row(0xF0, 0xBDBDF21C, 0xCABAC28A, 0x53B39330, 0x24B4A3A6, 0xBAD03605, 0xCDD70693, 0x54DE5729, 0x23D967BF)
    &&& table_row(0xF8, 0xB3667A2E, 0xC4614AB8, 0x5D681B02, 0x2A6F2B94, 0xB40BBE37, 0xC30C8EA1, 0x5A05DF1B, 0x2D02EF8D)
}

/// The values listed are the shift register's.
proof fn lemma_shift_byte_values()
    ensures
        shift_byte_values(),
{
    assert(shift_byte_values()) by (bit_vector);
}

/// Every table entry is the register of the same index after eight shifts.
pub proof fn lemma_table_entry(i: int)
    requires
        0 <= i < 256,
    ensures
        CRC_TABLE[i] == shift_byte(i as u32),
{
    lemma_shift_byte_values();
    let row = i / 8;
    assert(i == row * 8 || i == row * 8 + 1 || i == row * 8 + 2 || i == row * 8 + 3
        || i == row * 8 + 4 || i == row * 8 + 5 || i == row * 8 + 6 || i == row * 8 + 7);
    assert(row == 0 || row == 1 || row == 2 || row == 3 || row == 4 || row == 5 || row == 6 || row == 7 || row == 8 || row == 9 || row == 10 || row == 11 || row == 12 || row == 13 || row == 14 || row == 15 || row == 16 || row == 17 || row == 18 || row == 19 || row == 20 || row == 21 || row == 22 || row == 23 || row == 24 || row == 25 || row == 26 || row == 27 || row == 28 || row == 29 || row == 30 || row == 31);
}

/// Shifting a whole register is shifting its low byte and carrying the rest down.
pub proof fn lemma_shift_byte_splits(reg: u32)
    ensures
        shift_byte(reg) == (reg >> 8) ^ shift_byte(reg & 0xFF),
        reg & 0xFF < 256,
{
    assert(shift_byte(reg) == (reg >> 8) ^ shift_byte(reg & 0xFF)) by (bit_vector);
    assert(reg & 0xFF < 256) by (bit_vector);
}

/// One table lookup folds one byte into the register.
pub proof fn lemma_table_step(reg: u32, byte: u8)
    ensures
        (reg ^ (byte as u32)) & 0xFF < 256,
        (reg >> 8) ^ CRC_TABLE[((reg ^ (byte as u32)) & 0xFF) as int] == feed_byte(reg, byte),
{
    let mixed = reg ^ (byte as u32);
    lemma_shift_byte_splits(mixed);
    lemma_table_entry((mixed & 0xFF) as int);
    assert((mixed >> 8) == (reg >> 8)) by (bit_vector)
        requires
            mixed == reg ^ (byte as u32),
    ;
}

/// Feeding a concatenation is feeding its parts one after the other.
pub proof fn lemma_feed_concat(reg: u32, a: Seq<u8>, b: Seq<u8>)
    ensures
        feed(reg, a + b) == feed(feed(reg, a), b),
    decreases b.len(),
{
    if b.len() > 0 {
        assert((a + b).drop_last() =~= a + b.drop_last());
        lemma_feed_concat(reg, a, b.drop_last());
    }
}

/// The mask applied on exit is undone by the mask applied on entry.
pub proof fn lemma_mask_cancels(reg: u32)
    ensures
        (reg ^ MASK) ^ MASK == reg,
{
    assert((reg ^ 0xFFFF_FFFFu32) ^ 0xFFFF_FFFFu32 == reg) by (bit_vector);
}

/// Combining over two buffers in turn is combining over their concatenation.
pub proof fn lemma_combine_concat(crc: u32, a: Seq<u8>, b: Seq<u8>)
    ensures
        combine(combine(crc, a), b) == combine(crc, a + b),
{
    lemma_mask_cancels(feed(crc ^ MASK, a));
    lemma_feed_concat(crc ^ MASK, a, b);
}

/// Combining over no bytes leaves the checksum as it was.
pub proof fn lemma_combine_empty(crc: u32)
    ensures
        combine(crc, Seq::<u8>::empty()) == crc,
{
    lemma_mask_cancels(crc);
}

/// For any split of a buffer into a head and a tail, the checksum of the
/// whole is the checksum of the head combined over the tail.
pub proof fn lemma_checksum_split(a: Seq<u8>, b: Seq<u8>)
    ensures
        combine(checksum(a), b) == checksum(a + b),
{
    lemma_combine_concat(0, a, b);
}

/// The checksum depends on nothing but the bytes: equal buffers have equal checksums.
pub proof fn lemma_checksum_deterministic(a: Seq<u8>, b: Seq<u8>)
    requires
        a =~= b,
    ensures
        checksum(a) == checksum(b),
        forall|crc: u32| combine(crc, a) == combine(crc, b),
{
}

/// The checksum of a buffer on its own.
pub fn compute_crc32(data: &[u8]) -> (crc: u32)
    ensures
        crc == checksum(data@),
{
    compute_combine_crc32(0, data)
}

/// The checksum of a buffer that continues one whose checksum is `crc32`.
///
/// The buffer is walked in slices of at most `BUFFER_SIZE` bytes; the result
/// does not depend on where the slices end.
pub fn compute_combine_crc32(crc32: u32, data: &[u8]) -> (crc: u32)
    ensures
        crc == combine(crc32, data@),
{
    let len = data.len();
    let mut crc = crc32;
    let mut start: usize = 0;
    proof {
        lemma_combine_empty(crc32);
    }
    while start < len
        invariant
            len == data@.len(),
            start <= len,
            crc == combine(crc32, data@.take(start as int)),
        decreases len - start,
    {
        let end = if len - start > BUFFER_SIZE {
            start + BUFFER_SIZE
        } else {
            len
        };
        let chunk = vstd::slice::slice_subrange(data, start, end);
        proof {
            lemma_combine_concat(crc32, data@.take(start as int), chunk@);
            assert(data@.take(start as int) + chunk@ =~= data@.take(end as int));
        }
        crc = compute_crc32_buffer(crc, chunk);
        start = end;
    }
    assert(data@.take(len as int) =~= data@);
    crc
}

/// The checksum of one slice that continues a buffer whose checksum is `crc32`.
pub fn compute_crc32_buffer(crc32: u32, buffer: &[u8]) -> (crc: u32)
    ensures
        crc == combine(crc32, buffer@),
{
    let len = buffer.len();
    let mut reg = crc32 ^ MASK;
    let mut i: usize = 0;
    while i < len
        invariant
            len == buffer@.len(),
            i <= len,
            reg == feed(crc32 ^ MASK, buffer@.take(i as int)),
        decreases len - i,
    {
        let byte = buffer[i];
        proof {
            lemma_table_step(reg, byte);
            assert(buffer@.take(i + 1).drop_last() =~= buffer@.take(i as int));
        }
        let index = ((reg ^ (byte as u32)) & 0xFF) as usize;
        reg = (reg >> 8) ^ CRC_TABLE[index];
        i += 1;
    }
    assert(buffer@.take(len as int) =~= buffer@);
    reg ^ MASK
}

} // verus!
