//! Decoding of the NES ROM container format: the 16-byte header with its
//! packed flag fields, the optional trainer, and the PRG, CHR and
//! miscellaneous ROM segments.

use vstd::prelude::*;

verus! {

/// Why a byte buffer failed to decode as a ROM container.
#[derive(Debug, Clone, Copy, PartialEq, Eq, Structural)]
pub enum NesFileError {
    /// The buffer ends before the header or a declared segment does.
    Truncated,
    /// The four magic bytes are wrong.
    InvalidMagic,
    /// The timing mode code is unknown.
    InvalidTimingMode(u8),
    /// The console base type code is unknown.
    InvalidConsoleBase(u8),
    /// The extended console type code is unknown.
    InvalidConsoleExtended(u8),
    /// A ROM segment declares a size beyond what can be addressed.
    RomSizeTooLarge,
}

#[derive(Debug, Clone, Copy, PartialEq, Eq, Structural)]
pub enum NametableLayout {
    Vertical,
    Horizontal,
    AlternateVertical,
    AlternateHorizontal,
}

/// The nametable layout encoded by the arrangement and alternative flags.
pub open spec fn spec_nametable_layout(arrangement: bool, alternative: bool) -> NametableLayout {
    if !arrangement && !alternative {
        NametableLayout::Vertical
    } else if arrangement && !alternative {
        NametableLayout::Horizontal
    } else if !arrangement && alternative {
        NametableLayout::AlternateVertical
    } else {
        NametableLayout::AlternateHorizontal
    }
}

impl NametableLayout {
    pub fn from_flags(arrangement: bool, alternative: bool) -> (r: Self)
        ensures
            r == spec_nametable_layout(arrangement, alternative),
    {
        match (arrangement, alternative) {
            (false, false) => NametableLayout::Vertical,
            (true, false) => NametableLayout::Horizontal,
            (false, true) => NametableLayout::AlternateVertical,
            (true, true) => NametableLayout::AlternateHorizontal,
        }
    }
}

#[derive(Debug, Clone, Copy, PartialEq, Eq, Structural)]
pub struct MapperId {
    pub id: u16,
    pub sub_id: u8,
}

#[derive(Debug, Clone, Copy, PartialEq, Eq, Structural)]
pub enum TimingMode {
    NTSC,
    PAL,
    MultiRegion,
    Dendy,
}

/// The timing mode a code decodes to, if any.
pub open spec fn spec_timing_mode(value: u8) -> Option<TimingMode> {
    if value == 0 {
        Some(TimingMode::NTSC)
    } else if value == 1 {
        Some(TimingMode::PAL)
    } else if value == 2 {
        Some(TimingMode::MultiRegion)
    } else if value == 3 {
        Some(TimingMode::Dendy)
    } else {
        None
    }
}

impl TimingMode {
    pub fn from_u8(value: u8) -> (r: Result<Self, NesFileError>)
        ensures
            match spec_timing_mode(value) {
                Some(t) => r == Ok::<TimingMode, NesFileError>(t),
                None => r == Err::<TimingMode, NesFileError>(NesFileError::InvalidTimingMode(value)),
            },
    {
        match value {
            0 => Ok(TimingMode::NTSC),
            1 => Ok(TimingMode::PAL),
            2 => Ok(TimingMode::MultiRegion),
            3 => Ok(TimingMode::Dendy),
            _ => Err(NesFileError::InvalidTimingMode(value)),
        }
    }
}

#[derive(Debug, Clone, Copy, PartialEq, Eq, Structural)]
pub enum ConsoleType {
    NES,
    VsSystem { ppu: u8, hardware: u8 },
    Playchoice,
    FamicloneDecimal,
    FamicomEPSM,
    VT01,
    VT02,
    VT03,
    VT09,
    VT32,
    VT369,
    UM6578,
    FamicomNetworkSystem,
}

/// The console type a base code and extended code decode to, if any.
pub open spec fn spec_console_type(base_type: u8, extended_type: u8) -> Option<ConsoleType> {
    if base_type == 0 {
        Some(ConsoleType::NES)
    } else if base_type == 1 {
        Some(ConsoleType::VsSystem { ppu: extended_type & 0x0F, hardware: extended_type >> 4 })
    } else if base_type == 2 {
        Some(ConsoleType::Playchoice)
    } else if base_type == 3 {
        let code = extended_type & 0x0F;
        if code == 0x3 {
            Some(ConsoleType::FamicloneDecimal)
        } else if code == 0x4 {
            Some(ConsoleType::FamicomEPSM)
        } else if code == 0x5 {
            Some(ConsoleType::VT01)
        } else if code == 0x6 {
            Some(ConsoleType::VT02)
        } else if code == 0x7 {
            Some(ConsoleType::VT03)
        } else if code == 0x8 {
            Some(ConsoleType::VT09)
        } else if code == 0x9 {
            Some(ConsoleType::VT32)
        } else if code == 0xA {
            Some(ConsoleType::VT369)
        } else if code == 0xB {
            Some(ConsoleType::UM6578)
        } else if code == 0xC {
            Some(ConsoleType::FamicomNetworkSystem)
        } else {
            None
        }
    } else {
        None
    }
}

impl ConsoleType {
    pub fn from_flags(base_type: u8, extended_type: u8) -> (r: Result<Self, NesFileError>)
        ensures
            match spec_console_type(base_type, extended_type) {
                Some(c) => r == Ok::<ConsoleType, NesFileError>(c),
                None => r == if base_type > 3 {
                    Err::<ConsoleType, NesFileError>(NesFileError::InvalidConsoleBase(base_type))
                } else {
                    Err::<ConsoleType, NesFileError>(
                        NesFileError::InvalidConsoleExtended(extended_type),
                    )
                },
            },
    {
        match base_type {
            0 => Ok(ConsoleType::NES),
            1 => Ok(
                ConsoleType::VsSystem { ppu: extended_type & 0x0F, hardware: extended_type >> 4 },
            ),
            2 => Ok(ConsoleType::Playchoice),
            3 => match extended_type & 0x0F {
                0x3 => Ok(ConsoleType::FamicloneDecimal),
                0x4 => Ok(ConsoleType::FamicomEPSM),
                0x5 => Ok(ConsoleType::VT01),
                0x6 => Ok(ConsoleType::VT02),
                0x7 => Ok(ConsoleType::VT03),
                0x8 => Ok(ConsoleType::VT09),
                0x9 => Ok(ConsoleType::VT32),
                0xA => Ok(ConsoleType::VT369),
                0xB => Ok(ConsoleType::UM6578),
                0xC => Ok(ConsoleType::FamicomNetworkSystem),
                _ => Err(NesFileError::InvalidConsoleExtended(extended_type)),
            },
            _ => Err(NesFileError::InvalidConsoleBase(base_type)),
        }
    }
}

/// A ROM segment size: in the exponent form (size MSB nibble all ones) it
/// is `(multiplier * 2 + 1) << exponent`; otherwise the 12-bit unit count
/// times the segment's unit size.
pub open spec fn spec_rom_size(size_lsb: u8, size_msb: u8, scale: int) -> int {
    if size_msb == 0xF {
        (2 * ((size_lsb & 0x3) as int) + 1) * ((1u64 << ((size_lsb >> 2) as u64)) as int)
    } else {
        ((size_msb as int) * 256 + (size_lsb as int)) * scale
    }
}

/// A RAM size nibble: zero means none, otherwise `64 << nibble` bytes.
pub open spec fn spec_ram_size(shift: u8) -> int {
    if shift == 0 {
        0
    } else {
        (64u64 << (shift as u64)) as int
    }
}

/// Decode a ROM segment size declared by the header.
pub fn decode_rom_size(size_lsb: u8, size_msb: u8, scale: u64) -> (r: u64)
    requires
        scale <= 65536,
        size_msb <= 0xF,
        size_msb == 0xF ==> (size_lsb >> 2) <= 60,
    ensures
        r as int == spec_rom_size(size_lsb, size_msb, scale as int),
        r <= 0x7000000000000000,
{
    if size_msb == 0xF {
        let multiplier = (size_lsb & 0x3) as u64;
        let exponent = (size_lsb >> 2) as u64;
        proof {
            assert(multiplier <= 3 && exponent <= 60) by (bit_vector)
                requires
                    multiplier == (size_lsb & 0x3) as u64,
                    exponent == (size_lsb >> 2) as u64,
                    (size_lsb >> 2) <= 60,
            ;
            assert(1u64 << exponent <= 0x1000000000000000) by (bit_vector)
                requires
                    exponent <= 60,
            ;
            assert((2 * multiplier + 1) * (1u64 << exponent) <= 7 * 0x1000000000000000) by (
            nonlinear_arith)
                requires
                    multiplier <= 3,
                    1u64 << exponent <= 0x1000000000000000,
            ;
        }
        (multiplier * 2 + 1) * (1u64 << exponent)
    } else {
        proof {
            assert(((size_msb as u64) * 256 + (size_lsb as u64)) * scale <= 0x10000000) by (
            nonlinear_arith)
                requires
                    size_msb <= 0xF,
                    size_lsb <= 255,
                    scale <= 65536,
            ;
        }
        ((size_msb as u64) * 256 + (size_lsb as u64)) * scale
    }
}

/// Decode a RAM size nibble declared by the header.
pub fn decode_ram_size(shift: u8) -> (r: u64)
    requires
        shift <= 15,
    ensures
        r as int == spec_ram_size(shift),
        r <= 0x200000,
{
    if shift == 0 {
        0
    } else {
        proof {
            assert(64u64 << (shift as u64) <= 0x200000) by (bit_vector)
                requires
                    shift <= 15,
            ;
        }
        64u64 << (shift as u64)
    }
}

/// Copy `len` bytes of `data` starting at `start`.
fn take_bytes(data: &[u8], start: usize, len: usize) -> (r: Vec<u8>)
    requires
        start + len <= data@.len(),
    ensures
        r@ == data@.subrange(start as int, start as int + len as int),
{
    let mut r: Vec<u8> = Vec::new();
    let n = data.len();
    let mut i: usize = 0;
    while i < len
        invariant
            i <= len,
            n == data@.len(),
            start + len <= n,
            r@ == data@.subrange(start as int, start as int + i as int),
        decreases len - i,
    {
        r.push(data[start + i]);
        i += 1;
        proof {
            assert(r@ =~= data@.subrange(start as int, start as int + i as int));
        }
    }
    r
}

/// Whether the buffer begins with the container's magic bytes.
pub open spec fn spec_magic_ok(data: Seq<u8>) -> bool {
    data.len() >= 16 && data[0] == 0x4E && data[1] == 0x45 && data[2] == 0x53 && data[3] == 0x1A
}

/// The declared PRG ROM size of a buffer with a valid header.
pub open spec fn spec_prg_rom_size(data: Seq<u8>) -> int {
    spec_rom_size(data[4], data[9] & 0x0F, 16384)
}

/// The declared CHR ROM size of a buffer with a valid header.
pub open spec fn spec_chr_rom_size(data: Seq<u8>) -> int {
    spec_rom_size(data[5], data[9] >> 4, 8192)
}

/// Whether the header declares a 512-byte trainer.
pub open spec fn spec_trainer_present(data: Seq<u8>) -> bool {
    data[6] & 0x04 != 0
}

/// The buffer length the header's declared segments need.
pub open spec fn spec_needed_len(data: Seq<u8>) -> int {
    16 + (if spec_trainer_present(data) {
        512int
    } else {
        0int
    }) + spec_prg_rom_size(data) + spec_chr_rom_size(data)
}

/// A declared size in exponent form too large to address.
pub open spec fn spec_size_overflows(data: Seq<u8>) -> bool {
    ((data[9] & 0x0F) == 0xF && (data[4] >> 2) > 60) || ((data[9] >> 4) == 0xF && (data[5] >> 2)
        > 60)
}

/// The first reason, if any, the buffer fails to decode: a short or
/// mis-tagged header, an unknown console type, an unaddressable segment
/// size, or segments running past the end of the buffer.
pub open spec fn spec_parse_error(data: Seq<u8>) -> Option<NesFileError> {
    if data.len() < 16 {
        Some(NesFileError::Truncated)
    } else if !spec_magic_ok(data) {
        Some(NesFileError::InvalidMagic)
    } else if spec_console_type(data[7] & 0x3, data[13]) is None {
        Some(NesFileError::InvalidConsoleExtended(data[13]))
    } else if spec_size_overflows(data) {
        Some(NesFileError::RomSizeTooLarge)
    } else if spec_needed_len(data) > data.len() {
        Some(NesFileError::Truncated)
    } else {
        None
    }
}

/// A decoded ROM container.
pub struct NesFile {
    pub nametable_layout: NametableLayout,
    pub nvram_present: bool,
    pub mapper: MapperId,
    pub timing: TimingMode,
    pub console_type: ConsoleType,
    pub misc_rom_count: u8,
    pub default_expansion_device: u8,
    pub prg_ram_size: usize,
    pub prg_nvram_size: usize,
    pub chr_ram_size: usize,
    pub chr_nvram_size: usize,
    pub trainer: Option<Vec<u8>>,
    pub prg_rom: Vec<u8>,
    pub chr_rom: Vec<u8>,
    pub misc_rom: Vec<u8>,
}

impl NesFile {
    /// Decode a ROM container from its bytes. Every header field comes out
    /// exactly as the format packs it, and the trainer, PRG, CHR and
    /// miscellaneous segments are the declared slices of the buffer.
    pub fn from_bytes(data: &[u8]) -> (r: Result<NesFile, NesFileError>)
        ensures
            match spec_parse_error(data@) {
                Some(e) => r == Err::<NesFile, NesFileError>(e),
                None => match r {
                    Ok(f) => {
                        let prg_size = spec_prg_rom_size(data@);
                        let chr_size = spec_chr_rom_size(data@);
                        let trainer_len: int = if spec_trainer_present(data@) {
                            512
                        } else {
                            0
                        };
                        let prg_off = 16 + trainer_len;
                        let chr_off = prg_off + prg_size;
                        let misc_off = chr_off + chr_size;
                        &&& f.nametable_layout == spec_nametable_layout(
                            data@[6] & 0x01 != 0,
                            data@[6] & 0x08 != 0,
                        )
                        &&& f.nvram_present == (data@[6] & 0x02 != 0)
                        &&& f.mapper == (MapperId {
                            id: (((data@[8] & 0x0F) as u16) << 8) | (((data@[7] >> 4) as u16) << 4)
                                | ((data@[6] >> 4) as u16),
                            sub_id: data@[8] >> 4,
                        })
                        &&& Some(f.timing) == spec_timing_mode(data@[12] & 0x03)
                        &&& Some(f.console_type) == spec_console_type(data@[7] & 0x3, data@[13])
                        &&& f.misc_rom_count == data@[14] & 0x3
                        &&& f.default_expansion_device == data@[15] & 0x3F
                        &&& f.prg_ram_size as int == spec_ram_size(data@[10] & 0x0F)
                        &&& f.prg_nvram_size as int == spec_ram_size(data@[10] >> 4)
                        &&& f.chr_ram_size as int == spec_ram_size(data@[11] & 0x0F)
                        &&& f.chr_nvram_size as int == spec_ram_size(data@[11] >> 4)
                        &&& match f.trainer {
                            Some(t) => spec_trainer_present(data@) && t@ == data@.subrange(16, 528),
                            None => !spec_trainer_present(data@),
                        }
                        &&& f.prg_rom@ == data@.subrange(prg_off, chr_off)
                        &&& f.chr_rom@ == data@.subrange(chr_off, misc_off)
                        &&& f.misc_rom@ == data@.subrange(misc_off, data@.len() as int)
                    },
                    Err(e) => false,
                },
            },
    {
        if data.len() < 16 {
            return Err(NesFileError::Truncated);
        }
        if !(data[0] == 0x4E && data[1] == 0x45 && data[2] == 0x53 && data[3] == 0x1A) {
            return Err(NesFileError::InvalidMagic);
        }
        let prg_rom_size_lsb = data[4];
        let chr_rom_size_lsb = data[5];
        let flags6 = data[6];
        let nametable_layout = NametableLayout::from_flags(
            (flags6 & 0x01) != 0,
            (flags6 & 0x08) != 0,
        );
        let nvram_present = flags6 & 0x02 != 0;
        let trainer_present = flags6 & 0x04 != 0;
        let mapper_0to3 = flags6 >> 4;
        let flags7 = data[7];
        proof {
            assert(flags7 & 0x3 <= 3) by (bit_vector);
        }
        let console_base_type = flags7 & 0x3;
        let mapper_7to4 = flags7 >> 4;
        let mapper_11to8 = data[8] & 0x0F;
        let submapper_id = data[8] >> 4;
        let b9 = data[9];
        let b10 = data[10];
        let b11 = data[11];
        proof {
            assert(b9 & 0x0F <= 0xF && b9 >> 4 <= 0xF && b10 & 0x0F <= 15 && b10 >> 4 <= 15 && b11
                & 0x0F <= 15 && b11 >> 4 <= 15) by (bit_vector);
        }
        let prg_rom_size_msb = b9 & 0x0F;
        let chr_rom_size_msb = b9 >> 4;
        let prg_ram_size = decode_ram_size(b10 & 0x0F);
        let prg_nvram_size = decode_ram_size(b10 >> 4);
        let chr_ram_size = decode_ram_size(b11 & 0x0F);
        let chr_nvram_size = decode_ram_size(b11 >> 4);
        let b12 = data[12];
        proof {
            assert(b12 & 0x03 <= 3) by (bit_vector);
        }
        let timing = match TimingMode::from_u8(b12 & 0x03) {
            Ok(t) => t,
            Err(e) => {
                return Err(e);
            },
        };
        let console_extended_type = data[13];
        let misc_rom_count = data[14] & 0x3;
        let default_expansion_device = data[15] & 0x3F;
        let console_type = match ConsoleType::from_flags(console_base_type, console_extended_type) {
            Ok(c) => c,
            Err(e) => {
                return Err(e);
            },
        };
        if prg_rom_size_msb == 0xF && (prg_rom_size_lsb >> 2) > 60 {
            return Err(NesFileError::RomSizeTooLarge);
        }
        if chr_rom_size_msb == 0xF && (chr_rom_size_lsb >> 2) > 60 {
            return Err(NesFileError::RomSizeTooLarge);
        }
        let prg_rom_size = decode_rom_size(prg_rom_size_lsb, prg_rom_size_msb, 16384);
        let chr_rom_size = decode_rom_size(chr_rom_size_lsb, chr_rom_size_msb, 8192);
        let trainer_len: u64 = if trainer_present {
            512
        } else {
            0
        };
        let needed: u64 = 16 + trainer_len + prg_rom_size + chr_rom_size;
        if needed > data.len() as u64 {
            return Err(NesFileError::Truncated);
        }
        proof {
            assert(16 + trainer_len as int + prg_rom_size as int + chr_rom_size as int
                <= data@.len());
        }
        let trainer = if trainer_present {
            Some(take_bytes(data, 16, 512))
        } else {
            None
        };
        let prg_off: usize = 16 + trainer_len as usize;
        let prg_rom = take_bytes(data, prg_off, prg_rom_size as usize);
        let chr_off: usize = prg_off + prg_rom_size as usize;
        let chr_rom = take_bytes(data, chr_off, chr_rom_size as usize);
        let misc_off: usize = chr_off + chr_rom_size as usize;
        let misc_rom = take_bytes(data, misc_off, data.len() - misc_off);
        Ok(
            NesFile {
                nametable_layout,
                nvram_present,
                mapper: MapperId {
                    id: (((mapper_11to8 as u16) << 8) | ((mapper_7to4 as u16) << 4)) | (
                    mapper_0to3 as u16),
                    sub_id: submapper_id,
                },
                timing,
                console_type,
                misc_rom_count,
                default_expansion_device,
                prg_ram_size: prg_ram_size as usize,
                prg_nvram_size: prg_nvram_size as usize,
                chr_ram_size: chr_ram_size as usize,
                chr_nvram_size: chr_nvram_size as usize,
                trainer,
                prg_rom,
                chr_rom,
                misc_rom,
            },
        )
    }
}

} // verus!
