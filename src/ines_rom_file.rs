use vstd::prelude::*;
use crate::mappers::Cartridge;
use crate::mmc3::{self, Mmc3, MMC3MapperError, MAX_CHR_ROM, MAX_PRG_ROM, mmc3_built};
use crate::nrom::{self, Nrom, nrom_built};

verus! {

pub const PRG_PAGE: usize = 16384;
pub const CHR_PAGE: usize = 8192;
pub const FLAG6_MIRRORING: u8 = 1;

/// A cartridge image in the iNES format: the PRG pages, the CHR pages, and
/// what the header says of the board.
pub struct Rom {
    pub mapper_code: u8,
    pub prg_rom: Vec<u8>,
    pub chr_rom: Vec<u8>,
    pub flags_6: u8,
    pub mirroring: Mirroring,
}

#[derive(Clone, Copy, PartialEq, Eq, Structural, Debug)]
pub enum Mirroring {
    Horizontal,
    Vertical,
}

#[derive(Clone, Copy, PartialEq, Eq, Structural, Debug)]
pub enum OpenRomError {
    /// The image is shorter than its header says.
    Truncated,
    InvalidMagicConstant,
}

#[derive(Clone, Copy, PartialEq, Eq, Structural, Debug)]
pub enum GetCpuMapperError {
    UnimplementedMapper,
    MapperError,
}

pub open spec fn has_magic(b: Seq<u8>) -> bool {
    b[0] == 0x4e && b[1] == 0x45 && b[2] == 0x53 && b[3] == 0x1a
}

/// The length of an image with the page counts of its header.
pub open spec fn image_len(b: Seq<u8>) -> int {
    16 + b[4] * PRG_PAGE + b[5] * CHR_PAGE
}

pub open spec fn mirroring_of(flags6: u8) -> Mirroring {
    if flags6 & FLAG6_MIRRORING != 0 { Mirroring::Vertical } else { Mirroring::Horizontal }
}

pub open spec fn mapper_of(b: Seq<u8>) -> u8 {
    (b[7] & 0xf0) | (b[6] >> 4u8)
}

impl Rom {
    /// Reads an iNES image: the 16-byte header (magic "NES\x1A", PRG and CHR
    /// page counts, flags 6 and 7), then the PRG pages and the CHR pages.
    /// Bytes past the last page are ignored.
    pub fn parse(bytes: &Vec<u8>) -> (r: Result<Rom, OpenRomError>)
        ensures
            bytes@.len() < 16 ==> r == Err::<Rom, OpenRomError>(OpenRomError::Truncated),
            bytes@.len() >= 16 && !has_magic(bytes@) ==> r == Err::<Rom, OpenRomError>(OpenRomError::InvalidMagicConstant),
            bytes@.len() >= 16 && has_magic(bytes@) && bytes@.len() < image_len(bytes@)
                ==> r == Err::<Rom, OpenRomError>(OpenRomError::Truncated),
            bytes@.len() >= 16 && has_magic(bytes@) && bytes@.len() >= image_len(bytes@) ==> r is Ok,
            r matches Ok(rom) ==> {
                &&& bytes@.len() >= image_len(bytes@) && has_magic(bytes@)
                &&& rom.prg_rom@ == bytes@.subrange(16, 16 + bytes@[4] * PRG_PAGE)
                &&& rom.chr_rom@ == bytes@.subrange(16 + bytes@[4] * PRG_PAGE, image_len(bytes@))
                &&& rom.mapper_code == mapper_of(bytes@)
                &&& rom.flags_6 == bytes@[6]
                &&& rom.mirroring == mirroring_of(bytes@[6])
            },
    {
        if bytes.len() < 16 {
            return Err(OpenRomError::Truncated);
        }
        if !(bytes[0] == 0x4e && bytes[1] == 0x45 && bytes[2] == 0x53 && bytes[3] == 0x1a) {
            return Err(OpenRomError::InvalidMagicConstant);
        }
        let prg_len = bytes[4] as usize * PRG_PAGE;
        let chr_len = bytes[5] as usize * CHR_PAGE;
        if bytes.len() - 16 < prg_len + chr_len {
            return Err(OpenRomError::Truncated);
        }
        let mut prg: Vec<u8> = Vec::new();
        let mut i: usize = 0;
        while i < prg_len
            invariant
                16 + prg_len + chr_len <= bytes@.len(),
                bytes@.len() <= usize::MAX,
                i <= prg_len,
                prg@ == bytes@.subrange(16, 16 + i as int),
            decreases prg_len - i,
        {
            prg.push(bytes[16 + i]);
            i = i + 1;
            assert(prg@ =~= bytes@.subrange(16, 16 + i as int));
        }
        let mut chr: Vec<u8> = Vec::new();
        let mut j: usize = 0;
        while j < chr_len
            invariant
                16 + prg_len + chr_len <= bytes@.len(),
                bytes@.len() <= usize::MAX,
                j <= chr_len,
                chr@ == bytes@.subrange(16 + prg_len as int, 16 + prg_len + j as int),
            decreases chr_len - j,
        {
            chr.push(bytes[16 + prg_len + j]);
            j = j + 1;
            assert(chr@ =~= bytes@.subrange(16 + prg_len as int, 16 + prg_len + j as int));
        }
        let flags_6 = bytes[6];
        Ok(Rom {
            mapper_code: (bytes[7] & 0xf0) | (flags_6 >> 4u8),
            prg_rom: prg,
            chr_rom: chr,
            flags_6,
            mirroring: if flags_6 & FLAG6_MIRRORING != 0 { Mirroring::Vertical } else { Mirroring::Horizontal },
        })
    }

    /// Builds the cartridge for the image's mapper: 0 (NROM, one or two whole
    /// 16 KiB PRG pages) or 4 (MMC3).
    pub fn get_cpu_mapper(&self) -> (r: Result<Cartridge, GetCpuMapperError>)
        ensures
            self.mapper_code != 0 && self.mapper_code != 4 ==> r == Err::<Cartridge, GetCpuMapperError>(GetCpuMapperError::UnimplementedMapper),
            self.mapper_code == 0 ==> (r is Ok <==> self.prg_rom@.len() == PRG_PAGE || self.prg_rom@.len() == 2 * PRG_PAGE),
            self.mapper_code == 4 ==> (r is Ok <==> 0x4000 <= self.prg_rom@.len() <= MAX_PRG_ROM
                && self.prg_rom@.len() % 0x2000 == 0 && self.chr_rom@.len() <= MAX_CHR_ROM),
            (self.mapper_code == 0 || self.mapper_code == 4) && r is Err ==> r == Err::<Cartridge, GetCpuMapperError>(GetCpuMapperError::MapperError),
            r matches Ok(Cartridge::Nrom(n)) ==> self.mapper_code == 0 && nrom_built(n@, self.prg_rom@, self.chr_rom@,
                if self.flags_6 & FLAG6_MIRRORING != 0 { nrom::Mirroring::Vertical } else { nrom::Mirroring::Horizontal }),
            r matches Ok(Cartridge::Mmc3(m)) ==> self.mapper_code == 4 && mmc3_built(m@, self.prg_rom@, self.chr_rom@,
                match self.mirroring { Mirroring::Horizontal => mmc3::Mirroring::Horizontal, Mirroring::Vertical => mmc3::Mirroring::Vertical }),
    {
        if self.mapper_code == 0 {
            if self.prg_rom.len() != PRG_PAGE && self.prg_rom.len() != 2 * PRG_PAGE {
                return Err(GetCpuMapperError::MapperError);
            }
            let mirroring = if self.flags_6 & FLAG6_MIRRORING != 0 { nrom::Mirroring::Vertical } else { nrom::Mirroring::Horizontal };
            match Nrom::new(&self.prg_rom, &self.chr_rom, mirroring) {
                Ok(n) => Ok(Cartridge::Nrom(n)),
                Err(_) => Err(GetCpuMapperError::MapperError),
            }
        } else if self.mapper_code == 4 {
            let m = match self.mirroring {
                Mirroring::Horizontal => mmc3::Mirroring::Horizontal,
                Mirroring::Vertical => mmc3::Mirroring::Vertical,
            };
            match Mmc3::new(&self.prg_rom, &self.chr_rom, m) {
                Ok(c) => Ok(Cartridge::Mmc3(c)),
                Err(_) => Err(GetCpuMapperError::MapperError),
            }
        } else {
            Err(GetCpuMapperError::UnimplementedMapper)
        }
    }
}

} // verus!
