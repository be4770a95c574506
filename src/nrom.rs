use vstd::prelude::*;

verus! {

#[derive(Clone, Copy, PartialEq, Eq, Structural, Debug)]
pub enum Mirroring {
    Horizontal,
    Vertical,
}

#[derive(Clone, Copy, PartialEq, Eq, Structural, Debug)]
pub enum BaseMapperError {
    NoPrgRomPages,
    TooManyPrgRomPages,
}

/// Mapper 0: a fixed 32 KiB PRG window, 8 KiB of CHR and two nametables.
pub struct Nrom {
    prg_rom: Vec<u8>,
    chr_rom: Vec<u8>,
    nametables: [u8; 2048],
    mirroring: Mirroring,
}

pub struct NromModel {
    pub prg_rom: Seq<u8>,
    pub chr_rom: Seq<u8>,
    pub nametables: Seq<u8>,
    pub mirroring: Mirroring,
}

impl View for Nrom {
    type V = NromModel;

    closed spec fn view(&self) -> NromModel {
        NromModel {
            prg_rom: self.prg_rom@,
            chr_rom: self.chr_rom@,
            nametables: self.nametables@,
            mirroring: self.mirroring,
        }
    }
}

/// The cell of two 1 KiB nametables that a PPU address in $2000-$3FFF selects:
/// vertical mirroring repeats them side by side, horizontal one above the other.
pub open spec fn nametable_index(mirroring: Mirroring, addr: u16) -> int {
    match mirroring {
        Mirroring::Vertical => ((addr / 1024) % 2) * 1024 + addr % 1024,
        Mirroring::Horizontal => ((addr / 2048) % 2) * 1024 + addr % 1024,
    }
}

pub open spec fn nrom_cpu_read_spec(m: NromModel, addr: u16) -> u8 {
    if addr >= 0x8000 {
        m.prg_rom[addr - 0x8000]
    } else {
        0
    }
}

pub open spec fn nrom_ppu_read_spec(m: NromModel, addr: u16) -> u8 {
    if addr < 0x2000 {
        m.chr_rom[addr as int]
    } else {
        m.nametables[nametable_index(m.mirroring, addr)]
    }
}

/// Pattern memory is ROM; only $2000-$2FFF is written.
pub open spec fn nrom_ppu_write_spec(m: NromModel, addr: u16, v: u8) -> NromModel {
    if addr < 0x2000 || addr >= 0x3000 {
        m
    } else {
        NromModel { nametables: m.nametables.update(nametable_index(m.mirroring, addr), v), ..m }
    }
}

/// A fresh cartridge made from these PRG and CHR images.
pub open spec fn nrom_built(n: NromModel, prg_rom: Seq<u8>, chr_rom: Seq<u8>, mirror: Mirroring) -> bool {
    &&& n.prg_rom.len() == 32768
    &&& forall|i: int| 0 <= i < 32768 ==> #[trigger] n.prg_rom[i] == prg_rom[i % (prg_rom.len() as int)]
    &&& n.chr_rom.len() == 8192
    &&& forall|i: int| 0 <= i < 8192 ==> #[trigger] n.chr_rom[i] == if i < chr_rom.len() { chr_rom[i] } else { 0u8 }
    &&& n.nametables == Seq::new(2048, |i: int| 0u8)
    &&& n.mirroring == mirror
}

impl Nrom {
    #[verifier::type_invariant]
    closed spec fn inv(&self) -> bool {
        self.prg_rom@.len() == 32768 && self.chr_rom@.len() == 8192
    }

    /// One or two 16 KiB PRG banks fill $8000-$FFFF (one bank is mirrored);
    /// CHR beyond what is given reads as 0.
    pub fn new(prg_rom: &Vec<u8>, chr_rom: &Vec<u8>, mirror: Mirroring) -> (r: Result<Nrom, BaseMapperError>)
        ensures
            prg_rom@.len() == 0 <==> r == Err::<Nrom, BaseMapperError>(BaseMapperError::NoPrgRomPages),
            prg_rom@.len() > 32768 <==> r == Err::<Nrom, BaseMapperError>(BaseMapperError::TooManyPrgRomPages),
            r is Ok <==> 0 < prg_rom@.len() <= 32768,
            r matches Ok(n) ==> nrom_built(n@, prg_rom@, chr_rom@, mirror),
    {
        let len = prg_rom.len();
        if len == 0 {
            return Err(BaseMapperError::NoPrgRomPages);
        }
        if len > 32768 {
            return Err(BaseMapperError::TooManyPrgRomPages);
        }
        let mut prg: Vec<u8> = Vec::new();
        let mut i: usize = 0;
        while i < 32768
            invariant
                0 < len <= 32768,
                len == prg_rom@.len(),
                i <= 32768,
                prg@.len() == i,
                forall|j: int| 0 <= j < i ==> #[trigger] prg@[j] == prg_rom@[j % len as int],
            decreases 32768 - i,
        {
            prg.push(prg_rom[i % len]);
            i = i + 1;
        }
        let mut chr: Vec<u8> = Vec::new();
        let mut i: usize = 0;
        while i < 8192
            invariant
                i <= 8192,
                chr@.len() == i,
                forall|j: int| 0 <= j < i ==> #[trigger] chr@[j] == if j < chr_rom@.len() { chr_rom@[j] } else { 0u8 },
            decreases 8192 - i,
        {
            if i < chr_rom.len() {
                chr.push(chr_rom[i]);
            } else {
                chr.push(0);
            }
            i = i + 1;
        }
        let r = Nrom { prg_rom: prg, chr_rom: chr, nametables: [0u8; 2048], mirroring: mirror };
        assert(r@.nametables =~= Seq::new(2048, |i: int| 0u8));
        Ok(r)
    }

    fn nametable_offset(&self, addr: u16) -> (r: usize)
        ensures
            r == nametable_index(self.mirroring, addr),
            r < 2048,
    {
        match self.mirroring {
            Mirroring::Vertical => ((addr / 1024) % 2) as usize * 1024 + (addr % 1024) as usize,
            Mirroring::Horizontal => ((addr / 2048) % 2) as usize * 1024 + (addr % 1024) as usize,
        }
    }

    /// A CPU read: PRG at $8000-$FFFF, nothing below.
    pub fn read(&self, addr: u16) -> (r: u8)
        ensures
            r == nrom_cpu_read_spec(self@, addr),
    {
        proof { use_type_invariant(self); }
        if addr >= 0x8000 {
            self.prg_rom[(addr - 0x8000) as usize]
        } else {
            0
        }
    }

    pub fn ppu_read(&self, addr: u16) -> (r: u8)
        ensures
            r == nrom_ppu_read_spec(self@, addr),
    {
        proof { use_type_invariant(self); }
        if addr < 0x2000 {
            return self.chr_rom[addr as usize];
        }
        let i = self.nametable_offset(addr);
        self.nametables[i]
    }

    pub fn ppu_write(&mut self, addr: u16, v: u8)
        ensures
            final(self)@ == nrom_ppu_write_spec(old(self)@, addr, v),
    {
        proof { use_type_invariant(&*self); }
        if addr < 0x2000 || addr >= 0x3000 {
            return;
        }
        let i = self.nametable_offset(addr);
        self.nametables[i] = v;
    }
}

} // verus!
