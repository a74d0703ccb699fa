use vstd::prelude::*;

verus! {

/// Character memory of a cartridge: pattern tables in ROM or in RAM.
pub enum ChrMemory {
    Rom(Vec<u8>),
    Ram(Vec<u8>),
}

/// The address decoding of a cartridge board.
pub trait Mapper {
    /// Whether a CPU read at `address` is defined for this board.
    spec fn cpu_readable(&self, prg_rom: Seq<u8>, address: u16) -> bool;

    /// The byte a CPU read at `address` returns.
    spec fn cpu_value(&self, prg_rom: Seq<u8>, address: u16) -> u8;

    /// Whether a PPU read at `address` is defined for this board.
    spec fn ppu_readable(&self, chr: ChrMemory, vram: Seq<u8>, address: u16) -> bool;

    /// The byte a PPU read at `address` returns.
    spec fn ppu_value(&self, chr: ChrMemory, vram: Seq<u8>, address: u16) -> u8;

    fn cpu_read(&self, prg_rom: &Vec<u8>, address: u16) -> (r: u8)
        requires
            self.cpu_readable(prg_rom@, address),
        ensures
            r == self.cpu_value(prg_rom@, address),
    ;

    fn ppu_read(&self, chr: &ChrMemory, vram: &[u8; 2048], address: u16) -> (r: u8)
        requires
            self.ppu_readable(*chr, vram@, address),
        ensures
            r == self.ppu_value(*chr, vram@, address),
    ;
}

pub struct Nrom {
    pub header: InesHeader,
}

impl Nrom {
    /// Index into PRG ROM of the CPU address `address` (at least 0x8000).
    pub open spec fn prg_index(self, address: u16) -> int {
        if self.header.prg_rom_mult == 1 {
            (address - 0x8000) % 0x4000
        } else {
            address - 0x8000
        }
    }
}

/// Index into the 2 KiB of VRAM that nametable offset `offset` (below 0x1000) selects.
pub open spec fn nametable_index(vertical_mirroring: bool, offset: int) -> int {
    if vertical_mirroring {
        offset % 0x800
    } else {
        offset % 0x400
    }
}

/// Whether nametable offset `offset` (below 0x1000) can be read.
pub open spec fn nametable_readable(vertical_mirroring: bool, offset: int) -> bool {
    vertical_mirroring || !(0x800 <= offset < 0xC00)
}

proof fn lemma_vram_index(offset: usize) by (bit_vector)
    requires
        offset < 0x1000,
    ensures
        offset & 0x07FF == offset % 0x800,
        offset & 0x3FF == offset % 0x400,
{
}

impl Mapper for Nrom {
    open spec fn cpu_readable(&self, prg_rom: Seq<u8>, address: u16) -> bool {
        0x8000 <= address && self.prg_index(address) < prg_rom.len()
    }

    open spec fn cpu_value(&self, prg_rom: Seq<u8>, address: u16) -> u8 {
        prg_rom[self.prg_index(address)]
    }

    open spec fn ppu_readable(&self, chr: ChrMemory, vram: Seq<u8>, address: u16) -> bool {
        match chr {
            ChrMemory::Rom(rom) => {
                if address <= 0x1FFF {
                    address < rom@.len()
                } else if address <= 0x2FFF {
                    nametable_readable(self.header.vertical_mirroring, address - 0x2000)
                } else if address <= 0x3F1F {
                    address - 0x3000 < rom@.len()
                } else {
                    true
                }
            },
            ChrMemory::Ram(_) => true,
        }
    }

    open spec fn ppu_value(&self, chr: ChrMemory, vram: Seq<u8>, address: u16) -> u8 {
        match chr {
            ChrMemory::Rom(rom) => {
                if address <= 0x1FFF {
                    rom@[address as int]
                } else if address <= 0x2FFF {
                    vram[nametable_index(self.header.vertical_mirroring, address - 0x2000)]
                } else if address <= 0x3F1F {
                    rom@[address - 0x3000]
                } else {
                    0
                }
            },
            ChrMemory::Ram(_) => 0,
        }
    }

    fn cpu_read(&self, prg_rom: &Vec<u8>, address: u16) -> (r: u8) {
        let offset = address - 0x8000;
        if self.header.prg_rom_mult == 1 {
            assert(offset & 0x3FFF == offset % 0x4000) by (bit_vector);
            prg_rom[(offset & 0x3FFF) as usize]
        } else {
            prg_rom[offset as usize]
        }
    }

    fn ppu_read(&self, chr: &ChrMemory, vram: &[u8; 2048], address: u16) -> (r: u8)
        decreases address,
    {
        if let ChrMemory::Rom(chr_rom) = chr {
            if address <= 0x1FFF {
                chr_rom[address as usize]
            } else if address <= 0x2FFF {
                let offset = address - 0x2000;
                if self.header.vertical_mirroring {
                    if offset <= 0x07FF {
                        vram[offset as usize]
                    } else {
                        proof {
                            lemma_vram_index(offset as usize);
                        }
                        vram[(offset as usize) & 0x07FF]
                    }
                } else {
                    if offset <= 0x03FF {
                        vram[offset as usize]
                    } else if offset <= 0x07FF {
                        proof {
                            lemma_vram_index(offset as usize);
                        }
                        vram[(offset as usize) & 0x3FF]
                    } else if offset <= 0x0BFF {
                        vram[offset as usize]
                    } else {
                        proof {
                            lemma_vram_index(offset as usize);
                        }
                        vram[(offset as usize) & 0x3FF]
                    }
                }
            } else if address <= 0x3F1F {
                let offset = address - 0x3000;
                self.ppu_read(chr, vram, offset)
            } else {
                0
            }
        } else {
            0
        }
    }
}

/// The fields of an iNES file header.
pub struct InesHeader {
    /// Size of PRG ROM in 16 KiB units.
    pub prg_rom_mult: u8,
    /// Size of CHR ROM in 8 KiB units.
    pub chr_rom_mult: u8,
    /// Mapper number.
    pub mapper: u8,
    pub vertical_mirroring: bool,
    /// Whether a 512-byte trainer precedes PRG ROM.
    pub trainer: bool,
}

/// The header that the first eight bytes of an iNES file describe.
pub open spec fn header_of(bytes: Seq<u8>) -> InesHeader {
    InesHeader {
        prg_rom_mult: bytes[4],
        chr_rom_mult: bytes[5],
        mapper: (bytes[6] / 16 + (bytes[7] / 16) * 16) as u8,
        vertical_mirroring: bytes[6] % 2 == 1,
        trainer: (bytes[6] / 4) % 2 == 1,
    }
}

/// Offset of PRG ROM in the file: after the 16-byte header and the trainer, if any.
pub open spec fn prg_start(h: InesHeader) -> int {
    16 + if h.trainer { 512int } else { 0int }
}

/// Offset just past PRG ROM in the file.
pub open spec fn prg_end(h: InesHeader) -> int {
    prg_start(h) + 0x4000 * h.prg_rom_mult
}

/// Offset just past CHR ROM in the file.
pub open spec fn chr_end(h: InesHeader) -> int {
    prg_end(h) + 0x2000 * h.chr_rom_mult
}

/// Whether `bytes` is an iNES image that loads: its header is there, the offsets of both
/// ROMs fit the 16-bit arithmetic they are computed in, the ROMs lie within the file and
/// the board is NROM (mapper 0).
pub open spec fn loadable(bytes: Seq<u8>) -> bool {
    &&& bytes.len() >= 8
    &&& header_of(bytes).prg_rom_mult <= 3
    &&& header_of(bytes).chr_rom_mult <= 7
    &&& chr_end(header_of(bytes)) <= 0xFFFF
    &&& chr_end(header_of(bytes)) <= bytes.len()
    &&& header_of(bytes).mapper == 0
}

/// The header fields come from the iNES flag bits: the mapper number has its low nibble in
/// the high nibble of byte 6 and its high nibble in the high nibble of byte 7; bit 0 of byte
/// 6 selects vertical mirroring and bit 2 a trainer.
pub proof fn lemma_header_fields(bytes: Seq<u8>)
    requires
        bytes.len() >= 8,
    ensures
        header_of(bytes).prg_rom_mult == bytes[4],
        header_of(bytes).chr_rom_mult == bytes[5],
        header_of(bytes).mapper % 16 == bytes[6] / 16,
        header_of(bytes).mapper / 16 == bytes[7] / 16,
        header_of(bytes).vertical_mirroring == (bytes[6] & 1 != 0),
        header_of(bytes).trainer == (bytes[6] & 4 != 0),
{
    let b6 = bytes[6];
    assert((b6 % 2 == 1) == (b6 & 1 != 0) && ((b6 / 4) % 2 == 1) == (b6 & 4 != 0)) by (bit_vector);
}

/// A loadable image holds 16 KiB of PRG ROM per unit of its header and 8 KiB of CHR ROM per
/// unit, after the header and the trainer.
pub proof fn lemma_rom_sizes(bytes: Seq<u8>)
    requires
        loadable(bytes),
    ensures
        prg_start(header_of(bytes)) == if header_of(bytes).trainer { 16 + 512int } else { 16int },
        prg_end(header_of(bytes)) - prg_start(header_of(bytes)) == 0x4000 * header_of(bytes).prg_rom_mult,
        chr_end(header_of(bytes)) - prg_end(header_of(bytes)) == 0x2000 * header_of(bytes).chr_rom_mult,
{
}

/// With a single 16 KiB bank (NROM-128), 0xC000-0xFFFF mirrors 0x8000-0xBFFF; with two, the
/// CPU sees 32 KiB in order.
pub proof fn lemma_prg_mirroring(nrom: Nrom, address: u16)
    requires
        0x8000 <= address < 0xC000,
    ensures
        nrom.header.prg_rom_mult == 1 ==> nrom.prg_index(address) == nrom.prg_index((address + 0x4000) as u16),
        nrom.header.prg_rom_mult == 1 ==> nrom.prg_index(address) == address - 0x8000,
        nrom.header.prg_rom_mult != 1 ==> nrom.prg_index((address + 0x4000) as u16) == address - 0x8000 + 0x4000,
{
}

pub struct Cartridge {
    pub prg_rom: Vec<u8>,
    pub chr: ChrMemory,
    pub mapper: Nrom,
}

impl Cartridge {
    /// Whether `bytes` can be loaded by [`Cartridge::load_from_bytes`].
    pub fn can_load(bytes: &[u8]) -> (r: bool)
        ensures
            r == loadable(bytes@),
    {
        if bytes.len() < 8 {
            return false;
        }
        let header = InesHeader::parse(bytes);
        if header.prg_rom_mult > 3 || header.chr_rom_mult > 7 {
            return false;
        }
        let prg_start: u32 = if header.trainer { 16 + 512 } else { 16 };
        let chr_end: u32 = prg_start + 0x4000 * (header.prg_rom_mult as u32) + 0x2000 * (
        header.chr_rom_mult as u32);
        chr_end <= 0xFFFF && (chr_end as usize) <= bytes.len() && header.mapper == 0
    }

    /// Builds the cartridge that an iNES image describes.
    pub fn load_from_bytes(bytes: &[u8]) -> (c: Self)
        requires
            loadable(bytes@),
        ensures
            c.mapper.header == header_of(bytes@),
            c.prg_rom@ == bytes@.subrange(prg_start(header_of(bytes@)), prg_end(header_of(bytes@))),
            c.chr matches ChrMemory::Rom(chr_rom) && chr_rom@ == bytes@.subrange(
                prg_end(header_of(bytes@)),
                chr_end(header_of(bytes@)),
            ),
    {
        let header = InesHeader::parse(bytes);
        let mut prg_start = 0x0010u16;
        if header.trainer {
            prg_start += 512
        };
        let prg_end = prg_start + (0x4000 * (header.prg_rom_mult as u16));
        let prg_rom: Vec<u8> = vstd::slice::slice_to_vec(&bytes[prg_start as usize..prg_end as usize]);
        let chr_end = prg_end + (0x2000 * (header.chr_rom_mult as u16));
        let chr_rom: Vec<u8> = vstd::slice::slice_to_vec(&bytes[prg_end as usize..chr_end as usize]);
        let mapper = Nrom { header };
        Self { prg_rom, chr: ChrMemory::Rom(chr_rom), mapper }
    }

    /// The bytes of character memory, ROM or RAM.
    pub fn chr_slice(&self) -> (r: &[u8])
        ensures
            r@ == match self.chr {
                ChrMemory::Rom(bytes) => bytes@,
                ChrMemory::Ram(bytes) => bytes@,
            },
    {
        match &self.chr {
            ChrMemory::Rom(bytes) => bytes.as_slice(),
            ChrMemory::Ram(bytes) => bytes.as_slice(),
        }
    }

    pub fn cpu_read(&self, address: u16) -> (r: u8)
        requires
            self.mapper.cpu_readable(self.prg_rom@, address),
        ensures
            r == self.mapper.cpu_value(self.prg_rom@, address),
    {
        self.mapper.cpu_read(&self.prg_rom, address)
    }

    /// Writes from the CPU to the cartridge are ignored.
    pub fn cpu_write(&mut self, address: u16, value: u8)
        ensures
            *final(self) == *old(self),
    {
    }
}

impl InesHeader {
    pub fn parse(bytes: &[u8]) -> (h: Self)
        requires
            bytes@.len() >= 8,
        ensures
            h == header_of(bytes@),
    {
        let b6 = bytes[6];
        let b7 = bytes[7];
        assert((b6 >> 4) | (b7 & 0xF0) == b6 / 16 + (b7 / 16) * 16 && ((b6 & 1) != 0) == (b6 % 2
            == 1) && ((b6 & (1u8 << 2u8)) != 0) == ((b6 / 4) % 2 == 1)) by (bit_vector);
        Self {
            prg_rom_mult: bytes[4],
            chr_rom_mult: bytes[5],
            mapper: (b6 >> 4) | (b7 & 0xF0),
            vertical_mirroring: (b6 & 1) != 0,
            trainer: (b6 & (1 << 2)) != 0,
        }
    }
}


} // verus!
