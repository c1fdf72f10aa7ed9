//! The cartridge: the ROM image, its parsed header, and the reads the bus
//! routes to it. Only the ROM-only mapping (cartridge type $00) is supported:
//! reads index straight into the image and writes are dropped. Loading
//! validates the header checksum by the standard wrapping subtraction over
//! $0134..$014C.

use vstd::prelude::*;

verus! {

use vstd::string::StringExecFns;

/// The parsed DMG cartridge header at $0100..$014F.
pub struct RomHeader {
    pub entry_point: Vec<u8>,
    pub nintendo_logo: Vec<u8>,
    pub title: Vec<u8>,
    pub manufacturer_code: Vec<u8>,
    pub cgb_flag: u8,
    pub new_licensee_code: u16,
    pub sgb_flag: u8,
    pub cartridge_type: u8,
    pub rom_size: u8,
    pub ram_size: u8,
    pub destination_code: u8,
    pub old_licensee_code: u8,
    pub mask_rom_version_number: u8,
    pub header_checksum: u8,
    pub global_checksum: u16,
}

/// The header as mathematical data.
#[verifier::ext_equal]
pub struct HeaderV {
    pub entry_point: Seq<u8>,
    pub nintendo_logo: Seq<u8>,
    pub title: Seq<u8>,
    pub manufacturer_code: Seq<u8>,
    pub cgb_flag: u8,
    pub new_licensee_code: u16,
    pub sgb_flag: u8,
    pub cartridge_type: u8,
    pub rom_size: u8,
    pub ram_size: u8,
    pub destination_code: u8,
    pub old_licensee_code: u8,
    pub mask_rom_version_number: u8,
    pub header_checksum: u8,
    pub global_checksum: u16,
}

impl View for RomHeader {
    type V = HeaderV;

    open spec fn view(&self) -> HeaderV {
        HeaderV {
            entry_point: self.entry_point@,
            nintendo_logo: self.nintendo_logo@,
            title: self.title@,
            manufacturer_code: self.manufacturer_code@,
            cgb_flag: self.cgb_flag,
            new_licensee_code: self.new_licensee_code,
            sgb_flag: self.sgb_flag,
            cartridge_type: self.cartridge_type,
            rom_size: self.rom_size,
            ram_size: self.ram_size,
            destination_code: self.destination_code,
            old_licensee_code: self.old_licensee_code,
            mask_rom_version_number: self.mask_rom_version_number,
            header_checksum: self.header_checksum,
            global_checksum: self.global_checksum,
        }
    }
}

/// The header that a ROM image of at least $0150 bytes parses to, field by
/// field at the standard offsets.
pub open spec fn spec_parse_header(rom: Seq<u8>) -> HeaderV {
    HeaderV {
        entry_point: rom.subrange(0x100, 0x104),
        nintendo_logo: rom.subrange(0x104, 0x134),
        title: rom.subrange(0x134, 0x144),
        manufacturer_code: rom.subrange(0x13F, 0x143),
        cgb_flag: rom[0x143],
        new_licensee_code: crate::util::spec_combine(rom[0x144], rom[0x145]),
        sgb_flag: rom[0x146],
        cartridge_type: rom[0x147],
        rom_size: rom[0x148],
        ram_size: rom[0x149],
        destination_code: rom[0x14A],
        old_licensee_code: rom[0x14B],
        mask_rom_version_number: rom[0x14C],
        header_checksum: rom[0x14D],
        global_checksum: crate::util::spec_combine(rom[0x14E], rom[0x14F]),
    }
}

/// A copy of `v[start..start + len]`.
fn copy_range(v: &Vec<u8>, start: usize, len: usize) -> (r: Vec<u8>)
    requires
        start + len <= v@.len(),
    ensures
        r@ == v@.subrange(start as int, start + len),
{
    let vlen = v.len();
    let mut out: Vec<u8> = Vec::new();
    let mut i: usize = 0;
    while i < len
        invariant
            i <= len,
            start + len <= vlen,
            vlen == v@.len(),
            out@.len() == i,
            forall|j: int| 0 <= j < i ==> out@[j] == v@[start + j],
        decreases len - i,
    {
        out.push(v[start + i]);
        i = i + 1;
    }
    proof {
        assert(out@ =~= v@.subrange(start as int, start + len));
    }
    out
}

impl HeaderV {
    /// The licensee code that names the publisher: the new code (two ASCII
    /// digits at $0144) when the old code is $33, the old byte otherwise.
    pub open spec fn spec_licensee_name(self) -> Seq<char> {
        if self.old_licensee_code == 0x33 {
            if self.new_licensee_code == 0x3031 {
                "Nintendo"@
            } else {
                "UNKNOWN"@
            }
        } else {
            if self.old_licensee_code == 0x01 {
                "Nintendo"@
            } else {
                "UNKNOWN"@
            }
        }
    }
}

impl RomHeader {
    /// Parse the header out of a ROM image.
    pub fn new(rom_data: &Vec<u8>) -> (r: Self)
        requires
            rom_data@.len() >= 0x150,
        ensures
            r@ == spec_parse_header(rom_data@),
    {
        let new_licensee_code = crate::util::combine(rom_data[0x144], rom_data[0x145]);
        let global_checksum = crate::util::combine(rom_data[0x14E], rom_data[0x14F]);
        Self {
            entry_point: copy_range(rom_data, 0x100, 0x4),
            nintendo_logo: copy_range(rom_data, 0x104, 0x30),
            title: copy_range(rom_data, 0x134, 0x10),
            manufacturer_code: copy_range(rom_data, 0x13F, 0x4),
            cgb_flag: rom_data[0x143],
            new_licensee_code,
            sgb_flag: rom_data[0x146],
            cartridge_type: rom_data[0x147],
            rom_size: rom_data[0x148],
            ram_size: rom_data[0x149],
            destination_code: rom_data[0x14A],
            old_licensee_code: rom_data[0x14B],
            mask_rom_version_number: rom_data[0x14C],
            header_checksum: rom_data[0x14D],
            global_checksum,
        }
    }

    pub fn cartridge_licensee_name(&self) -> (r: String)
        ensures
            r@ == self@.spec_licensee_name(),
    {
        if self.old_licensee_code == 0x33 {
            if self.new_licensee_code == 0x3031 {
                String::from_str("Nintendo")
            } else {
                String::from_str("UNKNOWN")
            }
        } else {
            if self.old_licensee_code == 0x01 {
                String::from_str("Nintendo")
            } else {
                String::from_str("UNKNOWN")
            }
        }
    }

    /// The title as text. Decoding the title bytes is left to the host; the
    /// core reports an empty string, as the raw bytes stay available in
    /// `title`.
    pub fn title_name(&self) -> (r: String)
        ensures
            r@.len() == 0,
    {
        String::new()
    }
}

/// The cartridge: the ROM image and its parsed header.
pub struct Cartridge {
    rom_data: Vec<u8>,
    rom_header: RomHeader,
}

/// The cartridge as mathematical data.
#[verifier::ext_equal]
pub struct CartV {
    pub rom: Seq<u8>,
    pub header: HeaderV,
}

impl View for Cartridge {
    type V = CartV;

    closed spec fn view(&self) -> CartV {
        CartV { rom: self.rom_data@, header: self.rom_header@ }
    }
}

/// Why a ROM image is refused at load.
#[derive(Clone, Copy, Debug, PartialEq, Eq, Structural)]
pub enum CartridgeError {
    /// The image is too short to hold the $0100..$014F header.
    BadCartridgeHeader,
    /// The cartridge type byte asks for a mapper other than ROM-only.
    UnsupportedMapper,
}

impl CartV {
    pub open spec fn wf(self) -> bool {
        &&& self.rom.len() >= 0x150
        &&& self.header == spec_parse_header(self.rom)
    }

    /// What a read routed to the cartridge returns: the ROM byte at the
    /// address, or zero beyond the image (a small ROM-only cartridge has no
    /// external RAM to answer with).
    pub open spec fn spec_read(self, address: u16) -> u8 {
        if address < self.rom.len() {
            self.rom[address as int]
        } else {
            0
        }
    }
}

/// The header checksum over the first `n` bytes of $0134..$014C: starting
/// from zero, for each byte the checksum becomes `checksum - byte - 1`,
/// wrapping in eight bits.
pub open spec fn spec_header_checksum(rom: Seq<u8>, n: nat) -> u8
    decreases n,
{
    if n == 0 {
        0
    } else {
        vstd::wrapping::u8_specs::wrapping_sub(
            vstd::wrapping::u8_specs::wrapping_sub(
                spec_header_checksum(rom, (n - 1) as nat),
                rom[0x134 + n - 1],
            ),
            1,
        )
    }
}

impl Cartridge {
    /// Build a cartridge from a ROM image. The image must be long enough to
    /// hold the header, and its cartridge type must be $00 (ROM-only); a
    /// wrong header checksum is tolerated, as on the console.
    pub fn from_rom_bytes(rom_data: Vec<u8>) -> (r: Result<Self, CartridgeError>)
        ensures
            rom_data@.len() < 0x150 ==> r == Result::<Self, CartridgeError>::Err(
                CartridgeError::BadCartridgeHeader,
            ),
            rom_data@.len() >= 0x150 && rom_data@[0x147] != 0 ==> r == Result::<
                Self,
                CartridgeError,
            >::Err(CartridgeError::UnsupportedMapper),
            rom_data@.len() >= 0x150 && rom_data@[0x147] == 0 ==> r.is_ok()
                && r.unwrap()@.rom == rom_data@ && r.unwrap()@.wf(),
    {
        if rom_data.len() < 0x150 {
            return Result::Err(CartridgeError::BadCartridgeHeader);
        }
        let rom_header = RomHeader::new(&rom_data);
        if rom_header.cartridge_type != 0 {
            return Result::Err(CartridgeError::UnsupportedMapper);
        }
        Result::Ok(Self { rom_data, rom_header })
    }

    /// The loaded image's length in bytes.
    pub fn rom_len(&self) -> (r: usize)
        ensures
            r == self@.rom.len(),
    {
        self.rom_data.len()
    }

    /// The parsed header.
    pub fn header(&self) -> (r: &RomHeader)
        ensures
            r@ == self@.header,
    {
        &self.rom_header
    }

    /// The checksum over $0134..$014C that the byte at $014D should equal.
    pub fn calculate_checksum(rom_data: &Vec<u8>) -> (r: u8)
        requires
            rom_data@.len() >= 0x14D,
        ensures
            r == spec_header_checksum(rom_data@, 0x19),
    {
        let mut checksum: u8 = 0;
        let mut i: usize = 0;
        while i < 0x19
            invariant
                i <= 0x19,
                rom_data@.len() >= 0x14D,
                checksum == spec_header_checksum(rom_data@, i as nat),
            decreases 0x19 - i,
        {
            checksum = checksum.wrapping_sub(rom_data[0x134 + i]).wrapping_sub(1);
            i = i + 1;
        }
        checksum
    }

    /// The checksum computed over this cartridge's own image.
    pub fn computed_checksum(&self) -> (r: u8)
        requires
            self@.wf(),
        ensures
            r == spec_header_checksum(self@.rom, 0x19),
    {
        Self::calculate_checksum(&self.rom_data)
    }

    /// Whether the stored header checksum matches the computed one.
    pub fn checksum_passes(&self) -> (r: bool)
        requires
            self@.wf(),
        ensures
            r == (spec_header_checksum(self@.rom, 0x19) == self@.header.header_checksum),
    {
        let computed = Self::calculate_checksum(&self.rom_data);
        computed == self.rom_header.header_checksum
    }

    /// A read routed to the cartridge: the ROM byte, or zero beyond the
    /// image.
    pub fn cart_read(&self, address: u16) -> (r: u8)
        ensures
            r == self@.spec_read(address),
    {
        if (address as usize) < self.rom_data.len() {
            self.rom_data[address as usize]
        } else {
            0
        }
    }

    /// A write routed to the cartridge: ROM-only cartridges drop it.
    pub fn cart_write(&self, address: u16, value: u8) {
        let _ = address;
        let _ = value;
    }
}

} // verus!
