//! The FAT Partition Boot Record: the BIOS Parameter Block, both readings of
//! the extended block, and the cluster-count rule that picks one of them.

use vstd::prelude::*;
use crate::bootsector::BootSectorKind;
use crate::reader::{le_u16_at, le_u32_at, Cursor};
use crate::report::{Field, ReportLine, Value};

verus! {

/// Offset at which both extended blocks start.
pub const EXTENSION_OFFSET: usize = 36;

/// The largest cluster count of a FAT12 volume.
pub const FAT12_MAX_CLUSTERS: u64 = 4084;

/// The largest cluster count of a FAT16 volume.
pub const FAT16_MAX_CLUSTERS: u64 = 65524;

/// The extended block as FAT12 and FAT16 lay it out (offsets 36 to 509).
#[derive(Copy, Clone, Debug, PartialEq, Eq)]
pub struct Fat12_16 {
    pub bs_drvnum: u8,
    pub bs_reserved1: u8,
    pub bs_bootsig: u8,
    pub bs_volid: u32,
    pub bs_vollab: [u8; 11],
    pub bs_filsystype: [u8; 8],
    pub boot_program: [u8; 448],
}

/// The extended block as FAT32 lays it out (offsets 36 to 509).
#[derive(Copy, Clone, Debug, PartialEq, Eq)]
pub struct Fat32 {
    pub bpb_fatsz32: u32,
    pub bpb_extflags: u16,
    pub bpb_fsver: [u8; 2],
    pub bpb_rootclus: u32,
    pub bpb_fsinfo: u16,
    pub bpb_bkbootsec: u16,
    pub bpb_reserved: [u8; 12],
    pub bs_drvnum: u8,
    pub bs_reserved1: u8,
    pub bs_bootsig: u8,
    pub bs_volid: u32,
    pub bs_vollab: [u8; 11],
    pub bs_filsystype: [u8; 8],
    pub boot_program: [u8; 420],
}

/// The FAT variant of a volume.
#[derive(Copy, Clone, Debug, PartialEq, Eq, Structural)]
pub enum FATType {
    FAT12,
    FAT16,
    FAT32,
}

/// Why the FAT variant of a boot record cannot be computed.
#[derive(Copy, Clone, Debug, PartialEq, Eq, Structural)]
pub enum FatError {
    /// The bytes-per-sector field is zero.
    ZeroBytesPerSector,
    /// The sectors-per-cluster field is zero.
    ZeroSectorsPerCluster,
    /// Reserved sectors, FATs and root directory need more sectors than the
    /// volume has.
    MetadataExceedsVolume,
}

/// The FAT variant for a given number of data clusters.
pub open spec fn fat_type_for_clusters(count: int) -> FATType {
    if count <= FAT12_MAX_CLUSTERS {
        FATType::FAT12
    } else if count <= FAT16_MAX_CLUSTERS {
        FATType::FAT16
    } else {
        FATType::FAT32
    }
}

/// Classifies a volume by its number of data clusters: at most 4084 is
/// FAT12, at most 65524 FAT16, anything larger FAT32.
pub fn fat_type_of_cluster_count(count: u64) -> (r: FATType)
    ensures
        r == fat_type_for_clusters(count as int),
{
    if count <= FAT12_MAX_CLUSTERS {
        FATType::FAT12
    } else if count <= FAT16_MAX_CLUSTERS {
        FATType::FAT16
    } else {
        FATType::FAT32
    }
}

impl Fat12_16 {
    /// An all-zero block.
    pub fn new() -> (r: Fat12_16)
        ensures
            r.bs_drvnum == 0,
            r.bs_reserved1 == 0,
            r.bs_bootsig == 0,
            r.bs_volid == 0,
            forall|i: int| 0 <= i < 11 ==> r.bs_vollab@[i] == 0,
            forall|i: int| 0 <= i < 8 ==> r.bs_filsystype@[i] == 0,
            forall|i: int| 0 <= i < 448 ==> r.boot_program@[i] == 0,
    {
        Fat12_16 {
            bs_drvnum: 0u8,
            bs_reserved1: 0u8,
            bs_bootsig: 0u8,
            bs_volid: 0u32,
            bs_vollab: [0u8; 11],
            bs_filsystype: [0u8; 8],
            boot_program: [0u8; 448],
        }
    }

    /// This block holds the bytes of `s` from offset 36 on, in the FAT12/16
    /// layout.
    pub open spec fn parsed_from(&self, s: Seq<u8>) -> bool {
        &&& self.bs_drvnum == s[36]
        &&& self.bs_reserved1 == s[37]
        &&& self.bs_bootsig == s[38]
        &&& self.bs_volid == le_u32_at(s, 39)
        &&& self.bs_vollab@ == s.subrange(43, 54)
        &&& self.bs_filsystype@ == s.subrange(54, 62)
        &&& self.boot_program@ == s.subrange(62, 510)
    }

    /// Reads the block at the cursor, which stands at offset 36.
    pub fn read(cur: &mut Cursor) -> (r: Fat12_16)
        requires
            old(cur).pos == 36,
            old(cur).data@.len() >= 510,
        ensures
            final(cur).data@ == old(cur).data@,
            final(cur).pos == 510,
            r.parsed_from(old(cur).data@),
    {
        let bs_drvnum = cur.read_u8();
        let bs_reserved1 = cur.read_u8();
        let bs_bootsig = cur.read_u8();
        let bs_volid = cur.read_u32_le();
        let bs_vollab = cur.read_array::<11>();
        let bs_filsystype = cur.read_array::<8>();
        let boot_program = cur.read_array::<448>();
        Fat12_16 {
            bs_drvnum,
            bs_reserved1,
            bs_bootsig,
            bs_volid,
            bs_vollab,
            bs_filsystype,
            boot_program,
        }
    }
}

impl Fat12_16 {
    /// The report lines of this block.
    pub open spec fn spec_report(&self) -> Seq<ReportLine> {
        seq![
            ReportLine::Entry(Field::DriveNum, Value::Decimal(self.bs_drvnum as u64)),
            ReportLine::Entry(Field::Reserved, Value::Decimal(self.bs_reserved1 as u64)),
            ReportLine::Entry(Field::BootSignature, Value::Hex(self.bs_bootsig as u64, 2)),
            ReportLine::Entry(Field::VolumeSerial, Value::Hex(self.bs_volid as u64, 8)),
            ReportLine::Entry(Field::VolumeLabel, Value::Text11(self.bs_vollab)),
            ReportLine::Entry(Field::FileSystemType, Value::Text8(self.bs_filsystype)),
        ]
    }

    /// Appends the report lines of this block to `out`.
    pub fn report_into(&self, out: &mut Vec<ReportLine>)
        ensures
            final(out)@ == old(out)@ + self.spec_report(),
    {
        out.push(ReportLine::Entry(Field::DriveNum, Value::Decimal(self.bs_drvnum as u64)));
        out.push(ReportLine::Entry(Field::Reserved, Value::Decimal(self.bs_reserved1 as u64)));
        out.push(ReportLine::Entry(Field::BootSignature, Value::Hex(self.bs_bootsig as u64, 2)));
        out.push(ReportLine::Entry(Field::VolumeSerial, Value::Hex(self.bs_volid as u64, 8)));
        out.push(ReportLine::Entry(Field::VolumeLabel, Value::Text11(self.bs_vollab)));
        out.push(ReportLine::Entry(Field::FileSystemType, Value::Text8(self.bs_filsystype)));
        assert(out@ =~= old(out)@ + self.spec_report());
    }
}

impl Fat32 {
    /// The report lines of this block.
    pub open spec fn spec_report(&self) -> Seq<ReportLine> {
        seq![
            ReportLine::Entry(Field::FatSize32, Value::Sectors(self.bpb_fatsz32 as u64)),
            ReportLine::Entry(Field::Flags, Value::Binary16(self.bpb_extflags)),
            ReportLine::Entry(Field::Version, Value::Version(self.bpb_fsver@[1], self.bpb_fsver@[0])),
            ReportLine::Entry(Field::RootDirCluster, Value::Decimal(self.bpb_rootclus as u64)),
            ReportLine::Entry(Field::FsInfo, Value::Decimal(self.bpb_fsinfo as u64)),
            ReportLine::Entry(Field::BackupBootSector, Value::Decimal(self.bpb_bkbootsec as u64)),
            ReportLine::Entry(Field::DriveNum, Value::Decimal(self.bs_drvnum as u64)),
            ReportLine::Entry(Field::Reserved, Value::Decimal(self.bs_reserved1 as u64)),
            ReportLine::Entry(Field::BootSignature, Value::Hex(self.bs_bootsig as u64, 2)),
            ReportLine::Entry(Field::VolumeSerial, Value::Hex(self.bs_volid as u64, 8)),
            ReportLine::Entry(Field::VolumeLabel, Value::Text11(self.bs_vollab)),
            ReportLine::Entry(Field::FileSystemType, Value::Text8(self.bs_filsystype)),
        ]
    }

    /// Appends the report lines of this block to `out`.
    pub fn report_into(&self, out: &mut Vec<ReportLine>)
        ensures
            final(out)@ == old(out)@ + self.spec_report(),
    {
        out.push(ReportLine::Entry(Field::FatSize32, Value::Sectors(self.bpb_fatsz32 as u64)));
        out.push(ReportLine::Entry(Field::Flags, Value::Binary16(self.bpb_extflags)));
        out.push(
            ReportLine::Entry(Field::Version, Value::Version(self.bpb_fsver[1], self.bpb_fsver[0])),
        );
        out.push(ReportLine::Entry(Field::RootDirCluster, Value::Decimal(self.bpb_rootclus as u64)));
        out.push(ReportLine::Entry(Field::FsInfo, Value::Decimal(self.bpb_fsinfo as u64)));
        out.push(
            ReportLine::Entry(Field::BackupBootSector, Value::Decimal(self.bpb_bkbootsec as u64)),
        );
        out.push(ReportLine::Entry(Field::DriveNum, Value::Decimal(self.bs_drvnum as u64)));
        out.push(ReportLine::Entry(Field::Reserved, Value::Decimal(self.bs_reserved1 as u64)));
        out.push(ReportLine::Entry(Field::BootSignature, Value::Hex(self.bs_bootsig as u64, 2)));
        out.push(ReportLine::Entry(Field::VolumeSerial, Value::Hex(self.bs_volid as u64, 8)));
        out.push(ReportLine::Entry(Field::VolumeLabel, Value::Text11(self.bs_vollab)));
        out.push(ReportLine::Entry(Field::FileSystemType, Value::Text8(self.bs_filsystype)));
        assert(out@ =~= old(out)@ + self.spec_report());
    }
}

impl Fat32 {
    /// An all-zero block.
    pub fn new() -> (r: Fat32)
        ensures
            r.bpb_fatsz32 == 0,
            r.bpb_extflags == 0,
            forall|i: int| 0 <= i < 2 ==> r.bpb_fsver@[i] == 0,
            r.bpb_rootclus == 0,
            r.bpb_fsinfo == 0,
            r.bpb_bkbootsec == 0,
            forall|i: int| 0 <= i < 12 ==> r.bpb_reserved@[i] == 0,
            r.bs_drvnum == 0,
            r.bs_reserved1 == 0,
            r.bs_bootsig == 0,
            r.bs_volid == 0,
            forall|i: int| 0 <= i < 11 ==> r.bs_vollab@[i] == 0,
            forall|i: int| 0 <= i < 8 ==> r.bs_filsystype@[i] == 0,
            forall|i: int| 0 <= i < 420 ==> r.boot_program@[i] == 0,
    {
        Fat32 {
            bpb_fatsz32: 0u32,
            bpb_extflags: 0u16,
            bpb_fsver: [0u8; 2],
            bpb_rootclus: 0u32,
            bpb_fsinfo: 0u16,
            bpb_bkbootsec: 0u16,
            bpb_reserved: [0u8; 12],
            bs_drvnum: 0u8,
            bs_reserved1: 0u8,
            bs_bootsig: 0u8,
            bs_volid: 0u32,
            bs_vollab: [0u8; 11],
            bs_filsystype: [0u8; 8],
            boot_program: [0u8; 420],
        }
    }

    /// This block holds the bytes of `s` from offset 36 on, in the FAT32
    /// layout.
    pub open spec fn parsed_from(&self, s: Seq<u8>) -> bool {
        &&& self.bpb_fatsz32 == le_u32_at(s, 36)
        &&& self.bpb_extflags == le_u16_at(s, 40)
        &&& self.bpb_fsver@ == s.subrange(42, 44)
        &&& self.bpb_rootclus == le_u32_at(s, 44)
        &&& self.bpb_fsinfo == le_u16_at(s, 48)
        &&& self.bpb_bkbootsec == le_u16_at(s, 50)
        &&& self.bpb_reserved@ == s.subrange(52, 64)
        &&& self.bs_drvnum == s[64]
        &&& self.bs_reserved1 == s[65]
        &&& self.bs_bootsig == s[66]
        &&& self.bs_volid == le_u32_at(s, 67)
        &&& self.bs_vollab@ == s.subrange(71, 82)
        &&& self.bs_filsystype@ == s.subrange(82, 90)
        &&& self.boot_program@ == s.subrange(90, 510)
    }

    /// Reads the block at the cursor, which stands at offset 36.
    pub fn read(cur: &mut Cursor) -> (r: Fat32)
        requires
            old(cur).pos == 36,
            old(cur).data@.len() >= 510,
        ensures
            final(cur).data@ == old(cur).data@,
            final(cur).pos == 510,
            r.parsed_from(old(cur).data@),
    {
        let bpb_fatsz32 = cur.read_u32_le();
        let bpb_extflags = cur.read_u16_le();
        let bpb_fsver = cur.read_array::<2>();
        let bpb_rootclus = cur.read_u32_le();
        let bpb_fsinfo = cur.read_u16_le();
        let bpb_bkbootsec = cur.read_u16_le();
        let bpb_reserved = cur.read_array::<12>();
        let bs_drvnum = cur.read_u8();
        let bs_reserved1 = cur.read_u8();
        let bs_bootsig = cur.read_u8();
        let bs_volid = cur.read_u32_le();
        let bs_vollab = cur.read_array::<11>();
        let bs_filsystype = cur.read_array::<8>();
        let boot_program = cur.read_array::<420>();
        Fat32 {
            bpb_fatsz32,
            bpb_extflags,
            bpb_fsver,
            bpb_rootclus,
            bpb_fsinfo,
            bpb_bkbootsec,
            bpb_reserved,
            bs_drvnum,
            bs_reserved1,
            bs_bootsig,
            bs_volid,
            bs_vollab,
            bs_filsystype,
            boot_program,
        }
    }
}

/// A decoded FAT Partition Boot Record. Both readings of the extended block
/// are kept; `determine_fat_type` says which one the volume uses.
#[derive(Copy, Clone, Debug, PartialEq, Eq)]
pub struct PBRFat {
    pub bs_jmpboot: [u8; 3],
    pub bs_oemname: [u8; 8],
    pub bpb_bytspersec: u16,
    pub bpb_secperclus: u8,
    pub bpb_rsvdseccnt: u16,
    pub bpb_numfats: u8,
    pub bpb_rootentcnt: u16,
    pub bpb_totsec16: u16,
    pub bpb_media: u8,
    pub bpb_fatsz16: u16,
    pub bpb_secpertrk: u16,
    pub bpb_numheads: u16,
    pub bpb_hiddsec: u32,
    pub bpb_totsec32: u32,
    pub fat12_16: Fat12_16,
    pub fat32: Fat32,
    pub last_signature: [u8; 2],
}

impl PBRFat {
    /// This record holds the 512 bytes of `s`, field by field, with both
    /// extended blocks read from offset 36.
    pub open spec fn parsed_from(&self, s: Seq<u8>) -> bool {
        &&& self.bs_jmpboot@ == s.subrange(0, 3)
        &&& self.bs_oemname@ == s.subrange(3, 11)
        &&& self.bpb_bytspersec == le_u16_at(s, 11)
        &&& self.bpb_secperclus == s[13]
        &&& self.bpb_rsvdseccnt == le_u16_at(s, 14)
        &&& self.bpb_numfats == s[16]
        &&& self.bpb_rootentcnt == le_u16_at(s, 17)
        &&& self.bpb_totsec16 == le_u16_at(s, 19)
        &&& self.bpb_media == s[21]
        &&& self.bpb_fatsz16 == le_u16_at(s, 22)
        &&& self.bpb_secpertrk == le_u16_at(s, 24)
        &&& self.bpb_numheads == le_u16_at(s, 26)
        &&& self.bpb_hiddsec == le_u32_at(s, 28)
        &&& self.bpb_totsec32 == le_u32_at(s, 32)
        &&& self.fat12_16.parsed_from(s)
        &&& self.fat32.parsed_from(s)
        &&& self.last_signature@ == s.subrange(510, 512)
    }

    /// Decodes a sector as a FAT Partition Boot Record. Nothing is
    /// validated.
    pub fn new(data: &[u8; 512]) -> (r: PBRFat)
        ensures
            r.parsed_from(data@),
    {
        let mut cur = Cursor::new(data.as_slice());
        let bs_jmpboot = cur.read_array::<3>();
        let bs_oemname = cur.read_array::<8>();
        let bpb_bytspersec = cur.read_u16_le();
        let bpb_secperclus = cur.read_u8();
        let bpb_rsvdseccnt = cur.read_u16_le();
        let bpb_numfats = cur.read_u8();
        let bpb_rootentcnt = cur.read_u16_le();
        let bpb_totsec16 = cur.read_u16_le();
        let bpb_media = cur.read_u8();
        let bpb_fatsz16 = cur.read_u16_le();
        let bpb_secpertrk = cur.read_u16_le();
        let bpb_numheads = cur.read_u16_le();
        let bpb_hiddsec = cur.read_u32_le();
        let bpb_totsec32 = cur.read_u32_le();
        let fat12_16 = Fat12_16::read(&mut cur);
        cur.seek(EXTENSION_OFFSET);
        let fat32 = Fat32::read(&mut cur);
        let last_signature = cur.read_array::<2>();
        PBRFat {
            bs_jmpboot,
            bs_oemname,
            bpb_bytspersec,
            bpb_secperclus,
            bpb_rsvdseccnt,
            bpb_numfats,
            bpb_rootentcnt,
            bpb_totsec16,
            bpb_media,
            bpb_fatsz16,
            bpb_secpertrk,
            bpb_numheads,
            bpb_hiddsec,
            bpb_totsec32,
            fat12_16,
            fat32,
            last_signature,
        }
    }

    /// Sectors taken by the root directory: 32 bytes per entry, rounded up
    /// to whole sectors.
    pub open spec fn root_dir_sectors(&self) -> int
        recommends
            self.bpb_bytspersec != 0,
    {
        (self.bpb_rootentcnt * 32 + self.bpb_bytspersec - 1) / (self.bpb_bytspersec as int)
    }

    /// Sectors per FAT: the 16-bit field, or the FAT32 one where it is zero.
    pub open spec fn fat_size(&self) -> int {
        if self.bpb_fatsz16 != 0 {
            self.bpb_fatsz16 as int
        } else {
            self.fat32.bpb_fatsz32 as int
        }
    }

    /// Sectors of the volume: the 16-bit field, or the 32-bit one where it
    /// is zero.
    pub open spec fn total_sectors(&self) -> int {
        if self.bpb_totsec16 != 0 {
            self.bpb_totsec16 as int
        } else {
            self.bpb_totsec32 as int
        }
    }

    /// Sectors before the data region: reserved sectors, the FATs and the
    /// root directory.
    pub open spec fn metadata_sectors(&self) -> int {
        self.bpb_rsvdseccnt + self.bpb_numfats * self.fat_size() + self.root_dir_sectors()
    }

    /// Number of whole clusters in the data region.
    pub open spec fn cluster_count(&self) -> int {
        (self.total_sectors() - self.metadata_sectors()) / (self.bpb_secperclus as int)
    }

    /// The FAT variant of the volume, or why it cannot be computed.
    pub open spec fn spec_fat_type(&self) -> Result<FATType, FatError> {
        if self.bpb_bytspersec == 0 {
            Err(FatError::ZeroBytesPerSector)
        } else if self.bpb_secperclus == 0 {
            Err(FatError::ZeroSectorsPerCluster)
        } else if self.metadata_sectors() > self.total_sectors() {
            Err(FatError::MetadataExceedsVolume)
        } else {
            Ok(fat_type_for_clusters(self.cluster_count()))
        }
    }

    /// Decides between FAT12, FAT16 and FAT32 by the number of data
    /// clusters.
    pub fn determine_fat_type(&self) -> (r: Result<FATType, FatError>)
        ensures
            r == self.spec_fat_type(),
    {
        if self.bpb_bytspersec == 0 {
            return Err(FatError::ZeroBytesPerSector);
        }
        if self.bpb_secperclus == 0 {
            return Err(FatError::ZeroSectorsPerCluster);
        }
        let bytes_per_sector = self.bpb_bytspersec as u64;
        let numerator = self.bpb_rootentcnt as u64 * 32 + bytes_per_sector - 1;
        let root_dir_sectors = numerator / bytes_per_sector;
        let fat_size: u64 = if self.bpb_fatsz16 != 0 {
            self.bpb_fatsz16 as u64
        } else {
            self.fat32.bpb_fatsz32 as u64
        };
        let total_sectors: u64 = if self.bpb_totsec16 != 0 {
            self.bpb_totsec16 as u64
        } else {
            self.bpb_totsec32 as u64
        };
        let num_fats = self.bpb_numfats as u64;
        assert(num_fats * fat_size <= 255 * 0xFFFF_FFFF) by (nonlinear_arith)
            requires
                num_fats <= 255,
                fat_size <= 0xFFFF_FFFF,
        ;
        assert(root_dir_sectors <= numerator) by (nonlinear_arith)
            requires
                bytes_per_sector >= 1,
                root_dir_sectors as int == numerator as int / bytes_per_sector as int,
        ;
        let metadata = self.bpb_rsvdseccnt as u64 + num_fats * fat_size + root_dir_sectors;
        if metadata > total_sectors {
            return Err(FatError::MetadataExceedsVolume);
        }
        let count = (total_sectors - metadata) / (self.bpb_secperclus as u64);
        Ok(fat_type_of_cluster_count(count))
    }

    /// The FAT variant together with the one extended block that it uses:
    /// the FAT12/16 block for FAT12 and FAT16, the FAT32 block for FAT32.
    pub fn extension(&self) -> (r: Result<(FATType, FatExtension<'_>), FatError>)
        ensures
            match r {
                Ok((t, ext)) => {
                    &&& self.spec_fat_type() == Ok::<FATType, FatError>(t)
                    &&& match ext {
                        FatExtension::Fat12_16(e) => t != FATType::FAT32 && *e == self.fat12_16,
                        FatExtension::Fat32(e) => t == FATType::FAT32 && *e == self.fat32,
                    }
                },
                Err(e) => self.spec_fat_type() == Err::<FATType, FatError>(e),
            },
    {
        match self.determine_fat_type() {
            Ok(FATType::FAT32) => Ok((FATType::FAT32, FatExtension::Fat32(&self.fat32))),
            Ok(t) => Ok((t, FatExtension::Fat12_16(&self.fat12_16))),
            Err(e) => Err(e),
        }
    }
}

impl PBRFat {
    /// The report of this record: jump and OEM name, the BIOS Parameter
    /// Block with its units, then the FAT variant and the fields of the one
    /// extended block that it selects, or why no variant could be computed.
    pub open spec fn spec_report_lines(&self) -> Seq<ReportLine> {
        seq![
            ReportLine::Title(BootSectorKind::PBRFat),
            ReportLine::Entry(Field::JmpBoot, Value::Raw3(self.bs_jmpboot)),
            ReportLine::Entry(Field::OemName, Value::Text8(self.bs_oemname)),
            ReportLine::ParameterBlockHeading,
            ReportLine::Entry(Field::SectorSize, Value::Bytes(self.bpb_bytspersec as u64)),
            ReportLine::Entry(Field::ClusterSize, Value::Sectors(self.bpb_secperclus as u64)),
            ReportLine::Entry(Field::ReservedSectorCount, Value::Sectors(self.bpb_rsvdseccnt as u64)),
            ReportLine::Entry(Field::NumFats, Value::Decimal(self.bpb_numfats as u64)),
            ReportLine::Entry(Field::RootEntryCount, Value::Decimal(self.bpb_rootentcnt as u64)),
            ReportLine::Entry(Field::TotalSectors16, Value::Sectors(self.bpb_totsec16 as u64)),
            ReportLine::Entry(Field::Media, Value::Hex(self.bpb_media as u64, 2)),
            ReportLine::Entry(Field::FatSize16, Value::Sectors(self.bpb_fatsz16 as u64)),
            ReportLine::Entry(Field::TrackSize, Value::Sectors(self.bpb_secpertrk as u64)),
            ReportLine::Entry(Field::NumHeads, Value::Decimal(self.bpb_numheads as u64)),
            ReportLine::Entry(Field::HiddenSectors, Value::Sectors(self.bpb_hiddsec as u64)),
            ReportLine::Entry(Field::TotalSectors32, Value::Sectors(self.bpb_totsec32 as u64)),
        ] + match self.spec_fat_type() {
            Ok(FATType::FAT32) => seq![ReportLine::Entry(Field::FatType, Value::Fat(FATType::FAT32))]
                + self.fat32.spec_report(),
            Ok(t) => seq![ReportLine::Entry(Field::FatType, Value::Fat(t))]
                + self.fat12_16.spec_report(),
            Err(e) => seq![ReportLine::Entry(Field::FatType, Value::FatUndetermined(e))],
        }
    }

    /// Lists the report lines of this record.
    pub fn report_lines(&self) -> (r: Vec<ReportLine>)
        ensures
            r@ == self.spec_report_lines(),
    {
        let mut out: Vec<ReportLine> = Vec::new();
        out.push(ReportLine::Title(BootSectorKind::PBRFat));
        out.push(ReportLine::Entry(Field::JmpBoot, Value::Raw3(self.bs_jmpboot)));
        out.push(ReportLine::Entry(Field::OemName, Value::Text8(self.bs_oemname)));
        out.push(ReportLine::ParameterBlockHeading);
        out.push(ReportLine::Entry(Field::SectorSize, Value::Bytes(self.bpb_bytspersec as u64)));
        out.push(ReportLine::Entry(Field::ClusterSize, Value::Sectors(self.bpb_secperclus as u64)));
        out.push(
            ReportLine::Entry(Field::ReservedSectorCount, Value::Sectors(self.bpb_rsvdseccnt as u64)),
        );
        out.push(ReportLine::Entry(Field::NumFats, Value::Decimal(self.bpb_numfats as u64)));
        out.push(ReportLine::Entry(Field::RootEntryCount, Value::Decimal(self.bpb_rootentcnt as u64)));
        out.push(ReportLine::Entry(Field::TotalSectors16, Value::Sectors(self.bpb_totsec16 as u64)));
        out.push(ReportLine::Entry(Field::Media, Value::Hex(self.bpb_media as u64, 2)));
        out.push(ReportLine::Entry(Field::FatSize16, Value::Sectors(self.bpb_fatsz16 as u64)));
        out.push(ReportLine::Entry(Field::TrackSize, Value::Sectors(self.bpb_secpertrk as u64)));
        out.push(ReportLine::Entry(Field::NumHeads, Value::Decimal(self.bpb_numheads as u64)));
        out.push(ReportLine::Entry(Field::HiddenSectors, Value::Sectors(self.bpb_hiddsec as u64)));
        out.push(ReportLine::Entry(Field::TotalSectors32, Value::Sectors(self.bpb_totsec32 as u64)));
        match self.extension() {
            Ok((t, FatExtension::Fat32(e))) => {
                out.push(ReportLine::Entry(Field::FatType, Value::Fat(t)));
                e.report_into(&mut out);
            },
            Ok((t, FatExtension::Fat12_16(e))) => {
                out.push(ReportLine::Entry(Field::FatType, Value::Fat(t)));
                e.report_into(&mut out);
            },
            Err(e) => {
                out.push(ReportLine::Entry(Field::FatType, Value::FatUndetermined(e)));
            },
        }
        assert(out@ =~= self.spec_report_lines());
        out
    }
}

/// The extended block that a volume's FAT variant gives meaning to.
#[derive(Copy, Clone, Debug)]
pub enum FatExtension<'a> {
    Fat12_16(&'a Fat12_16),
    Fat32(&'a Fat32),
}

} // verus!
