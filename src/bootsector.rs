//! Classification of a sector, and the records it decodes into.

use vstd::prelude::*;
use crate::mbr::MBR;
use crate::pbrfat::PBRFat;
use crate::report::ReportLine;

verus! {

/// Size of a boot sector in bytes.
pub const SECTOR_SIZE: usize = 512;

/// What a 512-byte sector holds.
#[derive(Copy, Clone, Debug, PartialEq, Eq, Structural)]
pub enum BootSectorKind {
    MBR,
    PBRFat,
    Unknown,
}

/// Bytes 510 and 511 hold 0x55 and 0xAA.
pub open spec fn has_boot_signature(s: Seq<u8>) -> bool {
    s[510] == 0x55 && s[511] == 0xAA
}

/// The sector starts with one of the two x86 jumps that FAT boot records use
/// to skip the BIOS Parameter Block: `EB xx 90` or `E9`.
pub open spec fn has_fat_jump(s: Seq<u8>) -> bool {
    (s[0] == 0xEB && s[2] == 0x90) || s[0] == 0xE9
}

/// The active flag of the first partition entry (offset 0x1BE) is 0x00 or
/// 0x80.
pub open spec fn has_partition_flag(s: Seq<u8>) -> bool {
    s[0x1BE] == 0x00 || s[0x1BE] == 0x80
}

/// The kind of a sector: the signature gates everything, then the jump
/// instruction, then the first active flag.
pub open spec fn spec_classify(s: Seq<u8>) -> BootSectorKind {
    if !has_boot_signature(s) {
        BootSectorKind::Unknown
    } else if has_fat_jump(s) {
        BootSectorKind::PBRFat
    } else if has_partition_flag(s) {
        BootSectorKind::MBR
    } else {
        BootSectorKind::Unknown
    }
}

/// Classifies a 512-byte sector.
pub fn infer(data: &[u8]) -> (r: BootSectorKind)
    requires
        data@.len() == SECTOR_SIZE,
    ensures
        r == spec_classify(data@),
{
    if !(data[510] == 0x55 && data[511] == 0xAA) {
        BootSectorKind::Unknown
    } else if (data[0] == 0xEB && data[2] == 0x90) || data[0] == 0xE9 {
        BootSectorKind::PBRFat
    } else if data[0x1BE] == 0x00 || data[0x1BE] == 0x80 {
        BootSectorKind::MBR
    } else {
        BootSectorKind::Unknown
    }
}

/// Every sector is of exactly one kind.
pub proof fn lemma_classify_total(s: Seq<u8>)
    requires
        s.len() == SECTOR_SIZE,
    ensures
        spec_classify(s) is MBR || spec_classify(s) is PBRFat || spec_classify(s) is Unknown,
        !(spec_classify(s) is MBR && spec_classify(s) is PBRFat),
        !(spec_classify(s) is MBR && spec_classify(s) is Unknown),
        !(spec_classify(s) is PBRFat && spec_classify(s) is Unknown),
{
}

/// A sector without the 0x55 0xAA signature is `Unknown`, whatever its other
/// bytes hold.
pub proof fn lemma_signature_gate(s: Seq<u8>)
    requires
        s.len() == SECTOR_SIZE,
        s[510] != 0x55 || s[511] != 0xAA,
    ensures
        spec_classify(s) == BootSectorKind::Unknown,
{
}

/// A signed sector that starts with a FAT jump is `PBRFat`, whatever the
/// first active flag holds.
pub proof fn lemma_jump_before_partition_flag(s: Seq<u8>)
    requires
        s.len() == SECTOR_SIZE,
        has_boot_signature(s),
        has_fat_jump(s),
    ensures
        spec_classify(s) == BootSectorKind::PBRFat,
{
}

/// What a decoded record reports of itself.
pub trait BootSector {
    /// The kind of sector the record was decoded as.
    spec fn spec_kind(&self) -> BootSectorKind;

    /// The two bytes at offset 510.
    spec fn spec_signature(&self) -> Seq<u8>;

    /// The lines of the record's report.
    spec fn spec_report(&self) -> Seq<ReportLine>;

    fn kind(&self) -> (r: BootSectorKind)
        ensures
            r == self.spec_kind(),
    ;

    fn signature(&self) -> (r: [u8; 2])
        ensures
            r@ == self.spec_signature(),
    ;

    fn report(&self) -> (r: Vec<ReportLine>)
        ensures
            r@ == self.spec_report(),
    ;
}

impl BootSector for MBR {
    open spec fn spec_kind(&self) -> BootSectorKind {
        BootSectorKind::MBR
    }

    open spec fn spec_signature(&self) -> Seq<u8> {
        self.boot_signature@
    }

    fn kind(&self) -> (r: BootSectorKind) {
        BootSectorKind::MBR
    }

    fn signature(&self) -> (r: [u8; 2]) {
        self.boot_signature
    }

    open spec fn spec_report(&self) -> Seq<ReportLine> {
        self.spec_report_lines()
    }

    fn report(&self) -> (r: Vec<ReportLine>) {
        self.report_lines()
    }
}

impl BootSector for PBRFat {
    open spec fn spec_kind(&self) -> BootSectorKind {
        BootSectorKind::PBRFat
    }

    open spec fn spec_signature(&self) -> Seq<u8> {
        self.last_signature@
    }

    fn kind(&self) -> (r: BootSectorKind) {
        BootSectorKind::PBRFat
    }

    fn signature(&self) -> (r: [u8; 2]) {
        self.last_signature
    }

    open spec fn spec_report(&self) -> Seq<ReportLine> {
        self.spec_report_lines()
    }

    fn report(&self) -> (r: Vec<ReportLine>) {
        self.report_lines()
    }
}

/// A sector decoded according to its kind.
#[derive(Copy, Clone, Debug)]
pub enum BootSectorRecord {
    Mbr(MBR),
    PbrFat(PBRFat),
    Unknown,
}

/// Classifies a sector and decodes it with the matching layout.
pub fn decode(data: &[u8; 512]) -> (r: BootSectorRecord)
    ensures
        match spec_classify(data@) {
            BootSectorKind::MBR => r matches BootSectorRecord::Mbr(m) && m.parsed_from(data@),
            BootSectorKind::PBRFat => r matches BootSectorRecord::PbrFat(p) && p.parsed_from(
                data@,
            ),
            BootSectorKind::Unknown => r is Unknown,
        },
{
    match infer(data.as_slice()) {
        BootSectorKind::MBR => BootSectorRecord::Mbr(MBR::new(data)),
        BootSectorKind::PBRFat => BootSectorRecord::PbrFat(PBRFat::new(data)),
        BootSectorKind::Unknown => BootSectorRecord::Unknown,
    }
}

} // verus!
