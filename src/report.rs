//! The content of a boot-sector report: which fields appear, in which order,
//! and how each value is to be shown. Turning a line into text is left to the
//! caller.

use vstd::prelude::*;
use crate::bootsector::BootSectorKind;
use crate::mbr::Chs;
use crate::pbrfat::{FATType, FatError};
use vstd::utf8::{decode_utf8, valid_utf8};

verus! {

/// The fields a report can name.
#[derive(Copy, Clone, Debug, PartialEq, Eq, Structural)]
pub enum Field {
    ActiveFlag,
    ChsStart,
    PartitionType,
    ChsEnd,
    LbaStart,
    NumberOfSectors,
    BootSignature,
    JmpBoot,
    OemName,
    SectorSize,
    ClusterSize,
    ReservedSectorCount,
    NumFats,
    RootEntryCount,
    TotalSectors16,
    Media,
    FatSize16,
    TrackSize,
    NumHeads,
    HiddenSectors,
    TotalSectors32,
    FatType,
    DriveNum,
    Reserved,
    VolumeSerial,
    VolumeLabel,
    FileSystemType,
    FatSize32,
    Flags,
    Version,
    RootDirCluster,
    FsInfo,
    BackupBootSector,
}

/// A value and the way it is to be shown.
#[derive(Copy, Clone, Debug, PartialEq, Eq)]
pub enum Value {
    /// In decimal.
    Decimal(u64),
    /// In hexadecimal, padded to the given number of digits.
    Hex(u64, u8),
    /// As sixteen binary digits.
    Binary16(u16),
    /// A count of bytes.
    Bytes(u64),
    /// A count of sectors.
    Sectors(u64),
    /// A version as major and minor number.
    Version(u8, u8),
    /// An unpacked CHS address.
    Address(Chs),
    /// Three raw bytes, each in hexadecimal.
    Raw3([u8; 3]),
    /// Eight bytes meant as text.
    Text8([u8; 8]),
    /// Eleven bytes meant as text.
    Text11([u8; 11]),
    /// The FAT variant.
    Fat(FATType),
    /// The FAT variant could not be determined.
    FatUndetermined(FatError),
}

/// One line of a report.
#[derive(Copy, Clone, Debug, PartialEq, Eq)]
pub enum ReportLine {
    /// The kind of sector the report describes.
    Title(BootSectorKind),
    /// The heading of the partition entry with this index.
    PartitionHeading(u8),
    /// The heading of the BIOS Parameter Block.
    ParameterBlockHeading,
    /// A named field and its value.
    Entry(Field, Value),
}

/// Relies on std::str::from_utf8: it succeeds exactly on well-formed UTF-8,
/// and the text it returns is the characters those bytes encode.
#[verifier::external_body]
fn utf8_str(bytes: &[u8]) -> (r: Option<&str>)
    ensures
        r is Some <==> valid_utf8(bytes@),
        r matches Some(s) ==> s@ == decode_utf8(bytes@),
{
    std::str::from_utf8(bytes).ok()
}

/// The text held by a text field, or `None` where its bytes are not UTF-8,
/// in which case a report shows a warning in place of the text.
pub fn field_text(bytes: &[u8]) -> (r: Option<String>)
    ensures
        r is Some <==> valid_utf8(bytes@),
        r matches Some(t) ==> t@ == decode_utf8(bytes@),
{
    match utf8_str(bytes) {
        Some(s) => Some(s.to_owned()),
        None => None,
    }
}

} // verus!
