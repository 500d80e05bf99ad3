//! Decoding of 512-byte boot sectors: classification, MBR partition tables
//! and FAT partition boot records.

pub mod bootsector;
pub mod mbr;
pub mod pbrfat;
pub mod reader;
pub mod report;

pub use bootsector::{decode, infer, BootSector, BootSectorKind, BootSectorRecord};
pub use mbr::{decode_chs, Chs, Partition, MBR};
pub use pbrfat::{FATType, FatError, FatExtension, Fat12_16, Fat32, PBRFat};
pub use report::{field_text, Field, ReportLine, Value};
