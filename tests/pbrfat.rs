use bootsector::pbrfat::fat_type_of_cluster_count;
use bootsector::{FATType, FatError, FatExtension, Fat12_16, Fat32, PBRFat};

#[test]
fn test_pbrfat_new() {
    let mut data = [0u8; 512];
    let mut b = 0u8;
    for d in data.iter_mut() {
        match b.checked_add(1) {
            Some(n) => {
                *d = n;
                b = n;
            }
            None => b = 0u8,
        }
    }
    let pbrfat = PBRFat::new(&data);
    assert_eq!(pbrfat.bs_jmpboot, data[0..3]);
    assert_eq!(pbrfat.bs_oemname, data[3..11]);
    let tmp: [u8; 2] = (&data[11..13]).try_into().unwrap();
    assert_eq!(pbrfat.bpb_bytspersec, u16::from_le_bytes(tmp));
}

/// A sector whose BPB describes the given geometry.
fn bpb(
    bytes_per_sector: u16,
    sectors_per_cluster: u8,
    reserved: u16,
    num_fats: u8,
    root_entries: u16,
    total16: u16,
    fat16: u16,
    total32: u32,
    fat32: u32,
) -> [u8; 512] {
    let mut d = [0u8; 512];
    d[0] = 0xEB;
    d[1] = 0x3C;
    d[2] = 0x90;
    d[3..11].copy_from_slice(b"MSWIN4.1");
    d[11..13].copy_from_slice(&bytes_per_sector.to_le_bytes());
    d[13] = sectors_per_cluster;
    d[14..16].copy_from_slice(&reserved.to_le_bytes());
    d[16] = num_fats;
    d[17..19].copy_from_slice(&root_entries.to_le_bytes());
    d[19..21].copy_from_slice(&total16.to_le_bytes());
    d[21] = 0xF8;
    d[22..24].copy_from_slice(&fat16.to_le_bytes());
    d[24..26].copy_from_slice(&63u16.to_le_bytes());
    d[26..28].copy_from_slice(&255u16.to_le_bytes());
    d[28..32].copy_from_slice(&2048u32.to_le_bytes());
    d[32..36].copy_from_slice(&total32.to_le_bytes());
    d[36..40].copy_from_slice(&fat32.to_le_bytes());
    d[510] = 0x55;
    d[511] = 0xAA;
    d
}

/// A volume with no metadata, one sector per cluster and `n` clusters.
fn with_clusters(n: u32) -> PBRFat {
    if n <= 0xFFFF {
        PBRFat::new(&bpb(512, 1, 0, 0, 0, n as u16, 0, 0, 0))
    } else {
        PBRFat::new(&bpb(512, 1, 0, 0, 0, 0, 0, n, 0))
    }
}

#[test]
fn cluster_count_boundaries() {
    assert_eq!(fat_type_of_cluster_count(0), FATType::FAT12);
    assert_eq!(fat_type_of_cluster_count(4084), FATType::FAT12);
    assert_eq!(fat_type_of_cluster_count(4085), FATType::FAT16);
    assert_eq!(fat_type_of_cluster_count(65524), FATType::FAT16);
    assert_eq!(fat_type_of_cluster_count(65525), FATType::FAT32);
    assert_eq!(fat_type_of_cluster_count(u64::MAX), FATType::FAT32);
}

#[test]
fn fat_type_boundaries_through_the_record() {
    assert_eq!(with_clusters(4084).determine_fat_type(), Ok(FATType::FAT12));
    assert_eq!(with_clusters(4085).determine_fat_type(), Ok(FATType::FAT16));
    assert_eq!(with_clusters(65524).determine_fat_type(), Ok(FATType::FAT16));
    assert_eq!(with_clusters(65525).determine_fat_type(), Ok(FATType::FAT32));
}

#[test]
fn cluster_count_formula() {
    // 1.44 MB floppy: 2880 sectors, 1 reserved, 2 FATs of 9, 224 root
    // entries (14 sectors): (2880 - 33) / 1 = 2847 clusters.
    let floppy = PBRFat::new(&bpb(512, 1, 1, 2, 224, 2880, 9, 0, 0));
    assert_eq!(floppy.determine_fat_type(), Ok(FATType::FAT12));
    // Root directory rounds up: 225 entries take 15 sectors, so
    // 4085 + 15 sectors leave 4085 clusters and 4084 + 15 leave 4084.
    let edge = PBRFat::new(&bpb(512, 1, 0, 0, 225, 4085 + 15, 0, 0, 0));
    assert_eq!(edge.determine_fat_type(), Ok(FATType::FAT16));
    let edge = PBRFat::new(&bpb(512, 1, 0, 0, 225, 4084 + 15, 0, 0, 0));
    assert_eq!(edge.determine_fat_type(), Ok(FATType::FAT12));
    // Clusters of 8 sectors: 8 * 65525 + 7 data sectors are 65525 clusters.
    let big = PBRFat::new(&bpb(512, 8, 32, 2, 0, 0, 0, 32 + 2 * 1000 + 8 * 65525 + 7, 1000));
    assert_eq!(big.fat32.bpb_fatsz32, 1000);
    assert_eq!(big.determine_fat_type(), Ok(FATType::FAT32));
    let below = PBRFat::new(&bpb(512, 8, 32, 2, 0, 0, 0, 32 + 2 * 1000 + 8 * 65525 - 1, 1000));
    assert_eq!(below.determine_fat_type(), Ok(FATType::FAT16));
}

#[test]
fn sixteen_bit_fields_take_precedence() {
    // totsec16 and fatsz16 win over their 32-bit counterparts when nonzero.
    let r = PBRFat::new(&bpb(512, 1, 0, 1, 0, 5000, 10, 900_000, 900_000));
    assert_eq!(r.determine_fat_type(), Ok(FATType::FAT16));
}

#[test]
fn malformed_fields_are_errors() {
    let r = PBRFat::new(&bpb(512, 0, 1, 2, 224, 2880, 9, 0, 0));
    assert_eq!(r.determine_fat_type(), Err(FatError::ZeroSectorsPerCluster));
    let r = PBRFat::new(&bpb(0, 1, 1, 2, 224, 2880, 9, 0, 0));
    assert_eq!(r.determine_fat_type(), Err(FatError::ZeroBytesPerSector));
    let r = PBRFat::new(&bpb(512, 1, 100, 2, 224, 50, 9, 0, 0));
    assert_eq!(r.determine_fat_type(), Err(FatError::MetadataExceedsVolume));
    assert!(r.extension().is_err());
    assert_eq!(PBRFat::new(&[0u8; 512]).determine_fat_type(), Err(FatError::ZeroBytesPerSector));
}

#[test]
fn both_extensions_read_from_offset_36() {
    let mut d = [0u8; 512];
    for (i, b) in d.iter_mut().enumerate() {
        *b = (i % 256) as u8;
    }
    let r = PBRFat::new(&d);
    assert_eq!(r.bpb_bytspersec, u16::from_le_bytes([11, 12]));
    assert_eq!(r.bpb_secperclus, 13);
    assert_eq!(r.bpb_hiddsec, u32::from_le_bytes([28, 29, 30, 31]));
    assert_eq!(r.bpb_totsec32, u32::from_le_bytes([32, 33, 34, 35]));
    assert_eq!(r.fat12_16.bs_drvnum, 36);
    assert_eq!(r.fat12_16.bs_volid, u32::from_le_bytes([39, 40, 41, 42]));
    assert_eq!(r.fat12_16.bs_vollab, d[43..54]);
    assert_eq!(r.fat12_16.bs_filsystype, d[54..62]);
    assert_eq!(r.fat12_16.boot_program, d[62..510]);
    assert_eq!(r.fat32.bpb_fatsz32, u32::from_le_bytes([36, 37, 38, 39]));
    assert_eq!(r.fat32.bpb_extflags, u16::from_le_bytes([40, 41]));
    assert_eq!(r.fat32.bpb_fsver, [42, 43]);
    assert_eq!(r.fat32.bpb_rootclus, u32::from_le_bytes([44, 45, 46, 47]));
    assert_eq!(r.fat32.bpb_fsinfo, u16::from_le_bytes([48, 49]));
    assert_eq!(r.fat32.bpb_bkbootsec, u16::from_le_bytes([50, 51]));
    assert_eq!(r.fat32.bs_drvnum, 64);
    assert_eq!(r.fat32.bs_volid, u32::from_le_bytes([67, 68, 69, 70]));
    assert_eq!(r.fat32.bs_vollab, d[71..82]);
    assert_eq!(r.fat32.bs_filsystype, d[82..90]);
    assert_eq!(r.fat32.boot_program, d[90..510]);
    assert_eq!(r.last_signature, [254, 255]);
}

#[test]
fn extension_follows_fat_type() {
    let floppy = PBRFat::new(&bpb(512, 1, 1, 2, 224, 2880, 9, 0, 0));
    match floppy.extension() {
        Ok((FATType::FAT12, FatExtension::Fat12_16(e))) => assert_eq!(*e, floppy.fat12_16),
        other => panic!("unexpected {:?}", other),
    }
    let big = with_clusters(70000);
    match big.extension() {
        Ok((FATType::FAT32, FatExtension::Fat32(e))) => assert_eq!(*e, big.fat32),
        other => panic!("unexpected {:?}", other),
    }
}

#[test]
fn empty_extensions_are_zero() {
    let a = Fat12_16::new();
    assert_eq!(a.bs_volid, 0);
    assert_eq!(a.boot_program, [0u8; 448]);
    let b = Fat32::new();
    assert_eq!(b.bpb_fatsz32, 0);
    assert_eq!(b.boot_program, [0u8; 420]);
}
