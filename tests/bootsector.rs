use bootsector::{decode, infer, BootSector, BootSectorKind, BootSectorRecord, MBR};

fn signed_sector() -> [u8; 512] {
    let mut data = [0u8; 512];
    data[510] = 0x55;
    data[511] = 0xAA;
    data
}

#[test]
fn test_bootsector_mbr() {
    let mut data = [0u8; 512];
    let mut b = 0u8;
    for d in data.iter_mut() {
        match b.checked_add(1) {
            Some(n) => {
                *d = n;
                b = n;
            }
            None => b = 0u8,
        }
    }
    let mbr = MBR::new(&data);
    assert_eq!(mbr.boot_code, data[0..446]);
    assert_eq!(mbr.boot_signature, data[510..512]);
}

#[test]
fn test_infer() {
    let data: [u8; 512] = [0; 512];
    assert_eq!(infer(&data), BootSectorKind::Unknown);
    let data = signed_sector();
    assert_eq!(infer(&data), BootSectorKind::MBR);
    let mut data = signed_sector();
    data[0] = 0xEB;
    data[2] = 0x90;
    assert_eq!(infer(&data), BootSectorKind::PBRFat);
}

#[test]
fn all_zero_sector_is_unknown() {
    assert_eq!(infer(&[0u8; 512]), BootSectorKind::Unknown);
}

#[test]
fn missing_signature_is_unknown_whatever_else() {
    let mut data = [0u8; 512];
    data[0] = 0xEB;
    data[2] = 0x90;
    data[0x1BE] = 0x80;
    data[510] = 0x55;
    data[511] = 0x00;
    assert_eq!(infer(&data), BootSectorKind::Unknown);
    data[510] = 0xAA;
    data[511] = 0x55;
    assert_eq!(infer(&data), BootSectorKind::Unknown);
    data[510] = 0x00;
    data[511] = 0xAA;
    assert_eq!(infer(&data), BootSectorKind::Unknown);
}

#[test]
fn jump_takes_precedence_over_active_flag() {
    for flag in [0x00u8, 0x80u8] {
        let mut data = signed_sector();
        data[0] = 0xEB;
        data[1] = 0x3C;
        data[2] = 0x90;
        data[0x1BE] = flag;
        assert_eq!(infer(&data), BootSectorKind::PBRFat);
    }
}

#[test]
fn near_jump_is_pbr() {
    let mut data = signed_sector();
    data[0] = 0xE9;
    data[0x1BE] = 0x42;
    assert_eq!(infer(&data), BootSectorKind::PBRFat);
}

#[test]
fn short_jump_without_nop_is_not_pbr() {
    let mut data = signed_sector();
    data[0] = 0xEB;
    data[2] = 0x00;
    data[0x1BE] = 0x80;
    assert_eq!(infer(&data), BootSectorKind::MBR);
    data[0x1BE] = 0x01;
    assert_eq!(infer(&data), BootSectorKind::Unknown);
}

#[test]
fn invalid_active_flag_is_unknown() {
    let mut data = signed_sector();
    data[0x1BE] = 0x7F;
    assert_eq!(infer(&data), BootSectorKind::Unknown);
}

#[test]
fn decode_dispatches_on_kind() {
    let mut data = signed_sector();
    data[0x1BE] = 0x80;
    match decode(&data) {
        BootSectorRecord::Mbr(m) => {
            assert_eq!(m.partition_table[0].active, 0x80);
            assert_eq!(m.kind(), BootSectorKind::MBR);
            assert_eq!(m.signature(), [0x55, 0xAA]);
        }
        other => panic!("expected an MBR, got {:?}", other),
    }
    data[0] = 0xE9;
    match decode(&data) {
        BootSectorRecord::PbrFat(p) => {
            assert_eq!(p.bs_jmpboot, [0xE9, 0, 0]);
            assert_eq!(p.kind(), BootSectorKind::PBRFat);
            assert_eq!(p.signature(), [0x55, 0xAA]);
        }
        other => panic!("expected a PBR, got {:?}", other),
    }
    assert!(matches!(decode(&[0u8; 512]), BootSectorRecord::Unknown));
}
