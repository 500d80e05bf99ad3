//! The Master Boot Record: bootstrap code, four partition entries and the
//! boot signature.

use vstd::prelude::*;
use crate::bootsector::BootSectorKind;
use crate::reader::{
    le_u16_at, le_u32_at, lemma_le_u32_at_bytes, lemma_u32_le_bytes_read, push_bytes, push_u32_le, u32_le_bytes, Cursor,
};
use crate::report::{Field, ReportLine, Value};

verus! {

/// One entry of the partition table, fields in on-disk order.
#[derive(Copy, Clone, Debug, PartialEq, Eq)]
pub struct Partition {
    /// 0x80 bootable, 0x00 inactive; any other value is kept as read.
    pub active: u8,
    pub chs_start: [u8; 3],
    /// The partition type code.
    pub kind: u8,
    pub chs_end: [u8; 3],
    pub lba_start: u32,
    /// Number of sectors.
    pub size: u32,
}

/// A cylinder / head / sector address unpacked from its three on-disk bytes.
#[derive(Copy, Clone, Debug, PartialEq, Eq)]
pub struct Chs {
    /// 10 bits.
    pub cylinder: u16,
    /// 8 bits.
    pub head: u8,
    /// 6 bits.
    pub sector: u8,
}

/// The CHS address packed in three bytes.
pub open spec fn spec_decode_chs(b: Seq<u8>) -> Chs {
    Chs { cylinder: ((b[1] / 64) * 256 + b[2]) as u16, head: b[0], sector: (b[1] % 64) as u8 }
}

/// Unpacks a CHS address: the head is byte 0, the sector the low six bits
/// of byte 1, and the cylinder the top two bits of byte 1 above byte 2.
pub fn decode_chs(chs: &[u8; 3]) -> (r: Chs)
    ensures
        r == spec_decode_chs(chs@),
        r.head == chs@[0],
        r.sector == chs@[1] % 64,
        r.cylinder == (chs@[1] / 64) * 256 + chs@[2],
        r.cylinder < 1024,
{
    let b1 = chs[1];
    let b2 = chs[2];
    let x = b1 as u16;
    let y = b2 as u16;
    let cylinder: u16 = ((x & 0xC0) << 2) | y;
    let sector: u8 = b1 & 0x3F;
    assert(((x & 0xC0) << 2) | y == (x / 64) * 256 + y) by (bit_vector)
        requires
            x < 256,
            y < 256,
    ;
    assert(b1 & 0x3F == b1 % 64) by (bit_vector);
    Chs { cylinder, head: chs[0], sector }
}

impl Partition {
    /// An all-zero entry.
    pub fn new() -> (r: Partition)
        ensures
            r.active == 0,
            r.chs_start@ == seq![0u8, 0u8, 0u8],
            r.kind == 0,
            r.chs_end@ == seq![0u8, 0u8, 0u8],
            r.lba_start == 0,
            r.size == 0,
    {
        let r = Partition {
            active: 0u8,
            chs_start: [0u8; 3],
            kind: 0u8,
            chs_end: [0u8; 3],
            lba_start: 0u32,
            size: 0u32,
        };
        assert(r.chs_start@ =~= seq![0u8, 0u8, 0u8]);
        assert(r.chs_end@ =~= seq![0u8, 0u8, 0u8]);
        r
    }

    /// The sixteen on-disk bytes of this entry.
    pub open spec fn spec_bytes(self) -> Seq<u8> {
        seq![self.active] + self.chs_start@ + seq![self.kind] + self.chs_end@ + u32_le_bytes(
            self.lba_start,
        ) + u32_le_bytes(self.size)
    }

    /// This entry holds the sixteen bytes of `s` that start at `off`.
    pub open spec fn parsed_from(self, s: Seq<u8>, off: int) -> bool {
        &&& self.active == s[off]
        &&& self.chs_start@ == s.subrange(off + 1, off + 4)
        &&& self.kind == s[off + 4]
        &&& self.chs_end@ == s.subrange(off + 5, off + 8)
        &&& self.lba_start == le_u32_at(s, off + 8)
        &&& self.size == le_u32_at(s, off + 12)
    }

    /// Reads one entry at the cursor.
    pub fn read(cur: &mut Cursor) -> (r: Partition)
        requires
            old(cur).pos + 16 <= old(cur).data@.len(),
        ensures
            final(cur).data@ == old(cur).data@,
            final(cur).pos == old(cur).pos + 16,
            r.parsed_from(old(cur).data@, old(cur).pos as int),
    {
        let active = cur.read_u8();
        let chs_start = cur.read_array::<3>();
        let kind = cur.read_u8();
        let chs_end = cur.read_array::<3>();
        let lba_start = cur.read_u32_le();
        let size = cur.read_u32_le();
        Partition { active, chs_start, kind, chs_end, lba_start, size }
    }

    /// Appends the sixteen on-disk bytes of this entry to `out`.
    pub fn write(&self, out: &mut Vec<u8>)
        ensures
            final(out)@ == old(out)@ + self.spec_bytes(),
    {
        out.push(self.active);
        push_bytes(out, self.chs_start.as_slice());
        out.push(self.kind);
        push_bytes(out, self.chs_end.as_slice());
        push_u32_le(out, self.lba_start);
        push_u32_le(out, self.size);
        assert(out@ =~= old(out)@ + self.spec_bytes());
    }

    /// The report lines of this entry, under the heading with `index`.
    pub open spec fn spec_report(self, index: u8) -> Seq<ReportLine> {
        seq![
            ReportLine::PartitionHeading(index),
            ReportLine::Entry(Field::ActiveFlag, Value::Hex(self.active as u64, 2)),
            ReportLine::Entry(Field::ChsStart, Value::Address(spec_decode_chs(self.chs_start@))),
            ReportLine::Entry(Field::PartitionType, Value::Decimal(self.kind as u64)),
            ReportLine::Entry(Field::ChsEnd, Value::Address(spec_decode_chs(self.chs_end@))),
            ReportLine::Entry(Field::LbaStart, Value::Hex(self.lba_start as u64, 8)),
            ReportLine::Entry(Field::NumberOfSectors, Value::Hex(self.size as u64, 8)),
        ]
    }

    /// Appends the report lines of this entry to `out`.
    pub fn report_into(&self, index: u8, out: &mut Vec<ReportLine>)
        ensures
            final(out)@ == old(out)@ + self.spec_report(index),
    {
        out.push(ReportLine::PartitionHeading(index));
        out.push(ReportLine::Entry(Field::ActiveFlag, Value::Hex(self.active as u64, 2)));
        out.push(ReportLine::Entry(Field::ChsStart, Value::Address(decode_chs(&self.chs_start))));
        out.push(ReportLine::Entry(Field::PartitionType, Value::Decimal(self.kind as u64)));
        out.push(ReportLine::Entry(Field::ChsEnd, Value::Address(decode_chs(&self.chs_end))));
        out.push(ReportLine::Entry(Field::LbaStart, Value::Hex(self.lba_start as u64, 8)));
        out.push(ReportLine::Entry(Field::NumberOfSectors, Value::Hex(self.size as u64, 8)));
        assert(out@ =~= old(out)@ + self.spec_report(index));
    }

    /// The unpacked start address.
    pub fn chs_start_address(&self) -> (r: Chs)
        ensures
            r.head == self.chs_start@[0],
            r.sector == self.chs_start@[1] % 64,
            r.cylinder == (self.chs_start@[1] / 64) * 256 + self.chs_start@[2],
    {
        decode_chs(&self.chs_start)
    }

    /// The unpacked end address.
    pub fn chs_end_address(&self) -> (r: Chs)
        ensures
            r.head == self.chs_end@[0],
            r.sector == self.chs_end@[1] % 64,
            r.cylinder == (self.chs_end@[1] / 64) * 256 + self.chs_end@[2],
    {
        decode_chs(&self.chs_end)
    }
}

/// An entry read from sixteen bytes writes back exactly those bytes.
pub proof fn lemma_partition_round_trip(p: Partition, s: Seq<u8>, off: int)
    requires
        0 <= off,
        off + 16 <= s.len(),
        p.parsed_from(s, off),
    ensures
        p.spec_bytes() == s.subrange(off, off + 16),
{
    lemma_le_u32_at_bytes(s, off + 8);
    lemma_le_u32_at_bytes(s, off + 12);
    assert(p.spec_bytes() =~= s.subrange(off, off + 16));
}

/// The bytes an entry writes read back as that entry.
pub proof fn lemma_partition_encode_decode(p: Partition, s: Seq<u8>, off: int)
    requires
        0 <= off,
        off + 16 <= s.len(),
        s.subrange(off, off + 16) == p.spec_bytes(),
    ensures
        p.parsed_from(s, off),
{
    let b = p.spec_bytes();
    assert forall|k: int| 0 <= k < 16 implies s[off + k] == b[k] by {
        assert(s.subrange(off, off + 16)[k] == s[off + k]);
    }
    lemma_u32_le_bytes_read(p.lba_start);
    lemma_u32_le_bytes_read(p.size);
    assert(b.subrange(1, 4) =~= p.chs_start@);
    assert(b.subrange(5, 8) =~= p.chs_end@);
    assert(b.subrange(8, 12) == u32_le_bytes(p.lba_start));
    assert(b.subrange(12, 16) == u32_le_bytes(p.size));
    let lba = u32_le_bytes(p.lba_start);
    let size = u32_le_bytes(p.size);
    assert(s[off + 8] == lba[0] && s[off + 9] == lba[1] && s[off + 10] == lba[2] && s[off + 11]
        == lba[3]);
    assert(s[off + 12] == size[0] && s[off + 13] == size[1] && s[off + 14] == size[2] && s[off
        + 15] == size[3]);
    assert(p.chs_start@ =~= s.subrange(off + 1, off + 4));
    assert(p.chs_end@ =~= s.subrange(off + 5, off + 8));
    assert(b[0] == p.active && s[off] == b[0]);
    assert(b[4] == p.kind && s[off + 4] == b[4]);
}

/// A decoded Master Boot Record.
#[derive(Copy, Clone, Debug, PartialEq, Eq)]
pub struct MBR {
    pub boot_code: [u8; 446],
    pub partition_table: [Partition; 4],
    pub boot_signature: [u8; 2],
}

impl MBR {
    /// This record holds the 512 bytes of `s`, field by field.
    pub open spec fn parsed_from(&self, s: Seq<u8>) -> bool {
        &&& self.boot_code@ == s.subrange(0, 446)
        &&& forall|i: int|
            0 <= i < 4 ==> (#[trigger] self.partition_table@[i]).parsed_from(s, 446 + 16 * i)
        &&& self.boot_signature@ == s.subrange(510, 512)
    }

    /// The 512 on-disk bytes of this record.
    pub open spec fn spec_bytes(&self) -> Seq<u8> {
        self.boot_code@ + self.partition_table@[0].spec_bytes()
            + self.partition_table@[1].spec_bytes() + self.partition_table@[2].spec_bytes()
            + self.partition_table@[3].spec_bytes() + self.boot_signature@
    }

    /// Decodes a sector as a Master Boot Record. Nothing is validated: a
    /// sector without the boot signature still decodes.
    pub fn new(data: &[u8; 512]) -> (r: MBR)
        ensures
            r.parsed_from(data@),
    {
        let mut cur = Cursor::new(data.as_slice());
        let boot_code = cur.read_array::<446>();
        let p0 = Partition::read(&mut cur);
        let p1 = Partition::read(&mut cur);
        let p2 = Partition::read(&mut cur);
        let p3 = Partition::read(&mut cur);
        let boot_signature = cur.read_array::<2>();
        let r = MBR { boot_code, partition_table: [p0, p1, p2, p3], boot_signature };
        assert(r.partition_table@[0] == p0);
        assert(r.partition_table@[1] == p1);
        assert(r.partition_table@[2] == p2);
        assert(r.partition_table@[3] == p3);
        r
    }

    /// Serializes the record back into its 512 on-disk bytes.
    pub fn to_bytes(&self) -> (r: Vec<u8>)
        ensures
            r@ == self.spec_bytes(),
            r@.len() == 512,
    {
        let mut out: Vec<u8> = Vec::new();
        push_bytes(&mut out, self.boot_code.as_slice());
        self.partition_table[0].write(&mut out);
        self.partition_table[1].write(&mut out);
        self.partition_table[2].write(&mut out);
        self.partition_table[3].write(&mut out);
        push_bytes(&mut out, self.boot_signature.as_slice());
        assert(out@ =~= self.spec_bytes());
        out
    }
}

impl MBR {
    /// The report of this record: its kind, each partition entry in table
    /// order, and the boot signature as a little-endian number.
    pub open spec fn spec_report_lines(&self) -> Seq<ReportLine> {
        seq![ReportLine::Title(BootSectorKind::MBR)] + self.partition_table@[0].spec_report(0)
            + self.partition_table@[1].spec_report(1) + self.partition_table@[2].spec_report(2)
            + self.partition_table@[3].spec_report(3) + seq![
            ReportLine::Entry(
                Field::BootSignature,
                Value::Hex(le_u16_at(self.boot_signature@, 0) as u64, 4),
            ),
        ]
    }

    /// Lists the report lines of this record.
    pub fn report_lines(&self) -> (r: Vec<ReportLine>)
        ensures
            r@ == self.spec_report_lines(),
    {
        let mut out: Vec<ReportLine> = Vec::new();
        out.push(ReportLine::Title(BootSectorKind::MBR));
        self.partition_table[0].report_into(0, &mut out);
        self.partition_table[1].report_into(1, &mut out);
        self.partition_table[2].report_into(2, &mut out);
        self.partition_table[3].report_into(3, &mut out);
        let signature = self.boot_signature[0] as u64 + 256 * self.boot_signature[1] as u64;
        out.push(ReportLine::Entry(Field::BootSignature, Value::Hex(signature, 4)));
        assert(out@ =~= self.spec_report_lines());
        out
    }
}

/// Decoding a sector and serializing the record gives back the sector, byte
/// for byte.
pub proof fn lemma_mbr_round_trip(s: Seq<u8>, m: MBR)
    requires
        s.len() == 512,
        m.parsed_from(s),
    ensures
        m.spec_bytes() == s,
{
    let t = m.partition_table@;
    assert(t[0].parsed_from(s, 446));
    assert(t[1].parsed_from(s, 462));
    assert(t[2].parsed_from(s, 478));
    assert(t[3].parsed_from(s, 494));
    lemma_partition_round_trip(t[0], s, 446);
    lemma_partition_round_trip(t[1], s, 462);
    lemma_partition_round_trip(t[2], s, 478);
    lemma_partition_round_trip(t[3], s, 494);
    assert(m.spec_bytes() =~= s);
}

/// Serializing a record and decoding the bytes gives back the record.
pub proof fn lemma_mbr_encode_decode(m: MBR)
    ensures
        m.spec_bytes().len() == 512,
        m.parsed_from(m.spec_bytes()),
{
    let s = m.spec_bytes();
    let t = m.partition_table@;
    assert(s.subrange(0, 446) =~= m.boot_code@);
    assert(s.subrange(446, 462) =~= t[0].spec_bytes());
    assert(s.subrange(462, 478) =~= t[1].spec_bytes());
    assert(s.subrange(478, 494) =~= t[2].spec_bytes());
    assert(s.subrange(494, 510) =~= t[3].spec_bytes());
    assert(s.subrange(510, 512) =~= m.boot_signature@);
    lemma_partition_encode_decode(t[0], s, 446);
    lemma_partition_encode_decode(t[1], s, 462);
    lemma_partition_encode_decode(t[2], s, 478);
    lemma_partition_encode_decode(t[3], s, 494);
    assert forall|i: int| 0 <= i < 4 implies (#[trigger] t[i]).parsed_from(s, 446 + 16 * i) by {
        if i == 0 {
        } else if i == 1 {
        } else if i == 2 {
        } else {
        }
    }
}

} // verus!
