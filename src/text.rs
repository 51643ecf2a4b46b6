//! The delimited text line format:
//! `A,<ax>,<ay>,<az>,G,<gx>,<gy>,<gz>,M,<mx>,<my>,<mz>`.
//!
//! The library checks the framing of a line (field count and the literal
//! tags) and hands back the nine numeric fields as bytes, in wire order; the
//! caller turns each field into a number.
use vstd::prelude::*;

verus! {

/// The field separator.
pub const SEPARATOR: u8 = 0x2c;

/// The tag before the accelerometer fields (`A`).
pub const TAG_ACCEL: u8 = 0x41;

/// The tag before the gyroscope fields (`G`).
pub const TAG_GYRO: u8 = 0x47;

/// The tag before the magnetometer fields (`M`).
pub const TAG_MAG: u8 = 0x4d;

/// Number of fields in a well-formed line: three tags and nine numbers.
pub const LINE_FIELDS: usize = 12;

/// The fields of `s` between separators, in order; a line with no separator
/// is one field, and an empty line is one empty field.
pub open spec fn split_fields(s: Seq<u8>) -> Seq<Seq<u8>>
    decreases s.len(),
{
    if s.len() == 0 {
        seq![Seq::empty()]
    } else {
        let f = split_fields(s.drop_last());
        if s.last() == SEPARATOR {
            f.push(Seq::empty())
        } else {
            f.update(f.len() - 1, f.last().push(s.last()))
        }
    }
}

/// Whether the line `s` has the twelve fields of a sample, with the three
/// tags in their places.
pub open spec fn is_sample_line(s: Seq<u8>) -> bool {
    let f = split_fields(s);
    &&& f.len() == LINE_FIELDS
    &&& f[0] == seq![TAG_ACCEL]
    &&& f[4] == seq![TAG_GYRO]
    &&& f[8] == seq![TAG_MAG]
}

/// The nine numeric fields of a sample line: ax, ay, az, gx, gy, gz, mx, my, mz.
pub open spec fn sample_fields(s: Seq<u8>) -> Seq<Seq<u8>> {
    let f = split_fields(s);
    seq![f[1], f[2], f[3], f[5], f[6], f[7], f[9], f[10], f[11]]
}

/// The byte strings held by a vector of byte vectors.
pub open spec fn views(v: Seq<Vec<u8>>) -> Seq<Seq<u8>> {
    v.map_values(|x: Vec<u8>| x@)
}

proof fn lemma_split_nonempty(s: Seq<u8>)
    ensures
        split_fields(s).len() >= 1,
    decreases s.len(),
{
    if s.len() > 0 {
        lemma_split_nonempty(s.drop_last());
    }
}

/// Splits `line` at every separator.
fn split_line(line: &[u8]) -> (r: Vec<Vec<u8>>)
    ensures
        views(r@) == split_fields(line@),
{
    let n = line.len();
    let mut fields: Vec<Vec<u8>> = Vec::new();
    let mut cur: Vec<u8> = Vec::new();
    let mut i: usize = 0;
    assert(line@.subrange(0, 0) =~= Seq::<u8>::empty());
    assert(views(fields@).push(cur@) =~= split_fields(line@.subrange(0, 0)));
    while i < n
        invariant
            n == line@.len(),
            0 <= i <= n,
            views(fields@).push(cur@) == split_fields(line@.subrange(0, i as int)),
        decreases n - i,
    {
        let c = line[i];
        let ghost pre = line@.subrange(0, i as int);
        let ghost next = line@.subrange(0, i + 1);
        assert(next.drop_last() =~= pre);
        assert(next.last() == c);
        proof {
            lemma_split_nonempty(pre);
        }
        let ghost before = views(fields@);
        if c == SEPARATOR {
            fields.push(cur);
            cur = Vec::new();
            assert(views(fields@) =~= before.push(views(fields@).last()));
            assert(views(fields@).push(cur@) =~= split_fields(next));
        } else {
            let ghost old_cur = cur@;
            cur.push(c);
            assert(views(fields@).push(cur@) =~= before.push(old_cur).update(
                before.len() as int,
                old_cur.push(c),
            ));
        }
        i = i + 1;
    }
    assert(line@.subrange(0, n as int) =~= line@);
    fields.push(cur);
    assert(views(fields@) =~= split_fields(line@));
    fields
}

fn is_tag(field: &Vec<u8>, tag: u8) -> (r: bool)
    ensures
        r == (field@ == seq![tag]),
{
    if field.len() != 1 {
        assert(field@.len() != 1);
        return false;
    }
    let b = field[0];
    assert(field@ =~= seq![b]);
    b == tag
}

fn copy_field(field: &Vec<u8>) -> (r: Vec<u8>)
    ensures
        r@ == field@,
{
    let mut out: Vec<u8> = Vec::new();
    let mut i: usize = 0;
    while i < field.len()
        invariant
            0 <= i <= field@.len(),
            out@ == field@.subrange(0, i as int),
        decreases field@.len() - i,
    {
        out.push(field[i]);
        i = i + 1;
        assert(out@ =~= field@.subrange(0, i as int));
    }
    assert(field@.subrange(0, field@.len() as int) =~= field@);
    out
}

/// Checks the framing of one text line (without its line terminator) and
/// returns its nine numeric fields in wire order. A line with a field count
/// other than twelve, or without `A`, `G` and `M` as its first, fifth and
/// ninth fields, gives none.
pub fn parse_line(line: &[u8]) -> (r: Option<Vec<Vec<u8>>>)
    ensures
        r is Some <==> is_sample_line(line@),
        r matches Some(v) ==> views(v@) == sample_fields(line@),
{
    let parts = split_line(line);
    let ghost f = split_fields(line@);
    assert(parts@.len() == f.len());
    if parts.len() != LINE_FIELDS {
        return None;
    }
    assert(forall|k: int| 0 <= k < 12 ==> parts@[k]@ == #[trigger] f[k]);
    if !is_tag(&parts[0], TAG_ACCEL) || !is_tag(&parts[4], TAG_GYRO) || !is_tag(&parts[8], TAG_MAG) {
        return None;
    }
    let mut out: Vec<Vec<u8>> = Vec::new();
    out.push(copy_field(&parts[1]));
    out.push(copy_field(&parts[2]));
    out.push(copy_field(&parts[3]));
    out.push(copy_field(&parts[5]));
    out.push(copy_field(&parts[6]));
    out.push(copy_field(&parts[7]));
    out.push(copy_field(&parts[9]));
    out.push(copy_field(&parts[10]));
    out.push(copy_field(&parts[11]));
    assert(views(out@) =~= sample_fields(line@));
    Some(out)
}

} // verus!
