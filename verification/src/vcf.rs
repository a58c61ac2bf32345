//! Assembly of the VCF text: the fixed header, the sample-column header
//! segment, and one data line per marker.
//!
//! All text is handled as bytes.  Rendering a halved dosage value as
//! decimal text is floating-point work that the caller supplies; this
//! module splices the supplied text into the line exactly when the stored
//! value was finite, and the missing token `.` otherwise.

use vstd::prelude::*;

use crate::ascii::{DecodeError, cell_decodes, decode_cell, trim_padding};
use crate::dosage::is_finite_bits;

verus! {

/// The byte contents of a sequence of byte vectors.
pub open spec fn views_of(v: Seq<Vec<u8>>) -> Seq<Seq<u8>> {
    Seq::new(v.len(), |i: int| v[i]@)
}

/// The byte contents of a sequence of rows of byte vectors.
pub open spec fn views2_of(v: Seq<Vec<Vec<u8>>>) -> Seq<Seq<Seq<u8>>> {
    Seq::new(v.len(), |i: int| views_of(v[i]@))
}

/// Append all bytes of `src` to `dst`.
pub fn push_all(dst: &mut Vec<u8>, src: &Vec<u8>)
    ensures
        final(dst)@ == old(dst)@ + src@,
{
    let ghost base = dst@;
    let mut i: usize = 0;
    assert(dst@ =~= base + src@.take(0));
    while i < src.len()
        invariant
            i <= src@.len(),
            dst@ == base + src@.take(i as int),
        decreases src@.len() - i,
    {
        dst.push(src[i]);
        assert(dst@ =~= base + src@.take(i + 1));
        i = i + 1;
    }
    assert(src@.take(src@.len() as int) =~= src@);
}

/// A fresh copy of the bytes of `src`.
pub fn copy_bytes(src: &Vec<u8>) -> (r: Vec<u8>)
    ensures
        r@ == src@,
{
    let mut v: Vec<u8> = Vec::new();
    push_all(&mut v, src);
    assert(v@ =~= src@);
    v
}

/// The parts joined by single tab bytes, without a trailing separator.
pub open spec fn join_tab(parts: Seq<Seq<u8>>) -> Seq<u8>
    decreases parts.len(),
{
    if parts.len() == 0 {
        Seq::empty()
    } else if parts.len() == 1 {
        parts[0]
    } else {
        join_tab(parts.drop_last()) + seq![9u8] + parts.last()
    }
}

/// Join the parts with tab bytes.
pub fn join_with_tab(parts: &Vec<Vec<u8>>) -> (r: Vec<u8>)
    ensures
        r@ == join_tab(views_of(parts@)),
{
    let ghost vs = views_of(parts@);
    let mut out: Vec<u8> = Vec::new();
    assert(out@ =~= Seq::<u8>::empty());
    let mut i: usize = 0;
    while i < parts.len()
        invariant
            i <= parts@.len(),
            vs == views_of(parts@),
            out@ == join_tab(vs.take(i as int)),
        decreases parts@.len() - i,
    {
        let ghost pre = out@;
        if i > 0 {
            out.push(9u8);
        }
        push_all(&mut out, &parts[i]);
        proof {
            assert(vs.take(i + 1).drop_last() =~= vs.take(i as int));
            assert(vs.take(i + 1).last() == parts@[i as int]@);
            if i == 0 {
                assert(join_tab(vs.take(1)) == vs.take(1)[0]);
                assert(out@ =~= pre + parts@[0]@);
                assert(out@ =~= join_tab(vs.take(1)));
            } else {
                assert(out@ =~= pre + seq![9u8] + parts@[i as int]@);
                assert(join_tab(vs.take(i + 1)) == join_tab(vs.take(i as int)) + seq![9u8]
                    + vs.take(i + 1).last());
            }
        }
        i = i + 1;
    }
    assert(vs.take(parts@.len() as int) =~= vs);
    out
}

/// The fixed opening of every output: the two `##` header lines and the
/// `#CHROM` column line through its trailing `FORMAT` tab, after which the
/// sample columns follow.
pub open spec fn fixed_header() -> Seq<u8> {
    seq![
        35u8, 35u8, 102u8, 105u8, 108u8, 101u8, 102u8, 111u8, 114u8, 109u8, 97u8, 116u8, 61u8,
        86u8, 67u8, 70u8, 118u8, 52u8, 46u8, 50u8, 10u8, 35u8, 35u8, 70u8, 79u8, 82u8, 77u8, 65u8,
        84u8, 61u8, 60u8, 73u8, 68u8, 61u8, 68u8, 83u8, 44u8, 78u8, 117u8, 109u8, 98u8, 101u8,
        114u8, 61u8, 65u8, 44u8, 84u8, 121u8, 112u8, 101u8, 61u8, 70u8, 108u8, 111u8, 97u8, 116u8,
        44u8, 68u8, 101u8, 115u8, 99u8, 114u8, 105u8, 112u8, 116u8, 105u8, 111u8, 110u8, 61u8,
        34u8, 69u8, 115u8, 116u8, 105u8, 109u8, 97u8, 116u8, 101u8, 100u8, 32u8, 65u8, 108u8,
        116u8, 101u8, 114u8, 110u8, 97u8, 116u8, 101u8, 32u8, 65u8, 108u8, 108u8, 101u8, 108u8,
        101u8, 32u8, 68u8, 111u8, 115u8, 97u8, 103u8, 101u8, 32u8, 58u8, 32u8, 91u8, 80u8, 40u8,
        48u8, 47u8, 49u8, 41u8, 43u8, 50u8, 42u8, 80u8, 40u8, 49u8, 47u8, 49u8, 41u8, 93u8, 34u8,
        62u8, 10u8, 35u8, 67u8, 72u8, 82u8, 79u8, 77u8, 9u8, 80u8, 79u8, 83u8, 9u8, 73u8, 68u8,
        9u8, 82u8, 69u8, 70u8, 9u8, 65u8, 76u8, 84u8, 9u8, 81u8, 85u8, 65u8, 76u8, 9u8, 70u8,
        73u8, 76u8, 84u8, 69u8, 82u8, 9u8, 73u8, 78u8, 70u8, 79u8, 9u8, 70u8, 79u8, 82u8, 77u8,
        65u8, 84u8, 9u8,
    ]
}

/// Produce the fixed opening bytes.
#[verifier::rlimit(40)]
pub fn fixed_header_bytes() -> (r: Vec<u8>)
    ensures
        r@ == fixed_header(),
{
    let v: Vec<u8> = vec![
        35u8, 35u8, 102u8, 105u8, 108u8, 101u8, 102u8, 111u8, 114u8, 109u8, 97u8, 116u8, 61u8,
        86u8, 67u8, 70u8, 118u8, 52u8, 46u8, 50u8, 10u8, 35u8, 35u8, 70u8, 79u8, 82u8, 77u8, 65u8,
        84u8, 61u8, 60u8, 73u8, 68u8, 61u8, 68u8, 83u8, 44u8, 78u8, 117u8, 109u8, 98u8, 101u8,
        114u8, 61u8, 65u8, 44u8, 84u8, 121u8, 112u8, 101u8, 61u8, 70u8, 108u8, 111u8, 97u8, 116u8,
        44u8, 68u8, 101u8, 115u8, 99u8, 114u8, 105u8, 112u8, 116u8, 105u8, 111u8, 110u8, 61u8,
        34u8, 69u8, 115u8, 116u8, 105u8, 109u8, 97u8, 116u8, 101u8, 100u8, 32u8, 65u8, 108u8,
        116u8, 101u8, 114u8, 110u8, 97u8, 116u8, 101u8, 32u8, 65u8, 108u8, 108u8, 101u8, 108u8,
        101u8, 32u8, 68u8, 111u8, 115u8, 97u8, 103u8, 101u8, 32u8, 58u8, 32u8, 91u8, 80u8, 40u8,
        48u8, 47u8, 49u8, 41u8, 43u8, 50u8, 42u8, 80u8, 40u8, 49u8, 47u8, 49u8, 41u8, 93u8, 34u8,
        62u8, 10u8, 35u8, 67u8, 72u8, 82u8, 79u8, 77u8, 9u8, 80u8, 79u8, 83u8, 9u8, 73u8, 68u8,
        9u8, 82u8, 69u8, 70u8, 9u8, 65u8, 76u8, 84u8, 9u8, 81u8, 85u8, 65u8, 76u8, 9u8, 70u8,
        73u8, 76u8, 84u8, 69u8, 82u8, 9u8, 73u8, 78u8, 70u8, 79u8, 9u8, 70u8, 79u8, 82u8, 77u8,
        65u8, 84u8, 9u8,
    ];
    assert(v@ =~= fixed_header());
    v
}

/// One sample column: the trimmed family identifier, an underscore, and
/// the trimmed individual identifier.
pub open spec fn sample_column_spec(fam: Seq<u8>, id: Seq<u8>) -> Seq<u8> {
    trim_padding(fam) + seq![95u8] + trim_padding(id)
}

/// All sample columns, in stored order.
pub open spec fn sample_columns_spec(fams: Seq<Seq<u8>>, ids: Seq<Seq<u8>>) -> Seq<Seq<u8>> {
    Seq::new(fams.len(), |i: int| sample_column_spec(fams[i], ids[i]))
}

/// Every identifier cell of both tables decodes.
pub open spec fn samples_decode(fams: Seq<Seq<u8>>, ids: Seq<Seq<u8>>) -> bool {
    &&& forall|i: int| 0 <= i < fams.len() ==> cell_decodes(#[trigger] fams[i])
    &&& forall|i: int| 0 <= i < ids.len() ==> cell_decodes(#[trigger] ids[i])
}

/// The sample segment of the column header line: the sample columns joined
/// by tabs.
pub open spec fn sample_segment_spec(fams: Seq<Seq<u8>>, ids: Seq<Seq<u8>>) -> Seq<u8> {
    join_tab(sample_columns_spec(fams, ids))
}

/// Decode both identifier tables and join the `family_id` columns with
/// tabs.
pub fn sample_segment(fams: &Vec<Vec<u8>>, ids: &Vec<Vec<u8>>) -> (r: Result<Vec<u8>, DecodeError>)
    requires
        fams@.len() == ids@.len(),
    ensures
        match r {
            Ok(v) => samples_decode(views_of(fams@), views_of(ids@)) && v@ == sample_segment_spec(
                views_of(fams@),
                views_of(ids@),
            ),
            Err(e) => !samples_decode(views_of(fams@), views_of(ids@)) && e
                == DecodeError::NonAscii,
        },
{
    let ghost fv = views_of(fams@);
    let ghost iv = views_of(ids@);
    let mut cols: Vec<Vec<u8>> = Vec::new();
    let mut i: usize = 0;
    while i < fams.len()
        invariant
            i <= fams@.len(),
            fams@.len() == ids@.len(),
            fv == views_of(fams@),
            iv == views_of(ids@),
            cols@.len() == i as int,
            views_of(cols@) =~= sample_columns_spec(fv, iv).take(i as int),
            forall|k: int| 0 <= k < i ==> cell_decodes(#[trigger] fv[k]),
            forall|k: int| 0 <= k < i ==> cell_decodes(#[trigger] iv[k]),
        decreases fams@.len() - i,
    {
        let mut col = match decode_cell(&fams[i]) {
            Ok(v) => v,
            Err(e) => {
                assert(!cell_decodes(fv[i as int]));
                return Err(e);
            },
        };
        let idc = match decode_cell(&ids[i]) {
            Ok(v) => v,
            Err(e) => {
                assert(!cell_decodes(iv[i as int]));
                return Err(e);
            },
        };
        col.push(95u8);
        push_all(&mut col, &idc);
        assert(col@ =~= sample_column_spec(fv[i as int], iv[i as int]));
        let ghost cpre = cols@;
        cols.push(col);
        proof {
            assert(cols@[i as int]@ == sample_columns_spec(fv, iv)[i as int]);
            assert forall|m: int| 0 <= m < i + 1 implies views_of(cols@)[m] == sample_columns_spec(
                fv,
                iv,
            ).take(i + 1)[m] by {
                if m < i {
                    assert(views_of(cpre)[m] == sample_columns_spec(fv, iv).take(i as int)[m]);
                }
            }
            assert(views_of(cols@) =~= sample_columns_spec(fv, iv).take(i + 1));
        }
        i = i + 1;
    }
    assert(sample_columns_spec(fv, iv).take(fams@.len() as int) =~= sample_columns_spec(fv, iv));
    Ok(join_with_tab(&cols))
}

/// The text of one dosage cell: the caller-supplied decimal rendering when
/// the stored value was finite, the missing token `.` otherwise.
pub open spec fn token_spec(b: u32, rendered: Seq<u8>) -> Seq<u8> {
    if is_finite_bits(b) {
        rendered
    } else {
        seq![46u8]
    }
}

/// The dosage cells of one marker, in sample order.
pub open spec fn dosage_tokens_spec(bits: Seq<u32>, rendered: Seq<Seq<u8>>) -> Seq<Seq<u8>> {
    Seq::new(bits.len(), |i: int| token_spec(bits[i], rendered[i]))
}

/// A dosage cell reads `.` exactly when the stored value was non-finite,
/// as long as the supplied rendering is itself never the bare missing
/// token.
pub proof fn lemma_missing_iff_nonfinite(b: u32, rendered: Seq<u8>)
    requires
        rendered.len() > 0,
        rendered[0] != 46u8,
    ensures
        token_spec(b, rendered) == seq![46u8] <==> !is_finite_bits(b),
{
    if is_finite_bits(b) {
        assert(token_spec(b, rendered)[0] != 46u8);
    }
}

/// Every cell of a marker-table row decodes.
pub open spec fn row_decodes(row: Seq<Seq<u8>>) -> bool {
    forall|j: int| 0 <= j < row.len() ==> cell_decodes(#[trigger] row[j])
}

/// The fields of one data line, in output order: chromosome, position,
/// identifier, reference allele and alternate allele drawn from the
/// marker-table row's columns 0, 2, 1, 4 and 3, then the literal `.`
/// QUAL, FILTER and INFO fields, the literal `DS` FORMAT field, and one
/// dosage cell per sample.
pub open spec fn marker_fields_spec(row: Seq<Seq<u8>>, bits: Seq<u32>, rendered: Seq<Seq<u8>>) -> Seq<
    Seq<u8>,
> {
    seq![
        trim_padding(row[0]),
        trim_padding(row[2]),
        trim_padding(row[1]),
        trim_padding(row[4]),
        trim_padding(row[3]),
        seq![46u8],
        seq![46u8],
        seq![46u8],
        seq![68u8, 83u8],
    ] + dosage_tokens_spec(bits, rendered)
}

/// One data line: its fields joined by tabs, without a newline.
pub open spec fn marker_line_spec(row: Seq<Seq<u8>>, bits: Seq<u32>, rendered: Seq<Seq<u8>>) -> Seq<
    u8,
> {
    join_tab(marker_fields_spec(row, bits, rendered))
}

/// The emitted CHROM, POS, ID, REF and ALT fields equal the marker-table
/// row's trimmed columns 0, 2, 1, 4 and 3, in that fixed remapping.
pub proof fn lemma_marker_field_order(row: Seq<Seq<u8>>, bits: Seq<u32>, rendered: Seq<Seq<u8>>)
    ensures
        marker_fields_spec(row, bits, rendered)[0] == trim_padding(row[0]),
        marker_fields_spec(row, bits, rendered)[1] == trim_padding(row[2]),
        marker_fields_spec(row, bits, rendered)[2] == trim_padding(row[1]),
        marker_fields_spec(row, bits, rendered)[3] == trim_padding(row[4]),
        marker_fields_spec(row, bits, rendered)[4] == trim_padding(row[3]),
        marker_fields_spec(row, bits, rendered).len() == 9 + bits.len(),
        forall|i: int| 0 <= i < bits.len() ==> marker_fields_spec(row, bits, rendered)[9 + i]
            == token_spec(bits[i], rendered[i]),
{
}

/// The header carries one column per stored sample, each pairing the
/// trimmed family and individual identifiers in stored order.
pub proof fn lemma_sample_column_pairing(fams: Seq<Seq<u8>>, ids: Seq<Seq<u8>>)
    ensures
        sample_columns_spec(fams, ids).len() == fams.len(),
        forall|i: int| 0 <= i < fams.len() ==> sample_columns_spec(fams, ids)[i] == trim_padding(
            fams[i],
        ) + seq![95u8] + trim_padding(ids[i]),
{
}

/// Assemble one data line from a marker-table row, the stored bit
/// patterns of the marker's heterozygous-probability slice, and the
/// caller-supplied decimal renderings of their halved values.
pub fn marker_line(row: &Vec<Vec<u8>>, bits: &Vec<u32>, rendered: &Vec<Vec<u8>>) -> (r: Result<
    Vec<u8>,
    DecodeError,
>)
    requires
        row@.len() == 5,
        rendered@.len() == bits@.len(),
    ensures
        match r {
            Ok(v) => row_decodes(views_of(row@)) && v@ == marker_line_spec(
                views_of(row@),
                bits@,
                views_of(rendered@),
            ),
            Err(e) => !row_decodes(views_of(row@)) && e == DecodeError::NonAscii,
        },
{
    let ghost rv = views_of(row@);
    let ghost dv = views_of(rendered@);
    let mut fields: Vec<Vec<u8>> = Vec::new();
    let d0 = match decode_cell(&row[0]) {
        Ok(v) => v,
        Err(e) => {
            assert(!cell_decodes(rv[0]));
            return Err(e);
        },
    };
    let d1 = match decode_cell(&row[1]) {
        Ok(v) => v,
        Err(e) => {
            assert(!cell_decodes(rv[1]));
            return Err(e);
        },
    };
    let d2 = match decode_cell(&row[2]) {
        Ok(v) => v,
        Err(e) => {
            assert(!cell_decodes(rv[2]));
            return Err(e);
        },
    };
    let d3 = match decode_cell(&row[3]) {
        Ok(v) => v,
        Err(e) => {
            assert(!cell_decodes(rv[3]));
            return Err(e);
        },
    };
    let d4 = match decode_cell(&row[4]) {
        Ok(v) => v,
        Err(e) => {
            assert(!cell_decodes(rv[4]));
            return Err(e);
        },
    };
    assert(row_decodes(rv)) by {
        assert(forall|j: int| 0 <= j < 5 ==> cell_decodes(#[trigger] rv[j]));
    }
    fields.push(d0);
    fields.push(d2);
    fields.push(d1);
    fields.push(d4);
    fields.push(d3);
    let dot1: Vec<u8> = vec![46u8];
    let dot2: Vec<u8> = vec![46u8];
    let dot3: Vec<u8> = vec![46u8];
    let ds: Vec<u8> = vec![68u8, 83u8];
    assert(dot1@ =~= seq![46u8]);
    assert(dot2@ =~= seq![46u8]);
    assert(dot3@ =~= seq![46u8]);
    assert(ds@ =~= seq![68u8, 83u8]);
    fields.push(dot1);
    fields.push(dot2);
    fields.push(dot3);
    fields.push(ds);
    let ghost all = marker_fields_spec(rv, bits@, dv);
    assert(views_of(fields@) =~= all.take(9));
    let mut k: usize = 0;
    while k < bits.len()
        invariant
            k <= bits@.len(),
            rendered@.len() == bits@.len(),
            rv == views_of(row@),
            dv == views_of(rendered@),
            all == marker_fields_spec(rv, bits@, dv),
            all.len() == 9 + bits@.len(),
            fields@.len() == 9 + k as int,
            views_of(fields@) =~= all.take(9 + k as int),
        decreases bits@.len() - k,
    {
        let ghost fpre = fields@;
        if crate::dosage::finite_bits(bits[k]) {
            let t = copy_bytes(&rendered[k]);
            fields.push(t);
        } else {
            let dot: Vec<u8> = vec![46u8];
            assert(dot@ =~= seq![46u8]);
            fields.push(dot);
        }
        proof {
            let idx = 9 + k as int;
            assert(fields@ == fpre.push(fields@[idx]));
            assert(all[idx] == dosage_tokens_spec(bits@, dv)[k as int]);
            assert(fields@[idx]@ == token_spec(bits@[k as int], dv[k as int]));
            assert forall|m: int| 0 <= m < idx + 1 implies views_of(fields@)[m] == all.take(
                idx + 1,
            )[m] by {
                if m < idx {
                    assert(views_of(fpre)[m] == all.take(idx)[m]);
                }
            }
            assert(views_of(fields@) =~= all.take(idx + 1));
        }
        k = k + 1;
    }
    assert(all.take(all.len() as int) =~= all);
    Ok(join_with_tab(&fields))
}

} // verus!
