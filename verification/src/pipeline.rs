//! The whole conversion: validate the container, build the header, then
//! one data line per marker, and encode the text for the destination.
//!
//! The container's genotype plane is carried as raw 32-bit bit patterns,
//! one row per marker, already restricted to the heterozygous plane.  The
//! decimal renderings of the halved finite values are floating-point work
//! and come from the caller, one text per stored value, spliced in only
//! where the stored value was finite.

use vstd::prelude::*;

use crate::ascii::DecodeError;
use crate::schema::{ContainerShape, SchemaError, shape_ok, validate, validate_spec};
use crate::sink::{encode_output, encoded_output_spec, gz_name_spec, is_gz_name};
use crate::vcf::{
    fixed_header, fixed_header_bytes, marker_line, marker_line_spec, push_all, row_decodes,
    sample_segment, sample_segment_spec, samples_decode, views2_of, views_of,
};

verus! {

/// The in-memory form of the input container: the genotype tensor's
/// declared shape, the two identifier tables, the marker table with its
/// declared column count, and the heterozygous-probability plane as raw
/// bit patterns, one row per marker.
pub struct Container {
    /// First dimension of the genotype tensor: samples.
    pub geno_samples: usize,
    /// Second dimension of the genotype tensor: ploidy-probability planes.
    pub geno_planes: usize,
    /// Third dimension of the genotype tensor: markers.
    pub geno_markers: usize,
    /// Family identifiers, one fixed-width cell per sample.
    pub fams: Vec<Vec<u8>>,
    /// Individual identifiers, one fixed-width cell per sample.
    pub ids: Vec<Vec<u8>>,
    /// Declared column count of the marker table.
    pub bim_cols: usize,
    /// Marker table rows, each a list of fixed-width cells.
    pub bim: Vec<Vec<Vec<u8>>>,
    /// Heterozygous-plane bit patterns, one row per marker.
    pub het: Vec<Vec<u32>>,
}

/// The byte rows of a sequence of bit-pattern vectors.
pub open spec fn plane_views(v: Seq<Vec<u32>>) -> Seq<Seq<u32>> {
    Seq::new(v.len(), |i: int| v[i]@)
}

impl Container {
    /// The dataset shapes of this container.
    pub open spec fn shape_spec(self) -> ContainerShape {
        ContainerShape {
            geno_samples: self.geno_samples,
            geno_planes: self.geno_planes,
            geno_markers: self.geno_markers,
            fam_len: self.fams.len(),
            id_len: self.ids.len(),
            bim_rows: self.bim.len(),
            bim_cols: self.bim_cols,
        }
    }

    /// The stored data agrees with the declared shape: one heterozygous
    /// row per marker, each as long as the sample dimension, and every
    /// marker row as wide as the declared column count.
    pub open spec fn data_wf(self) -> bool {
        &&& self.het.len() == self.geno_markers
        &&& forall|i: int| 0 <= i < self.het.len() ==> (#[trigger] self.het@[i])@.len()
            == self.geno_samples
        &&& forall|i: int| 0 <= i < self.bim.len() ==> (#[trigger] self.bim@[i])@.len()
            == self.bim_cols
    }

    /// Read the dataset shapes.
    pub fn shape(&self) -> (s: ContainerShape)
        ensures
            s == self.shape_spec(),
    {
        ContainerShape {
            geno_samples: self.geno_samples,
            geno_planes: self.geno_planes,
            geno_markers: self.geno_markers,
            fam_len: self.fams.len(),
            id_len: self.ids.len(),
            bim_rows: self.bim.len(),
            bim_cols: self.bim_cols,
        }
    }
}

/// One caller-supplied rendering per stored bit pattern.
pub open spec fn rendered_wf(c: Container, rendered: Seq<Vec<Vec<u8>>>) -> bool {
    &&& rendered.len() == c.het.len()
    &&& forall|i: int| 0 <= i < rendered.len() ==> (#[trigger] rendered[i])@.len()
        == c.het@[i]@.len()
}

/// Every fixed-width identifier and marker cell of the container decodes.
pub open spec fn cells_decode(c: Container) -> bool {
    &&& samples_decode(views_of(c.fams@), views_of(c.ids@))
    &&& forall|i: int| 0 <= i < c.bim.len() ==> row_decodes(#[trigger] views2_of(c.bim@)[i])
}

/// The data lines of the first `n` markers, each prefixed by a newline.
pub open spec fn records_spec(
    bim: Seq<Seq<Seq<u8>>>,
    het: Seq<Seq<u32>>,
    rendered: Seq<Seq<Seq<u8>>>,
    n: int,
) -> Seq<u8>
    decreases n,
{
    if n <= 0 {
        Seq::empty()
    } else {
        records_spec(bim, het, rendered, n - 1) + seq![10u8] + marker_line_spec(
            bim[n - 1],
            het[n - 1],
            rendered[n - 1],
        )
    }
}

/// The complete output text: the fixed header, the sample columns, and
/// one newline-prefixed data line per marker, with no trailing newline.
pub open spec fn output_spec(c: Container, rendered: Seq<Seq<Seq<u8>>>) -> Seq<u8> {
    fixed_header() + sample_segment_spec(views_of(c.fams@), views_of(c.ids@)) + records_spec(
        views2_of(c.bim@),
        plane_views(c.het@),
        rendered,
        c.geno_markers as int,
    )
}

/// Why a conversion produced no output.
#[derive(Clone, Copy, PartialEq, Eq, Structural, Debug)]
pub enum ConvertError {
    /// The dataset shapes are inconsistent.
    Schema(SchemaError),
    /// A fixed-width cell holds non-ASCII content.
    Decode(DecodeError),
}

/// Run the whole conversion in memory: validate the shapes before
/// producing any byte, then produce the complete output text.
pub fn convert(c: &Container, rendered: &Vec<Vec<Vec<u8>>>) -> (r: Result<Vec<u8>, ConvertError>)
    requires
        c.data_wf(),
        rendered_wf(*c, rendered@),
    ensures
        match r {
            Ok(v) => shape_ok(c.shape_spec()) && cells_decode(*c) && v@ == output_spec(
                *c,
                views2_of(rendered@),
            ),
            Err(ConvertError::Schema(e)) => validate_spec(c.shape_spec()) == Err::<
                (),
                SchemaError,
            >(e),
            Err(ConvertError::Decode(e)) => shape_ok(c.shape_spec()) && !cells_decode(*c) && e
                == DecodeError::NonAscii,
        },
{
    let shape = c.shape();
    match validate(&shape) {
        Ok(_) => {},
        Err(e) => {
            return Err(ConvertError::Schema(e));
        },
    }
    let seg = match sample_segment(&c.fams, &c.ids) {
        Ok(v) => v,
        Err(e) => {
            return Err(ConvertError::Decode(e));
        },
    };
    let mut out = fixed_header_bytes();
    push_all(&mut out, &seg);
    let ghost bv = views2_of(c.bim@);
    let ghost hv = plane_views(c.het@);
    let ghost rv = views2_of(rendered@);
    let ghost header = fixed_header() + sample_segment_spec(views_of(c.fams@), views_of(c.ids@));
    assert(out@ == header + records_spec(bv, hv, rv, 0));
    let m = c.geno_markers;
    let mut i: usize = 0;
    while i < m
        invariant
            i <= m,
            m == c.geno_markers,
            c.data_wf(),
            rendered_wf(*c, rendered@),
            shape_ok(c.shape_spec()),
            bv == views2_of(c.bim@),
            hv == plane_views(c.het@),
            rv == views2_of(rendered@),
            header == fixed_header() + sample_segment_spec(views_of(c.fams@), views_of(c.ids@)),
            out@ == header + records_spec(bv, hv, rv, i as int),
            forall|k: int| 0 <= k < i ==> row_decodes(#[trigger] bv[k]),
        decreases m - i,
    {
        let ghost pre = out@;
        out.push(10u8);
        let line = match marker_line(&c.bim[i], &c.het[i], &rendered[i]) {
            Ok(l) => l,
            Err(e) => {
                assert(!row_decodes(views2_of(c.bim@)[i as int]));
                return Err(ConvertError::Decode(e));
            },
        };
        push_all(&mut out, &line);
        proof {
            assert(bv[i as int] == views_of(c.bim@[i as int]@));
            assert(hv[i as int] == c.het@[i as int]@);
            assert(rv[i as int] == views_of(rendered@[i as int]@));
            assert(out@ =~= pre + seq![10u8] + line@);
            assert(records_spec(bv, hv, rv, i + 1) == records_spec(bv, hv, rv, i as int)
                + seq![10u8] + marker_line_spec(bv[i as int], hv[i as int], rv[i as int]));
            assert(out@ =~= header + records_spec(bv, hv, rv, i + 1));
        }
        i = i + 1;
    }
    proof {
        assert(cells_decode(*c)) by {
            assert(forall|k: int| 0 <= k < c.bim.len() ==> row_decodes(
                #[trigger] views2_of(c.bim@)[k],
            ));
        }
    }
    Ok(out)
}

/// Run the whole conversion and encode the text as the named destination
/// asks: gzip-compressed for a `.gz` name, raw bytes otherwise.
pub fn convert_for_name(c: &Container, rendered: &Vec<Vec<Vec<u8>>>, name: &Vec<u8>) -> (r: Result<
    Vec<u8>,
    ConvertError,
>)
    requires
        c.data_wf(),
        rendered_wf(*c, rendered@),
    ensures
        match r {
            Ok(v) => shape_ok(c.shape_spec()) && cells_decode(*c) && v@ == encoded_output_spec(
                output_spec(*c, views2_of(rendered@)),
                gz_name_spec(name@),
            ),
            Err(ConvertError::Schema(e)) => validate_spec(c.shape_spec()) == Err::<
                (),
                SchemaError,
            >(e),
            Err(ConvertError::Decode(e)) => shape_ok(c.shape_spec()) && !cells_decode(*c) && e
                == DecodeError::NonAscii,
        },
{
    match convert(c, rendered) {
        Ok(text) => {
            let gz = is_gz_name(name);
            Ok(encode_output(text, gz))
        },
        Err(e) => Err(e),
    }
}

/// Converting the same container with the same renderings for the same
/// kind of destination always yields the same bytes: the output is a
/// function of the inputs alone.
pub proof fn lemma_conversion_deterministic(
    c: Container,
    rendered: Seq<Seq<Seq<u8>>>,
    gz: bool,
    r1: Seq<u8>,
    r2: Seq<u8>,
)
    requires
        r1 == encoded_output_spec(output_spec(c, rendered), gz),
        r2 == encoded_output_spec(output_spec(c, rendered), gz),
    ensures
        r1 == r2,
{
}

/// A valid container's header holds exactly one sample column per sample
/// of the genotype tensor.
pub proof fn lemma_header_sample_count(c: Container)
    requires
        shape_ok(c.shape_spec()),
    ensures
        crate::vcf::sample_columns_spec(views_of(c.fams@), views_of(c.ids@)).len()
            == c.geno_samples,
{
}

} // verus!
