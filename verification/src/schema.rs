//! Shape validation of the input container.
//!
//! Before any output byte is produced, the shapes of the four datasets are
//! checked against each other: the ploidy-probability dimension must offer
//! the heterozygous plane, the sample count must agree between the
//! genotype tensor and both identifier tables, the marker count must agree
//! between the genotype tensor and the marker table, and the marker table
//! must carry all five columns.

use vstd::prelude::*;

verus! {

/// The dataset shapes read from the container.
#[derive(Clone, Copy, PartialEq, Eq, Structural, Debug)]
pub struct ContainerShape {
    /// First dimension of the genotype tensor: samples.
    pub geno_samples: usize,
    /// Second dimension of the genotype tensor: ploidy-probability planes.
    pub geno_planes: usize,
    /// Third dimension of the genotype tensor: markers.
    pub geno_markers: usize,
    /// Length of the family table.
    pub fam_len: usize,
    /// Length of the individual-identifier table.
    pub id_len: usize,
    /// Row count of the marker table.
    pub bim_rows: usize,
    /// Column count of the marker table.
    pub bim_cols: usize,
}

/// One schema violation, one variant per violated invariant.
#[derive(Clone, Copy, PartialEq, Eq, Structural, Debug)]
pub enum SchemaError {
    /// The ploidy-probability dimension is smaller than 2.
    InsufficientPloidyPlanes,
    /// The sample count differs between the genotype tensor and the
    /// identifier tables, or between the two identifier tables.
    SampleCountMismatch,
    /// The marker count differs between the genotype tensor and the
    /// marker table.
    MarkerCountMismatch,
    /// The marker table does not have exactly five columns.
    IncompleteMarkerInfo,
}

/// The verdict of shape validation, with the violations checked in a fixed
/// order: ploidy planes, sample counts, marker counts, marker columns.
pub open spec fn validate_spec(s: ContainerShape) -> Result<(), SchemaError> {
    if s.geno_planes < 2 {
        Err(SchemaError::InsufficientPloidyPlanes)
    } else if s.id_len != s.fam_len || s.geno_samples != s.fam_len {
        Err(SchemaError::SampleCountMismatch)
    } else if s.geno_markers != s.bim_rows {
        Err(SchemaError::MarkerCountMismatch)
    } else if s.bim_cols != 5 {
        Err(SchemaError::IncompleteMarkerInfo)
    } else {
        Ok(())
    }
}

/// All shape invariants hold at once.
pub open spec fn shape_ok(s: ContainerShape) -> bool {
    &&& s.geno_planes >= 2
    &&& s.id_len == s.fam_len
    &&& s.geno_samples == s.fam_len
    &&& s.geno_markers == s.bim_rows
    &&& s.bim_cols == 5
}

/// Check the container shapes, accepting exactly the shapes on which every
/// invariant holds.
pub fn validate(s: &ContainerShape) -> (r: Result<(), SchemaError>)
    ensures
        r == validate_spec(*s),
        r is Ok <==> shape_ok(*s),
{
    if s.geno_planes < 2 {
        Err(SchemaError::InsufficientPloidyPlanes)
    } else if s.id_len != s.fam_len || s.geno_samples != s.fam_len {
        Err(SchemaError::SampleCountMismatch)
    } else if s.geno_markers != s.bim_rows {
        Err(SchemaError::MarkerCountMismatch)
    } else if s.bim_cols != 5 {
        Err(SchemaError::IncompleteMarkerInfo)
    } else {
        Ok(())
    }
}

/// Validation succeeds exactly on fully consistent shapes, and each
/// violation is reported as its own variant.
pub proof fn lemma_validator_rejections(s: ContainerShape)
    ensures
        validate_spec(s) is Ok <==> shape_ok(s),
        s.geno_planes < 2 <==> validate_spec(s) == Err::<(), SchemaError>(
            SchemaError::InsufficientPloidyPlanes,
        ),
        validate_spec(s) == Err::<(), SchemaError>(SchemaError::SampleCountMismatch) <==> (
        s.geno_planes >= 2 && (s.id_len != s.fam_len || s.geno_samples != s.fam_len)),
        validate_spec(s) == Err::<(), SchemaError>(SchemaError::MarkerCountMismatch) <==> (
        s.geno_planes >= 2 && s.id_len == s.fam_len && s.geno_samples == s.fam_len
            && s.geno_markers != s.bim_rows),
        validate_spec(s) == Err::<(), SchemaError>(SchemaError::IncompleteMarkerInfo) <==> (
        s.geno_planes >= 2 && s.id_len == s.fam_len && s.geno_samples == s.fam_len
            && s.geno_markers == s.bim_rows && s.bim_cols != 5),
{
}

} // verus!
