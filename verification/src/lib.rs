//! Conversion of a hierarchical dosage container to VCF text.
//!
//! The library validates the container's dataset shapes, decodes its
//! fixed-width ASCII identifier tables, turns per-marker heterozygous
//! probability values into dosage cells, and assembles the exact bytes of
//! the VCF output, optionally gzip-compressed.

use vstd::prelude::*;

pub mod ascii;
pub mod dosage;
pub mod schema;
pub mod vcf;
pub mod pipeline;
pub mod sink;
