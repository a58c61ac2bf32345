use h5tovcf::dosage::half_bits;
use h5tovcf::pipeline::{Container, ConvertError, convert, convert_for_name};
use h5tovcf::schema::SchemaError;
use h5tovcf::ascii::DecodeError;

fn cell(s: &str) -> Vec<u8> {
    let mut v = s.as_bytes().to_vec();
    while v.len() < 20 {
        v.push(0u8);
    }
    v
}

fn render(bits: u32) -> Vec<u8> {
    f32::from_bits(half_bits(bits)).to_string().into_bytes()
}

fn fixed_header_text() -> String {
    String::from(
        "##fileformat=VCFv4.2\n##FORMAT=<ID=DS,Number=A,Type=Float,Description=\"Estimated Alternate Allele Dosage : [P(0/1)+2*P(1/1)]\">\n#CHROM\tPOS\tID\tREF\tALT\tQUAL\tFILTER\tINFO\tFORMAT\t",
    )
}

fn known_container() -> (Container, Vec<Vec<Vec<u8>>>) {
    let het_bits = vec![vec![0.4f32.to_bits(), f32::NAN.to_bits()]];
    let rendered = vec![vec![render(0.4f32.to_bits()), render(f32::NAN.to_bits())]];
    let c = Container {
        geno_samples: 2,
        geno_planes: 2,
        geno_markers: 1,
        fams: vec![cell("FAM1"), cell("FAM2")],
        ids: vec![cell("ID1"), cell("ID2")],
        bim_cols: 5,
        bim: vec![vec![cell("1"), cell("rs1"), cell("12345"), cell("A"), cell("G")]],
        het: het_bits,
    };
    (c, rendered)
}

#[test]
fn round_trip_known_container() {
    let (c, rendered) = known_container();
    let out = convert(&c, &rendered).expect("conversion must succeed");
    let expected = format!(
        "{}FAM1_ID1\tFAM2_ID2\n1\t12345\trs1\tG\tA\t.\t.\t.\tDS\t0.2\t.",
        fixed_header_text()
    );
    assert_eq!(String::from_utf8(out).unwrap(), expected);
}

#[test]
fn header_sample_columns_match_stored_order() {
    let c = Container {
        geno_samples: 3,
        geno_planes: 2,
        geno_markers: 0,
        fams: vec![cell("F1"), cell("F2"), cell("F3")],
        ids: vec![cell("I1"), cell("I2"), cell("I3")],
        bim_cols: 5,
        bim: vec![],
        het: vec![],
    };
    let out = convert(&c, &vec![]).expect("conversion must succeed");
    let text = String::from_utf8(out).unwrap();
    let segment = &text[fixed_header_text().len()..];
    assert_eq!(segment, "F1_I1\tF2_I2\tF3_I3");
    assert_eq!(segment.split('\t').count(), 3);
}

#[test]
fn marker_fields_keep_column_remap() {
    let (mut c, rendered) = known_container();
    c.bim = vec![vec![cell("chrV"), cell("idV"), cell("posV"), cell("altV"), cell("refV")]];
    let out = convert(&c, &rendered).expect("conversion must succeed");
    let text = String::from_utf8(out).unwrap();
    let line = text.split('\n').last().unwrap();
    let fields: Vec<&str> = line.split('\t').collect();
    assert_eq!(fields[0], "chrV");
    assert_eq!(fields[1], "posV");
    assert_eq!(fields[2], "idV");
    assert_eq!(fields[3], "refV");
    assert_eq!(fields[4], "altV");
    assert_eq!(fields[5], ".");
    assert_eq!(fields[6], ".");
    assert_eq!(fields[7], ".");
    assert_eq!(fields[8], "DS");
}

#[test]
fn validator_rejects_ploidy_shortage() {
    let (mut c, rendered) = known_container();
    c.geno_planes = 1;
    let r = convert(&c, &rendered);
    assert!(matches!(
        r,
        Err(ConvertError::Schema(SchemaError::InsufficientPloidyPlanes))
    ));
}

#[test]
fn validator_rejects_sample_mismatch_between_tables() {
    let (mut c, rendered) = known_container();
    c.ids = vec![cell("ID1")];
    let r = convert(&c, &rendered);
    assert!(matches!(
        r,
        Err(ConvertError::Schema(SchemaError::SampleCountMismatch))
    ));
}

#[test]
fn validator_rejects_sample_mismatch_with_genotypes() {
    let (mut c, rendered) = known_container();
    c.fams = vec![cell("FAM1"), cell("FAM2"), cell("FAM3")];
    c.ids = vec![cell("ID1"), cell("ID2"), cell("ID3")];
    let r = convert(&c, &rendered);
    assert!(matches!(
        r,
        Err(ConvertError::Schema(SchemaError::SampleCountMismatch))
    ));
}

#[test]
fn validator_rejects_marker_mismatch() {
    let (mut c, mut rendered) = known_container();
    c.geno_markers = 2;
    c.het.push(vec![0u32, 0u32]);
    rendered.push(vec![render(0), render(0)]);
    let r = convert(&c, &rendered);
    assert!(matches!(
        r,
        Err(ConvertError::Schema(SchemaError::MarkerCountMismatch))
    ));
}

#[test]
fn validator_rejects_narrow_marker_table() {
    let (mut c, rendered) = known_container();
    c.bim_cols = 4;
    c.bim = vec![vec![cell("1"), cell("rs1"), cell("12345"), cell("A")]];
    let r = convert(&c, &rendered);
    assert!(matches!(
        r,
        Err(ConvertError::Schema(SchemaError::IncompleteMarkerInfo))
    ));
}

#[test]
fn non_ascii_identifier_is_rejected() {
    let (mut c, rendered) = known_container();
    let mut bad = cell("FAM1");
    bad[1] = 0xC3u8;
    c.fams = vec![bad, cell("FAM2")];
    let r = convert(&c, &rendered);
    assert!(matches!(r, Err(ConvertError::Decode(DecodeError::NonAscii))));
}

#[test]
fn gz_name_output_decompresses_to_plain_output() {
    let (c, rendered) = known_container();
    let plain = convert_for_name(&c, &rendered, &b"out.vcf".to_vec()).unwrap();
    let packed = convert_for_name(&c, &rendered, &b"out.vcf.gz".to_vec()).unwrap();
    assert_ne!(plain, packed);
    let mut unpacked = Vec::new();
    let mut dec = flate2::read::GzDecoder::new(packed.as_slice());
    std::io::Read::read_to_end(&mut dec, &mut unpacked).expect("gzip stream must decode");
    assert_eq!(unpacked, plain);
}

#[test]
fn conversion_is_idempotent() {
    let (c, rendered) = known_container();
    let a = convert_for_name(&c, &rendered, &b"out.vcf".to_vec()).unwrap();
    let b = convert_for_name(&c, &rendered, &b"out.vcf".to_vec()).unwrap();
    assert_eq!(a, b);
    let ga = convert_for_name(&c, &rendered, &b"out.vcf.gz".to_vec()).unwrap();
    let gb = convert_for_name(&c, &rendered, &b"out.vcf.gz".to_vec()).unwrap();
    assert_eq!(ga, gb);
}
