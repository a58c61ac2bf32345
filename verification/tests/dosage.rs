use h5tovcf::dosage::{Dosage, dosage_of_bits, finite_bits, half_bits};
use h5tovcf::vcf::marker_line;

fn cell(s: &str) -> Vec<u8> {
    let mut v = s.as_bytes().to_vec();
    while v.len() < 20 {
        v.push(0u8);
    }
    v
}

#[test]
fn half_bits_matches_hardware_division() {
    let samples: Vec<f32> = vec![
        0.0f32,
        -0.0f32,
        1.0f32,
        -1.0f32,
        0.4f32,
        0.2f32,
        3.1415927f32,
        2.0f32,
        1.5f32,
        f32::MIN_POSITIVE,
        -f32::MIN_POSITIVE,
        f32::MAX,
        f32::MIN,
        1.0e-40f32,
        -1.0e-40f32,
        1.4e-45f32,
        2.8e-45f32,
        4.2e-45f32,
        123456.78f32,
        0.1f32,
        0.3f32,
    ];
    for v in samples {
        assert_eq!(
            half_bits(v.to_bits()),
            (v / 2.0f32).to_bits(),
            "halving mismatch for {v}"
        );
    }
}

#[test]
fn half_bits_matches_hardware_division_on_swept_patterns() {
    let mut bits: u32 = 0;
    for _ in 0..20000 {
        bits = bits.wrapping_mul(1664525).wrapping_add(1013904223);
        let v = f32::from_bits(bits);
        if v.is_finite() {
            assert_eq!(half_bits(bits), (v / 2.0f32).to_bits(), "mismatch at {bits:#x}");
        }
    }
    for low in 0u32..2048u32 {
        let v = f32::from_bits(low);
        assert_eq!(half_bits(low), (v / 2.0f32).to_bits(), "mismatch at {low:#x}");
        let neg = low | 0x8000_0000;
        let w = f32::from_bits(neg);
        assert_eq!(half_bits(neg), (w / 2.0f32).to_bits(), "mismatch at {neg:#x}");
    }
}

#[test]
fn finiteness_classification() {
    assert!(!finite_bits(f32::NAN.to_bits()));
    assert!(!finite_bits(f32::INFINITY.to_bits()));
    assert!(!finite_bits(f32::NEG_INFINITY.to_bits()));
    assert!(finite_bits(0.0f32.to_bits()));
    assert!(finite_bits(f32::MAX.to_bits()));
    assert_eq!(dosage_of_bits(f32::NAN.to_bits()), Dosage::Missing);
    assert_eq!(dosage_of_bits(f32::INFINITY.to_bits()), Dosage::Missing);
    assert_eq!(
        dosage_of_bits(0.4f32.to_bits()),
        Dosage::Halved((0.4f32 / 2.0f32).to_bits())
    );
}

#[test]
fn dosage_text_reparses_to_half_within_tolerance() {
    let row = vec![cell("1"), cell("rs1"), cell("12345"), cell("A"), cell("G")];
    let values: Vec<f32> = vec![0.4f32, 1.0f32, 3.3f32, 0.0f32, 1.7f32];
    let bits: Vec<u32> = values.iter().map(|v| v.to_bits()).collect();
    let rendered: Vec<Vec<u8>> = bits
        .iter()
        .map(|b| f32::from_bits(half_bits(*b)).to_string().into_bytes())
        .collect();
    let line = marker_line(&row, &bits, &rendered).expect("line must build");
    let text = String::from_utf8(line).unwrap();
    let fields: Vec<&str> = text.split('\t').collect();
    assert_eq!(fields.len(), 9 + values.len());
    for (k, v) in values.iter().enumerate() {
        let parsed: f32 = fields[9 + k].parse().expect("dosage must reparse");
        assert!((parsed - v / 2.0f32).abs() <= f32::EPSILON * parsed.abs().max(1.0));
    }
}

#[test]
fn missing_token_appears_exactly_for_nonfinite_values() {
    let row = vec![cell("1"), cell("rs1"), cell("12345"), cell("A"), cell("G")];
    let values: Vec<f32> = vec![f32::NAN, 0.4f32, f32::INFINITY, f32::NEG_INFINITY, 2.0f32];
    let bits: Vec<u32> = values.iter().map(|v| v.to_bits()).collect();
    let rendered: Vec<Vec<u8>> = bits
        .iter()
        .map(|b| f32::from_bits(half_bits(*b)).to_string().into_bytes())
        .collect();
    let line = marker_line(&row, &bits, &rendered).expect("line must build");
    let text = String::from_utf8(line).unwrap();
    let fields: Vec<&str> = text.split('\t').collect();
    for (k, v) in values.iter().enumerate() {
        assert_eq!(fields[9 + k] == ".", !v.is_finite(), "token mismatch for {v}");
    }
}
