use todo_server::diagnostic::{
    classify, diagnose, diagnostic_record, Severity, UnitSample, SAMPLE_RESOLUTION,
};

#[test]
fn resolution_is_two_to_the_24() {
    assert_eq!(SAMPLE_RESOLUTION, 16_777_216);
}

#[test]
fn sample_keeps_the_24_high_bits() {
    assert_eq!(UnitSample::from_word(0).get_numerator(), 0);
    assert_eq!(UnitSample::from_word(255).get_numerator(), 0);
    assert_eq!(UnitSample::from_word(256).get_numerator(), 1);
    assert_eq!(UnitSample::from_word(0x8000_0000).get_numerator(), 0x80_0000);
    assert_eq!(UnitSample::from_word(u32::MAX).get_numerator(), 0xFF_FFFF);
}

#[test]
fn zero_is_informational() {
    assert_eq!(classify(UnitSample::from_word(0)), Severity::Info);
}

#[test]
fn just_below_one_half_is_informational() {
    assert_eq!(classify(UnitSample::from_word(0x7FFF_FFFF)), Severity::Info);
    assert_eq!(classify(UnitSample::from_word(0x7FFF_FF00)), Severity::Info);
}

#[test]
fn one_half_is_an_error() {
    assert_eq!(classify(UnitSample::from_word(0x8000_0000)), Severity::Error);
}

#[test]
fn just_below_one_is_an_error() {
    assert_eq!(classify(UnitSample::from_word(u32::MAX)), Severity::Error);
}

#[test]
fn threshold_agrees_with_the_float_comparison() {
    let words: [u32; 8] =
        [0, 1, 0x3FFF_FFFF, 0x7FFF_FEFF, 0x7FFF_FFFF, 0x8000_0000, 0x8000_0100, u32::MAX];
    for word in words {
        let sample = UnitSample::from_word(word);
        let value = sample.get_numerator() as f32 / SAMPLE_RESOLUTION as f32;
        assert!((0.0..1.0).contains(&value));
        let expected = if value < 0.5 { Severity::Info } else { Severity::Error };
        assert_eq!(classify(sample), expected);
    }
}

#[test]
fn record_text_goes_with_the_severity() {
    let low = diagnostic_record(UnitSample::from_word(0x1234_5678));
    assert_eq!(low.severity, Severity::Info);
    assert_eq!(low.message, "C");
    let high = diagnostic_record(UnitSample::from_word(0xFEDC_BA98));
    assert_eq!(high.severity, Severity::Error);
    assert_eq!(high.message, "E");
}

#[test]
fn uniform_samples_split_one_to_one() {
    let draws: u32 = 10_000;
    let mut info: u32 = 0;
    let mut error: u32 = 0;
    for draw in 0..draws {
        let numerator = (u64::from(draw) * u64::from(SAMPLE_RESOLUTION) / u64::from(draws)) as u32;
        match classify(UnitSample::from_word(numerator << 8)) {
            Severity::Info => info += 1,
            Severity::Error => error += 1,
        }
    }
    assert_eq!(info, 5_000);
    assert_eq!(error, 5_000);
}

#[test]
fn every_draw_logs_one_record_and_the_two_kinds_balance() {
    let draws: u32 = 10_000;
    let mut info: u32 = 0;
    let mut error: u32 = 0;
    for _ in 0..draws {
        let record = diagnose();
        match record.severity {
            Severity::Info => {
                assert_eq!(record.message, "C");
                info += 1;
            }
            Severity::Error => {
                assert_eq!(record.message, "E");
                error += 1;
            }
        }
    }
    assert_eq!(info + error, draws);
    assert!(info > 4_500 && info < 5_500, "informational records: {}", info);
    assert!(error > 4_500 && error < 5_500, "error records: {}", error);
}
