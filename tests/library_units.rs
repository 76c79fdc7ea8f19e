use shredder::patterns::WipePattern;
use shredder::secure_erase::perform_secure_erase;
use shredder::plan::{build_plan, Step};
use shredder::standards::{
    LegacyConfig, LegacyStandard, Nist80088Config, SanitizationMethod, VerificationLevel,
    WipeStandard,
};
use shredder::storage::{StorageCapabilities, StorageType};
use shredder::text::with_decimal;
use shredder::{Shredder, WipeError};

fn caps(trim: bool, erase: bool, wear: bool) -> StorageCapabilities {
    StorageCapabilities {
        supports_trim: trim,
        supports_secure_erase: erase,
        supports_nvme_sanitize: false,
        has_wear_leveling: wear,
    }
}

fn hdd() -> StorageType {
    StorageType::Hdd(caps(false, true, false))
}

fn kind(p: &WipePattern) -> String {
    match p {
        WipePattern::Zeros => "Z".to_string(),
        WipePattern::Ones => "O".to_string(),
        WipePattern::Random => "R".to_string(),
        WipePattern::Custom(b) => format!("{:02X}{:02X}{:02X}", b[0], b[1], b[2]),
    }
}

#[test]
fn test_zero_pattern() {
    let mut buffer = vec![0xFF; 1024];
    WipePattern::Zeros.fill_buffer(&mut buffer);
    assert!(buffer.iter().all(|&b| b == 0));
}

#[test]
fn patterns_test_custom_pattern() {
    let pattern = vec![0x55, 0xAA];
    let mut buffer = vec![0; 4];
    WipePattern::Custom(pattern).fill_buffer(&mut buffer);
    assert_eq!(buffer, vec![0x55, 0xAA, 0x55, 0xAA]);
}

#[test]
fn custom_fill_cuts_the_last_repetition() {
    let mut buffer = vec![0; 5];
    WipePattern::Custom(vec![1, 2, 3]).fill_buffer(&mut buffer);
    assert_eq!(buffer, vec![1, 2, 3, 1, 2]);
}

#[test]
fn ones_fill_every_byte() {
    let mut buffer = vec![0x12; 33];
    WipePattern::Ones.fill_buffer(&mut buffer);
    assert!(buffer.iter().all(|&b| b == 0xFF));
}

#[test]
fn random_fill_overwrites_the_buffer() {
    let mut buffer = vec![0u8; 4096];
    WipePattern::Random.fill_buffer(&mut buffer);
    assert_eq!(buffer.len(), 4096);
    assert!(buffer.iter().any(|&b| b != 0));
    let first = buffer.clone();
    WipePattern::Random.fill_buffer(&mut buffer);
    assert_ne!(first, buffer);
}

#[test]
fn fill_then_verify_holds_for_every_pattern_and_length() {
    let patterns = vec![
        WipePattern::Zeros,
        WipePattern::Ones,
        WipePattern::Random,
        WipePattern::Custom(vec![0xAA]),
        WipePattern::Custom(vec![0x92, 0x49, 0x24]),
        WipePattern::Custom(vec![9; 7]),
    ];
    for p in patterns.iter() {
        for len in [0usize, 1, 2, 3, 7, 100, 4096] {
            let mut buffer = vec![0x5Au8; len];
            p.fill_buffer(&mut buffer);
            assert!(p.verify_buffer(&buffer), "{:?} over {}", p, len);
        }
    }
}

#[test]
fn verify_rejects_a_wrong_byte() {
    let mut buffer = vec![0u8; 10];
    buffer[7] = 1;
    assert!(!WipePattern::Zeros.verify_buffer(&buffer));
    assert!(!WipePattern::Ones.verify_buffer(&buffer));
    assert!(WipePattern::Random.verify_buffer(&buffer));
    let mut tiled = vec![0u8; 6];
    WipePattern::Custom(vec![0x55, 0xAA]).fill_buffer(&mut tiled);
    tiled[5] = 0x55;
    assert!(!WipePattern::Custom(vec![0x55, 0xAA]).verify_buffer(&tiled));
    assert!(WipePattern::Zeros.verify_buffer(&[]));
}

#[test]
fn dod_has_three_passes_in_order() {
    let p = LegacyStandard::Dod522022M.get_patterns();
    let names: Vec<String> = p.iter().map(kind).collect();
    assert_eq!(names, vec!["Z", "O", "R"]);
}

#[test]
fn vsitr_has_seven_passes_in_order() {
    let p = LegacyStandard::VsitrStandard.get_patterns();
    let names: Vec<String> = p.iter().map(kind).collect();
    assert_eq!(names, vec!["Z", "O", "Z", "O", "Z", "O", "R"]);
}

#[test]
fn gutmann_has_thirty_five_passes() {
    let p = LegacyStandard::Gutmann.get_patterns();
    assert_eq!(p.len(), 35);
    let names: Vec<String> = p.iter().map(kind).collect();
    let expected = vec![
        "R", "R", "R", "R", "555555", "AAAAAA", "924924", "492492", "249249", "000000",
        "111111", "222222", "333333", "444444", "555555", "666666", "777777", "888888",
        "999999", "AAAAAA", "BBBBBB", "CCCCCC", "DDDDDD", "EEEEEE", "FFFFFF", "924924",
        "492492", "249249", "6DB6DB", "B6DB6D", "DB6DB6", "R", "R", "R", "R",
    ];
    assert_eq!(names, expected);
}

#[test]
fn buffer_size_is_clamped() {
    let base = Shredder::new(
        WipeStandard::Modern(Nist80088Config {
            method: SanitizationMethod::Clear,
            verify_level: VerificationLevel::Full,
        }),
        hdd(),
    );
    assert_eq!(base.get_buffer_size(), 1024 * 1024);
    assert_eq!(base.clone().with_buffer_size(0).get_buffer_size(), 4096);
    assert_eq!(base.clone().with_buffer_size(4095).get_buffer_size(), 4096);
    assert_eq!(base.clone().with_buffer_size(4097).get_buffer_size(), 4097);
    assert_eq!(base.clone().with_buffer_size(16 * 1024 * 1024).get_buffer_size(), 16 * 1024 * 1024);
    assert_eq!(base.clone().with_buffer_size(usize::MAX).get_buffer_size(), 16 * 1024 * 1024);
    assert_eq!(base.with_buffer_size(100_000).with_buffer_size(1).get_buffer_size(), 4096);
}

#[test]
fn pass_buffer_scales_with_the_file() {
    let s = Shredder::new(
        WipeStandard::Legacy(LegacyConfig {
            standard: LegacyStandard::Dod522022M,
            extra_verification: false,
        }),
        hdd(),
    );
    assert_eq!(s.calculate_optimal_buffer_size(0), 0);
    assert_eq!(s.calculate_optimal_buffer_size(4095), 4095);
    assert_eq!(s.calculate_optimal_buffer_size(4096), 4096);
    assert_eq!(s.calculate_optimal_buffer_size(1_000_000), 10_000);
    assert_eq!(s.calculate_optimal_buffer_size(1 << 40), 8 * 1024 * 1024);
}

#[test]
fn flash_never_supports_secure_erase() {
    assert!(!StorageType::Flash(caps(true, true, true)).supports_secure_erase());
    assert!(StorageType::Ssd(caps(false, true, false)).supports_secure_erase());
    assert!(StorageType::Hdd(caps(false, true, false)).supports_secure_erase());
    assert!(!StorageType::Hdd(caps(false, false, false)).supports_secure_erase());
}

#[test]
fn wear_leveling_only_on_solid_state_media() {
    assert!(!StorageType::Hdd(caps(true, true, true)).requires_wear_leveling_handling());
    assert!(StorageType::Ssd(caps(false, false, true)).requires_wear_leveling_handling());
    assert!(StorageType::Flash(caps(false, false, true)).requires_wear_leveling_handling());
    assert!(!StorageType::Flash(caps(true, false, false)).requires_wear_leveling_handling());
    assert!(StorageType::Ssd(caps(true, false, true)).wants_trim());
    assert!(!StorageType::Flash(caps(false, false, true)).wants_trim());
}

#[test]
fn secure_erase_is_unsupported_without_a_platform() {
    match perform_secure_erase("/dev/sda") {
        Err(WipeError::UnsupportedOperation(m)) => {
            assert_eq!(m, "Secure erase not supported on this platform")
        }
        other => panic!("unexpected {:?}", other),
    }
}

#[test]
fn legacy_plan_interleaves_checks() {
    let standard = WipeStandard::Legacy(LegacyConfig {
        standard: LegacyStandard::Dod522022M,
        extra_verification: true,
    });
    let plan = build_plan(&standard, false);
    let shape: Vec<String> = plan
        .iter()
        .map(|s| match s {
            Step::Overwrite(p) => kind(p),
            Step::Verify(l) => format!("{:?}", l),
        })
        .collect();
    assert_eq!(shape, vec!["Z", "Basic", "O", "Basic", "R", "Basic", "Full"]);
}

#[test]
fn purge_plan_depends_on_the_erase() {
    let standard = WipeStandard::Modern(Nist80088Config {
        method: SanitizationMethod::Purge,
        verify_level: VerificationLevel::Enhanced,
    });
    assert_eq!(build_plan(&standard, true).len(), 1);
    let fallback = build_plan(&standard, false);
    let shape: Vec<String> = fallback
        .iter()
        .map(|s| match s {
            Step::Overwrite(p) => kind(p),
            Step::Verify(l) => format!("{:?}", l),
        })
        .collect();
    assert_eq!(shape, vec!["R", "Z", "O", "R", "Enhanced"]);
}

#[test]
fn offsets_are_written_in_decimal() {
    assert_eq!(with_decimal("at ", 0), "at 0");
    assert_eq!(with_decimal("at ", 10), "at 10");
    assert_eq!(with_decimal("at ", 1_234_567_890), "at 1234567890");
    assert_eq!(with_decimal("", u64::MAX), "18446744073709551615");
}
