use vanity_bip39::report::{score_to_dec, u64_to_dec, HitRecord};

#[test]
fn decimal_rendering_is_exact() {
    assert_eq!(u64_to_dec(0), "0");
    assert_eq!(u64_to_dec(7), "7");
    assert_eq!(u64_to_dec(10), "10");
    assert_eq!(u64_to_dec(400), "400");
    assert_eq!(u64_to_dec(12345), "12345");
    assert_eq!(u64_to_dec(u64::MAX), "18446744073709551615");
    assert_eq!(score_to_dec(0), "0");
    assert_eq!(score_to_dec(4000), "4000");
}

fn sample_record() -> HitRecord {
    HitRecord {
        duration_secs: 61,
        mnemonic: String::from("abandon abandon about"),
        address_hex: String::from("9858effd232b4033e47d90003d41ec34ecaeda94"),
        score: 4,
    }
}

#[test]
fn webhook_fields_are_flat_strings() {
    let fields = sample_record().webhook_fields();
    assert_eq!(fields.len(), 4);
    assert_eq!(fields[0], ("duration".to_string(), "61".to_string()));
    assert_eq!(fields[1], ("mnemonic".to_string(), "abandon abandon about".to_string()));
    assert_eq!(
        fields[2],
        ("address".to_string(), "9858effd232b4033e47d90003d41ec34ecaeda94".to_string())
    );
    assert_eq!(fields[3], ("score".to_string(), "4".to_string()));
}

#[test]
fn console_block_has_the_four_lines() {
    let lines = sample_record().console_lines();
    assert_eq!(lines.len(), 4);
    assert_eq!(lines[0], "Time: 61s");
    assert_eq!(lines[1], "BIP39: abandon abandon about");
    assert_eq!(lines[2], "Address: 0x9858effd232b4033e47d90003d41ec34ecaeda94");
    assert_eq!(lines[3], "Score: 4");
}
