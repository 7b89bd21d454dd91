use vanity_bip39::score::{calc_score, score_nibble};

#[test]
fn all_zero_address_scores_4000() {
    let address = [0u8; 20];
    assert_eq!(calc_score(&address), 4000);
}

#[test]
fn all_zero_digest_scores_4000() {
    // The scorer reads the last 20 bytes of a 32-byte digest.
    let digest = [0u8; 32];
    assert_eq!(calc_score(&digest), 4000);
}

#[test]
fn leading_bytes_of_longer_input_are_ignored() {
    let mut digest = [0u8; 32];
    for i in 0..12 {
        digest[i] = 0xff;
    }
    assert_eq!(calc_score(&digest), 4000);
}

#[test]
fn single_non_zero_nibble_accounting() {
    // One non-zero nibble at position k scores 100*k + (39 - k).
    // k = 0: high nibble of the first byte.
    let mut address = [0u8; 20];
    address[0] = 0x10;
    assert_eq!(calc_score(&address), 39);

    // k = 1: low nibble of the first byte.
    let mut address = [0u8; 20];
    address[0] = 0x01;
    assert_eq!(calc_score(&address), 100 + 38);

    // k = 3: low nibble of the second byte.
    let mut address = [0u8; 20];
    address[1] = 0x0f;
    assert_eq!(calc_score(&address), 100 * 3 + 36);

    // k = 39: low nibble of the last byte.
    let mut address = [0u8; 20];
    address[19] = 0x02;
    assert_eq!(calc_score(&address), 100 * 39);
}

#[test]
fn one_more_leading_zero_nibble() {
    // Nibbles 1,0,...,0: no leading zeros, 39 interior zeros.
    let mut address = [0u8; 20];
    address[0] = 0x10;
    let before = calc_score(&address);
    assert_eq!(before, 39);

    // Nibbles 0,1,0,...,0: the shifted-in leading zero earns 100 and the
    // dropped trailing zero had earned 1.
    let mut address = [0u8; 20];
    address[0] = 0x01;
    let after = calc_score(&address);
    assert_eq!(after, before + 100 - 1);
}

#[test]
fn interior_zeros_count_one_apiece() {
    // Nibbles f,0,f,0,...,f,0: no leading zeros, and the 20 zeros at the
    // odd positions are all interior -> 20 points.
    let address = [0xf0u8; 20];
    assert_eq!(calc_score(&address), 20);
}

#[test]
fn score_nibble_follows_the_flag() {
    let mut reached = false;
    assert_eq!(score_nibble(0, &mut reached), 100);
    assert!(!reached);

    assert_eq!(score_nibble(7, &mut reached), 0);
    assert!(reached);

    assert_eq!(score_nibble(0, &mut reached), 1);
    assert!(reached);

    assert_eq!(score_nibble(3, &mut reached), 0);
    assert!(reached);
}

#[test]
fn mixed_address_scores_exactly() {
    // Nibbles 0,0,a,0,0,...: two leading zeros, one non-zero, 37 interior
    // zeros -> 200 + 37.
    let mut address = [0u8; 20];
    address[1] = 0xa0;
    assert_eq!(calc_score(&address), 237);
}
