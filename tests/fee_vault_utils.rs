use blendizzard::vault::calculate_expected_shares;

#[test]
fn test_calculate_expected_shares() {
    // First deposit
    assert_eq!(calculate_expected_shares(1000, 0, 0), 1000);

    // Subsequent deposits
    assert_eq!(calculate_expected_shares(1000, 5000, 5000), 1000);
    assert_eq!(calculate_expected_shares(500, 1000, 2000), 250);
}
