use arb_cpi::error::PinocchioCpiError;
use arb_cpi::registry::{get_pool_info_by_num, validate_pool_types, UNSUPPORTED_POOL_ACCOUNTS};

#[test]
fn registry_counts_for_every_valid_tag() {
    let expected = [7usize, 9, 6, 16, 5, 10, 8];
    for tag in 0u8..7 {
        assert_eq!(get_pool_info_by_num(tag), expected[tag as usize]);
        assert_eq!(validate_pool_types(tag), Ok(expected[tag as usize]));
    }
}

#[test]
fn registry_rejects_every_tag_from_seven() {
    for tag in 7u8..=255 {
        assert_eq!(get_pool_info_by_num(tag), UNSUPPORTED_POOL_ACCOUNTS);
        assert_eq!(validate_pool_types(tag), Err(PinocchioCpiError::UnsupportedPoolType));
    }
}
