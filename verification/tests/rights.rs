use handle_abi::error::Error;
use handle_abi::error::ERR_ACCESS_DENIED;
use handle_abi::rights::HandleRights;
use handle_abi::rights::RIGHT_DUPLICATE;
use handle_abi::rights::RIGHT_READ;
use handle_abi::rights::RIGHT_TRANSFER;
use handle_abi::rights::RIGHT_WRITE;

#[test]
fn bit_layout_is_stable() {
    assert_eq!(RIGHT_DUPLICATE, 1);
    assert_eq!(RIGHT_TRANSFER, 2);
    assert_eq!(RIGHT_READ, 4);
    assert_eq!(RIGHT_WRITE, 8);
}

#[test]
fn new_and_bits_roundtrip() {
    for bits in 0..16u32 {
        assert_eq!(HandleRights::new(bits).bits(), bits);
    }
}

#[test]
fn has_is_subset_for_all_mask_pairs() {
    // Every pair of 4-bit masks: `has` succeeds exactly on the subsets.
    for granted in 0..16u32 {
        for required in 0..16u32 {
            let g = HandleRights::new(granted);
            let r = HandleRights::new(required);
            let outcome = g.has(r);
            if granted & required == required {
                assert_eq!(outcome, Ok(()));
            } else {
                assert_eq!(outcome, Err(Error::new(ERR_ACCESS_DENIED)));
            }
        }
    }
}

#[test]
fn empty_rights_are_a_subset_of_anything() {
    let none = HandleRights::new(0);
    assert_eq!(none.has(none), Ok(()));
    assert_eq!(HandleRights::new(RIGHT_READ | RIGHT_WRITE).has(none), Ok(()));
    assert_eq!(none.has(HandleRights::new(RIGHT_DUPLICATE)), Err(Error::new(ERR_ACCESS_DENIED)));
}

#[test]
fn contains_checks_every_requested_bit() {
    let rw = HandleRights::new(RIGHT_READ | RIGHT_WRITE);
    assert!(rw.contains(HandleRights::new(RIGHT_READ)));
    assert!(rw.contains(HandleRights::new(RIGHT_WRITE)));
    assert!(rw.contains(rw));
    assert!(!rw.contains(HandleRights::new(RIGHT_READ | RIGHT_TRANSFER)));
}
