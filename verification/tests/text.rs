use handle_abi::error::Error;

const TABLE: [&str; 20] = [
    "The operation succeeded.",
    "The system encountered an otherwise unspecified error while performing the operation.",
    "The operation is not implemented, supported, or enabled.",
    "The system was not able to allocate some resource needed for the operation.",
    "The system was not able to allocate memory needed for the operation.",
    "An argument passed was invalid.",
    "A specified handle value does not refer to a valid handle.",
    "The subject of the operation is the wrong type to perform the operation.",
    "An argument is outside of the valid range for this operation.",
    "A caller provided buffer is too small for this operation.",
    "The operation failed because the current state of the object does not allow it, or a precondition of the operation is not satisfied.",
    "The time limit for the operation elapsed before the operation completed.",
    "The operation cannot be performed currently.",
    "The in-progress operation (e.g. a wait) has been canceled.",
    "The operation failed because the remote end of the subject of the operation was closed.",
    "The requested entity is not found.",
    "An object with the specified identifier already exists.",
    "The operation failed because the specified entity is already owned or controlled.",
    "The subject of the operation is currently unable to perform the operation.",
    "The caller did not have permission to perform the specified operation.",
];

const FALLBACK: &str = "An Unknown error occurred.";

#[test]
fn every_defined_kind_has_its_slot_verbatim() {
    for errno in -19..=0i32 {
        let e = Error::new(errno);
        assert_eq!(e.text(), TABLE[(-errno) as usize]);
    }
}

#[test]
fn defined_kinds_never_fall_back() {
    for errno in -19..=-1i32 {
        assert_ne!(Error::new(errno).text(), FALLBACK);
    }
}

#[test]
fn out_of_table_codes_fall_back() {
    for errno in [-20, -100, 1, 5, 20, i32::MIN, i32::MAX] {
        assert_eq!(Error::new(errno).text(), FALLBACK);
    }
}

#[test]
fn table_slots_are_pairwise_distinct() {
    for i in 0..TABLE.len() {
        for j in 0..TABLE.len() {
            if i != j {
                assert_ne!(TABLE[i], TABLE[j]);
            }
        }
    }
}
