use handle_abi::error::Error;
use handle_abi::error::ERR_ACCESS_DENIED;
use handle_abi::error::ERR_INTERNAL;

#[test]
fn roundtrip_every_error_kind() {
    for errno in -19..=-1i32 {
        let e = Error::new(errno);
        let word = Error::mux(Err(e));
        assert_eq!(word, (-errno) as u64);
        assert_eq!(Error::demux(word), Err(e));
    }
}

#[test]
fn roundtrip_success_values() {
    for v in [0u32, 20, 42, 1000, 65536, u32::MAX] {
        assert_eq!(Error::demux(Error::mux(Ok(v))), Ok(v));
    }
}

#[test]
fn scenario_ok_42() {
    assert_eq!(Error::mux(Ok(42u32)), 42u64);
    assert_eq!(Error::demux(42), Ok(42u32));
}

#[test]
fn scenario_access_denied() {
    let e = Error::new(ERR_ACCESS_DENIED);
    assert_eq!(e.errno, -19);
    assert_eq!(Error::mux(Err(e)), 19u64);
    assert_eq!(Error::demux(19), Err(e));
}

#[test]
fn zero_decodes_as_success() {
    assert_eq!(Error::demux(0), Ok(0u32));
}

#[test]
fn first_word_past_the_table_decodes_as_success() {
    assert_eq!(Error::demux(20), Ok(20u32));
}

#[test]
fn reserved_window_aliases_to_errors() {
    // The documented hazard of the encoding: a genuine success value inside
    // the reserved window decodes as a failure.
    assert_eq!(Error::mux(Ok(5u32)), 5u64);
    assert_eq!(Error::demux(5), Err(Error::new(-5)));
}

#[test]
fn success_payload_is_the_low_word() {
    assert_eq!(Error::demux((1u64 << 32) + 7), Ok(7u32));
    assert_eq!(Error::demux(u64::MAX), Ok(u32::MAX));
}

#[test]
fn roundtrip_size_error_kinds() {
    for errno in -19..=-1i32 {
        let e = Error::new(errno);
        let word = Error::mux_size(Err(e));
        assert_eq!(word, (-errno) as usize);
        assert_eq!(Error::demux_size(word), Err(e));
    }
}

#[test]
fn roundtrip_size_success_values() {
    for v in [0usize, 20, 42, 4096, usize::MAX] {
        assert_eq!(Error::demux_size(Error::mux_size(Ok(v))), Ok(v));
    }
}

#[test]
fn missing_value_degrades_to_internal() {
    assert_eq!(Error::ok_or_internal(Some(3u32)), Ok(3u32));
    assert_eq!(Error::ok_or_internal::<u32>(None), Err(Error::new(ERR_INTERNAL)));
}
