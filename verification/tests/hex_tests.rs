use rustry::hexbytes::{from_hex, from_hex_bytes};
use rustry::provider::ExecRes;

#[test]
fn decodes_both_cases() {
    assert_eq!(from_hex("600b").unwrap(), vec![0x60, 0x0b]);
    assert_eq!(from_hex("DEADbeef").unwrap(), vec![0xde, 0xad, 0xbe, 0xef]);
    assert_eq!(from_hex("").unwrap(), Vec::<u8>::new());
    assert_eq!(from_hex("00ff").unwrap(), vec![0x00, 0xff]);
}

#[test]
fn rejects_odd_length_and_bad_digits() {
    assert!(from_hex("abc").is_none());
    assert!(from_hex("zz").is_none());
    assert!(from_hex("0x60").is_none());
    assert!(from_hex_bytes(b"6 0").is_none());
}

#[test]
fn agrees_with_the_reference_decoder() {
    let samples = ["", "00", "0123456789abcdefABCDEF", "600c600c600039600c6000f3"];
    for s in samples {
        assert_eq!(from_hex(s).unwrap(), hex::decode(s).unwrap());
    }
    assert!(from_hex("g0").is_none());
    assert!(hex::decode("g0").is_err());
}

#[test]
fn exec_res_output_accessor() {
    let s = ExecRes::Success(vec![1, 2]);
    assert_eq!(s.output(), Some(&vec![1, 2]));
    let r = ExecRes::Revert(vec![3]);
    assert_eq!(r.output(), Some(&vec![3]));
}
