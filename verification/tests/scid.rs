use altpay::scid::{cl_to_int, cl_to_int_checked, sendpay_channel, u64_cl};
use cln_rpc::primitives::ShortChannelId;

#[test]
fn channel_texts_become_numbers() {
    assert_eq!(cl_to_int("0x0x0"), 0);
    assert_eq!(cl_to_int("1x2x3"), (1u64 << 40) | (2 << 16) | 3);
    assert_eq!(cl_to_int("700000x1234x1"), 769658139524071425);
    assert_eq!(cl_to_int("16777215x16777215x65535"), u64::MAX);
}

#[test]
fn channel_numbers_become_texts() {
    assert_eq!(u64_cl(0), "0x0x0");
    assert_eq!(u64_cl(769658139524071425), "700000x1234x1");
    assert_eq!(u64_cl(u64::MAX), "16777215x16777215x65535");
}

#[test]
fn further_pieces_do_not_matter() {
    assert_eq!(cl_to_int("1x2x3x4"), cl_to_int("1x2x3"));
    assert_eq!(cl_to_int("1x2x3xabc"), cl_to_int("1x2x3"));
}

#[test]
fn wide_pieces_run_into_each_other() {
    assert_eq!(cl_to_int("0x0x65536"), 1 << 16);
    assert_eq!(cl_to_int("0x16777216x0"), 1 << 40);
    assert_eq!(cl_to_int("16777216x0x0"), 0);
    assert_eq!(cl_to_int("1x1x18446744073709551615"), u64::MAX);
}

#[test]
fn malformed_channel_texts() {
    for s in ["", "x", "1x2", "1x2x", "axbxc", "1:2:3", "1x2x-3", "null", "1x18446744073709551616x3"] {
        assert_eq!(cl_to_int_checked(s), None, "{:?}", s);
    }
    assert_eq!(cl_to_int_checked("+1x02x3"), Some((1u64 << 40) | (2 << 16) | 3));
}

#[test]
fn texts_and_numbers_round_trip() {
    for n in [0u64, 1, 65535, 65536, 1 << 40, 769658139524071425, u64::MAX] {
        assert_eq!(cl_to_int(&u64_cl(n)), n);
    }
    for s in ["0x0x0", "1x2x3", "16777215x0x65535", "800000x2345x0"] {
        assert_eq!(u64_cl(cl_to_int(s)), s);
    }
}

#[test]
fn different_channels_have_different_texts() {
    assert_ne!(u64_cl(1), u64_cl(1 << 16));
    assert_ne!(u64_cl(1 << 16), u64_cl(1 << 40));
}

#[test]
fn the_node_reads_every_channel_text() {
    for n in [0u64, 1, 65536, 769658139524071425, u64::MAX] {
        assert_eq!(sendpay_channel(n), u64_cl(n));
        let id: ShortChannelId = sendpay_channel(n).parse().unwrap();
        assert_eq!(id.to_string(), u64_cl(n));
    }
}

#[test]
fn the_parser_of_the_node_is_strict() {
    assert!("1x2x3x4".parse::<ShortChannelId>().is_err());
    assert!("1x2".parse::<ShortChannelId>().is_err());
    assert_eq!("+1x02x3".parse::<ShortChannelId>().unwrap().to_string(), "1x2x3");
    assert_eq!("0x0x65536".parse::<ShortChannelId>().unwrap().to_string(), "0x1x0");
}
