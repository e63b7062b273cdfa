use gbaemu::text::{number, push_number, push_truth};

#[test]
fn hexadecimal_with_a_minimum_width() {
    assert_eq!(number(0, 16, 8), format!("{:08x}", 0));
    assert_eq!(number(0xdead_beef, 16, 8), format!("{:08x}", 0xdead_beefu32));
    assert_eq!(number(0xab, 16, 2), "ab");
    assert_eq!(number(0x5, 16, 2), "05");
    assert_eq!(number(0x12345, 16, 4), "12345");
    assert_eq!(number(0xd3, 16, 4), "00d3");
}

#[test]
fn decimal_without_padding() {
    assert_eq!(number(0, 10, 0), "0");
    assert_eq!(number(9, 10, 0), "9");
    assert_eq!(number(10, 10, 0), "10");
    assert_eq!(number(67108860, 10, 0), "67108860");
    assert_eq!(number(u64::MAX, 10, 0), format!("{}", u64::MAX));
}

#[test]
fn binary_with_a_minimum_width() {
    assert_eq!(number(0b10011, 2, 5), "10011");
    assert_eq!(number(0b10000, 2, 5), "10000");
    assert_eq!(number(1, 2, 5), "00001");
    assert_eq!(number(0, 2, 5), "00000");
    assert_eq!(number(0b100000, 2, 5), "100000");
}

#[test]
fn every_base_agrees_with_the_standard_formatting() {
    for n in [0u64, 1, 7, 8, 15, 16, 255, 256, 4095, 65535, 0x1234_5678, u64::MAX] {
        assert_eq!(number(n, 16, 0), format!("{:x}", n));
        assert_eq!(number(n, 16, 10), format!("{:010x}", n));
        assert_eq!(number(n, 10, 0), format!("{}", n));
        assert_eq!(number(n, 10, 6), format!("{:06}", n));
        assert_eq!(number(n, 2, 0), format!("{:b}", n));
        assert_eq!(number(n, 8, 3), format!("{:03o}", n));
    }
}

#[test]
fn push_number_appends() {
    let mut s = String::from("R");
    push_number(&mut s, 12, 10, 0);
    s.push_str(": ");
    push_number(&mut s, 0xbeef, 16, 8);
    assert_eq!(s, "R12: 0000beef");
}

#[test]
fn push_truth_spells_the_value() {
    let mut s = String::from("(p:");
    push_truth(&mut s, true);
    s.push_str(") (u:");
    push_truth(&mut s, false);
    s.push(')');
    assert_eq!(s, "(p:true) (u:false)");
}
