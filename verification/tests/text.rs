use flappydive::draw::Label;
use flappydive::text::append_padded;

fn padded(n: i64, width: usize) -> String {
    let mut s = String::new();
    append_padded(&mut s, n, width);
    s
}

#[test]
fn invitations() {
    assert_eq!(Label::PressSpace.text(), "Press <space> to begin");
    assert_eq!(Label::YouSunk.text(), "You sunk. Press <space> to try again");
}

#[test]
fn score_line_pads_to_six_digits() {
    assert_eq!(
        Label::Score { score: 0, high_score: 0 }.text(),
        "Score: 000000   Hi-Score: 000000"
    );
    assert_eq!(
        Label::Score { score: 42, high_score: 1234 }.text(),
        "Score: 000042   Hi-Score: 001234"
    );
    assert_eq!(
        Label::Score { score: 999_999, high_score: 1_000_000 }.text(),
        "Score: 999999   Hi-Score: 1000000"
    );
}

#[test]
fn score_line_agrees_with_std_formatting() {
    let values = [0i64, 1, 9, 10, 99, 100, 12_345, 99_999, 100_000, 999_999, 1_000_000, i64::MAX];
    for a in values {
        for b in values {
            assert_eq!(
                Label::Score { score: a, high_score: b }.text(),
                format!("Score: {:06}   Hi-Score: {:06}", a, b)
            );
        }
    }
}

#[test]
fn padding_follows_the_sign() {
    assert_eq!(padded(-1, 6), "-00001");
    assert_eq!(padded(-12_345, 6), "-12345");
    assert_eq!(padded(-123_456, 6), "-123456");
    assert_eq!(padded(i64::MIN, 6), "-9223372036854775808");
    for n in [-1i64, -9, -10, -99_999, -100_000, i64::MIN, i64::MIN + 1] {
        for w in [0usize, 1, 2, 6, 25] {
            assert_eq!(padded(n, w), format!("{:0w$}", n, w = w));
        }
    }
}

#[test]
fn padding_to_other_widths() {
    assert_eq!(padded(7, 0), "7");
    assert_eq!(padded(7, 1), "7");
    assert_eq!(padded(7, 3), "007");
    assert_eq!(padded(0, 2), "00");
    assert_eq!(padded(u32::MAX as i64, 12), "004294967295");
}

#[test]
fn append_keeps_what_was_there() {
    let mut s = String::from("fc=");
    append_padded(&mut s, 5, 2);
    append_padded(&mut s, -5, 3);
    assert_eq!(s, "fc=05-05");
}
