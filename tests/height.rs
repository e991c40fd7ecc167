use ibc::height::{Height, HeightError};
use ibc::error::ClientError;
use ibc::text::{decimal_text, parse_u64, IntParseError};

#[test]
fn test_invalid_and_valid_height() {
    assert_eq!(
        "1-1-1".parse::<Height>(),
        Err(HeightError::InvalidHeight {
            raw_height: "1-1-1".to_owned()
        })
    );
    assert_eq!(
        "1".parse::<Height>(),
        Err(HeightError::InvalidHeight {
            raw_height: "1".to_owned()
        })
    );
    assert_eq!(
        "".parse::<Height>(),
        Err(HeightError::InvalidHeight {
            raw_height: "".to_owned()
        })
    );
    assert_eq!(
        "1-1".parse::<Height>(),
        Ok(Height {
            revision_number: 1,
            revision_height: 1
        })
    );
    assert_eq!(
        "1-10".parse::<Height>(),
        Ok(Height {
            revision_number: 1,
            revision_height: 10
        })
    );
}

#[test]
fn new_keeps_both_parts_and_reads_back() {
    for (a, b) in [(0u64, 1u64), (1, 1), (7, 42), (u64::MAX, u64::MAX), (3, 1000000)] {
        let h = Height::new(a, b).unwrap();
        assert_eq!(h.revision_number(), a);
        assert_eq!(h.revision_height(), b);
        let text = h.to_text();
        assert_eq!(text, format!("{}-{}", a, b));
        assert_eq!(Height::parse(&text), Ok(h));
    }
}

#[test]
fn new_with_zero_height_fails() {
    assert_eq!(Height::new(0, 0), Err(ClientError::InvalidHeight));
    assert_eq!(Height::new(5, 0), Err(ClientError::InvalidHeight));
    assert_eq!(Height::new(u64::MAX, 0), Err(ClientError::InvalidHeight));
}

#[test]
fn heights_order_by_revision_then_height() {
    let a = Height::new(1, 5).unwrap();
    let b = Height::new(1, 6).unwrap();
    let c = Height::new(2, 1).unwrap();
    assert!(a < b);
    assert!(b < c);
    assert!(a < c);
    assert!(a.is_lt(&b) && b.is_lt(&c) && !c.is_lt(&a));
    assert_eq!(a.compare(&a), std::cmp::Ordering::Equal);
    assert_eq!(c.compare(&a), std::cmp::Ordering::Greater);
    let mut v = vec![c, a, b];
    v.sort();
    assert_eq!(v, vec![a, b, c]);
}

#[test]
fn decrement_stops_at_one() {
    let r = Height::new(4, 1).unwrap();
    assert_eq!(r.decrement(), Err(ClientError::InvalidHeightResult));
    let two = Height::new(4, 2).unwrap();
    assert_eq!(two.decrement(), Ok(Height::new(4, 1).unwrap()));
    assert_eq!(two.sub(2), Err(ClientError::InvalidHeightResult));
    assert_eq!(Height::new(4, 10).unwrap().sub(3), Ok(Height::new(4, 7).unwrap()));
}

#[test]
fn add_and_increment_stay_in_revision() {
    let h = Height::new(2, 5).unwrap();
    assert_eq!(h.add(10), Height::new(2, 15).unwrap());
    assert_eq!(h.increment(), Height::new(2, 6).unwrap());
    assert_eq!(Height::min(9), Height::new(9, 1).unwrap());
}

#[test]
fn parse_reports_each_failure() {
    assert_eq!(
        Height::parse("a-1"),
        Err(HeightError::HeightConversion { height: "a-1".to_owned(), error: IntParseError::InvalidDigit })
    );
    assert_eq!(
        Height::parse("1-"),
        Err(HeightError::HeightConversion { height: "1-".to_owned(), error: IntParseError::Empty })
    );
    assert_eq!(
        Height::parse("1-18446744073709551616"),
        Err(HeightError::HeightConversion {
            height: "1-18446744073709551616".to_owned(),
            error: IntParseError::PosOverflow
        })
    );
    assert_eq!(Height::parse("3-0"), Err(HeightError::ZeroHeight));
    assert_eq!(
        Height::parse("--"),
        Err(HeightError::InvalidHeight { raw_height: "--".to_owned() })
    );
}

#[test]
fn decimal_text_and_parse_u64() {
    assert_eq!(decimal_text(0), "0");
    assert_eq!(decimal_text(1234567890), "1234567890");
    assert_eq!(decimal_text(u64::MAX), "18446744073709551615");
    assert_eq!(parse_u64("18446744073709551615"), Ok(u64::MAX));
    assert_eq!(parse_u64("007"), Ok(7));
    assert_eq!(parse_u64(""), Err(IntParseError::Empty));
    assert_eq!(parse_u64("+1"), Ok(1));
    assert_eq!(parse_u64("+"), Err(IntParseError::InvalidDigit));
    assert_eq!(parse_u64("++1"), Err(IntParseError::InvalidDigit));
    assert_eq!(parse_u64("-1"), Err(IntParseError::InvalidDigit));
    assert_eq!(parse_u64("99999999999999999999x"), Err(IntParseError::PosOverflow));
    assert_eq!(parse_u64("1x9999999999999999999"), Err(IntParseError::InvalidDigit));
}

#[test]
fn parse_u64_agrees_with_std() {
    for s in ["", "+", "-", "0", "+0", "+12", "12a", "a12", "18446744073709551615",
        "18446744073709551616", "+18446744073709551616", "99999999999999999999x", " 1", "1 "] {
        let ours = parse_u64(s);
        let std = s.parse::<u64>();
        assert_eq!(ours.ok(), std.clone().ok(), "{}", s);
        if let Err(e) = std {
            let kind = match e.kind() {
                std::num::IntErrorKind::Empty => IntParseError::Empty,
                std::num::IntErrorKind::InvalidDigit => IntParseError::InvalidDigit,
                std::num::IntErrorKind::PosOverflow => IntParseError::PosOverflow,
                _ => unreachable!(),
            };
            assert_eq!(ours, Err(kind), "{}", s);
        }
    }
}

#[test]
fn parse_accepts_a_leading_plus_on_each_part() {
    assert_eq!(Height::parse("+1-2"), Ok(Height::new(1, 2).unwrap()));
    assert_eq!(Height::parse("1-+2"), Ok(Height::new(1, 2).unwrap()));
    assert_eq!(Height::parse("+1-+0"), Err(HeightError::ZeroHeight));
}
