use mcp_ethereum_server::amount::{parse_token_amount, read_token_amount, token_amount_overflows, AmountReading};
use mcp_ethereum_server::ethereum::format_token_amount;
use mcp_ethereum_server::uint256::Uint256;

const ETHER: u64 = 1_000_000_000_000_000_000;

fn value_of(x: &Uint256) -> u128 {
    assert_eq!(x.limb2, 0);
    assert_eq!(x.limb3, 0);
    (x.limb1 as u128) << 64 | x.limb0 as u128
}

#[test]
fn format_zero_and_no_decimals() {
    assert_eq!(format_token_amount(Uint256::zero(), 18), "0");
    assert_eq!(format_token_amount(Uint256::from_u64(123), 0), "123");
    assert_eq!(format_token_amount(Uint256::from_u64(0), 0), "0");
}

#[test]
fn format_pads_and_trims_the_fraction() {
    assert_eq!(format_token_amount(Uint256::from_u64(1), 18), "0.000000000000000001");
    assert_eq!(format_token_amount(Uint256::from_u64(1_500_000_000_000_000_000), 18), "1.5");
    assert_eq!(format_token_amount(Uint256::from_u64(1_234_500), 6), "1.2345");
    assert_eq!(format_token_amount(Uint256::from_u64(1_000_001), 6), "1.000001");
    assert_eq!(format_token_amount(Uint256::from_u64(120), 2), "1.2");
}

#[test]
fn format_large_amount() {
    // 2^64 wei
    let v = Uint256 { limb0: 0, limb1: 1, limb2: 0, limb3: 0 };
    assert_eq!(format_token_amount(v, 18), "18.446744073709551616");
    // 2^256 - 1 with the largest number of decimals that fits
    let max = Uint256 { limb0: u64::MAX, limb1: u64::MAX, limb2: u64::MAX, limb3: u64::MAX };
    assert_eq!(
        format_token_amount(max, 77),
        "1.15792089237316195423570985008687907853269984665640564039457584007913129639935"
    );
}

#[test]
fn parse_whole_and_fraction() {
    let one = parse_token_amount("1", 18).unwrap();
    assert_eq!(value_of(&one), ETHER as u128);
    let one_and_half = parse_token_amount("1.5", 18).unwrap();
    assert_eq!(value_of(&one_and_half), 1_500_000_000_000_000_000u128);
    let half = parse_token_amount(".5", 18).unwrap();
    assert_eq!(value_of(&half), 500_000_000_000_000_000u128);
    let empty = parse_token_amount("", 18).unwrap();
    assert_eq!(value_of(&empty), 0);
}

#[test]
fn parse_reads_pieces_as_hexadecimal() {
    // "10" is read by U256::from_str, which reads hexadecimal: 0x10 = 16
    let sixteen = parse_token_amount("10", 18).unwrap();
    assert_eq!(value_of(&sixteen), 16 * ETHER as u128);
    let prefixed = parse_token_amount("0x10", 18).unwrap();
    assert_eq!(value_of(&prefixed), 16 * ETHER as u128);
    // fraction "25" = 0x25 = 37, scaled by 10^16
    let v = parse_token_amount("1.25", 18).unwrap();
    assert_eq!(value_of(&v), ETHER as u128 + 37 * 10_000_000_000_000_000u128);
    // only the first two pieces count
    let v = parse_token_amount("1.2.3", 18).unwrap();
    assert_eq!(value_of(&v), 1_200_000_000_000_000_000u128);
}

#[test]
fn parse_errors() {
    let e = parse_token_amount("g", 18).unwrap_err();
    assert!(e.starts_with("Invalid amount format: "));
    assert!(e.len() > "Invalid amount format: ".len());
    let e = parse_token_amount("1.0000000000000000001", 18).unwrap_err();
    assert_eq!(e, "Too many decimal places: 19 > 18");
    let e = parse_token_amount("1.z", 18).unwrap_err();
    assert!(e.starts_with("Invalid fractional part: "));
    // no fractional piece counts as "0", one place
    let e = parse_token_amount("5", 0).unwrap_err();
    assert_eq!(e, "Too many decimal places: 1 > 0");
}

#[test]
fn parse_overflow_is_reported() {
    let big = "f".repeat(64);
    assert!(token_amount_overflows(&big, 18));
    assert!(matches!(read_token_amount(&big, 18), AmountReading::Overflow));
    assert!(!token_amount_overflows("1.5", 18));
    assert!(token_amount_overflows("1", 78));
    assert!(!token_amount_overflows("1", 77));
}

#[test]
fn parse_reads_back_single_digit_amounts() {
    for v in [0u64, 5 * ETHER, ETHER / 2, 7 * ETHER + 3_000_000_000, 9 * ETHER + ETHER / 10] {
        let text = format_token_amount(Uint256::from_u64(v), 18);
        let back = parse_token_amount(&text, 18).unwrap();
        assert_eq!(value_of(&back), v as u128, "{}", text);
    }
    // and where it does not hold: ten ether is written "10", read back as 0x10
    let text = format_token_amount(Uint256::from_u64(10 * ETHER), 18);
    assert_eq!(text, "10");
    assert_eq!(value_of(&parse_token_amount(&text, 18).unwrap()), 16 * ETHER as u128);
}
