use shipping::quote::{create_quote_from_reading, PriceReading, Quote, NANOS_MULTIPLE};
use shipping::text::decimal_text;

fn reading_of(value: f64) -> PriceReading {
    PriceReading { whole_units: value.floor() as u64, hundredths: (value * 100_f64) as u32 }
}

#[test]
fn test_create_quote_from_float() {
    let quote = create_quote_from_reading(&reading_of(10.99));
    assert_eq!(quote.dollars, 10);
    assert_eq!(quote.cents, 99);

    let quote = create_quote_from_reading(&reading_of(0.01));
    assert_eq!(quote.dollars, 0);
    assert_eq!(quote.cents, 1);

    let quote = create_quote_from_reading(&reading_of(100.00));
    assert_eq!(quote.dollars, 100);
    assert_eq!(quote.cents, 0);
}

#[test]
fn test_quote_display() {
    let quote = Quote { dollars: 10, cents: 99 };
    assert_eq!(quote.to_display_string(), "10.99");

    let quote = Quote { dollars: 0, cents: 1 };
    assert_eq!(quote.to_display_string(), "0.1");
}

#[test]
fn display_of_formatted_amounts() {
    let q = create_quote_from_reading(&reading_of(10.99));
    assert_eq!(q.to_display_string(), "10.99");
    let q = create_quote_from_reading(&reading_of(0.01));
    assert_eq!(q.to_display_string(), "0.1");
    let q = create_quote_from_reading(&PriceReading { whole_units: u64::MAX, hundredths: 7 });
    assert_eq!(q.to_display_string(), "18446744073709551615.7");
}

#[test]
fn zero_amount_gives_zero_quote() {
    let q = create_quote_from_reading(&reading_of(0.0));
    assert_eq!(q, Quote { dollars: 0, cents: 0 });
    assert_eq!(q.to_display_string(), "0.0");
}

#[test]
fn hundredths_are_truncated_not_rounded() {
    let q = create_quote_from_reading(&PriceReading { whole_units: 12, hundredths: 1299 });
    assert_eq!(q, Quote { dollars: 12, cents: 99 });
    let q = create_quote_from_reading(&reading_of(5.999));
    assert_eq!(q, Quote { dollars: 5, cents: 99 });
}

#[test]
fn sub_units_stay_below_one_hundred() {
    for h in [0u32, 99, 100, 101, 12345, u32::MAX] {
        let q = create_quote_from_reading(&PriceReading { whole_units: 3, hundredths: h });
        assert!(q.cents < 100);
        assert_eq!(q.cents, h % 100);
        assert_eq!(q.dollars, 3);
    }
}

#[test]
fn formatting_twice_gives_the_same_quote() {
    let a = create_quote_from_reading(&reading_of(26.97));
    let b = create_quote_from_reading(&reading_of(26.97));
    assert_eq!(a, b);
    assert_eq!(a.to_display_string(), b.to_display_string());
}

#[test]
fn money_nanos_are_whole_hundredths() {
    for h in [0u32, 1, 50, 99, 199, 4321] {
        let m = create_quote_from_reading(&PriceReading { whole_units: 7, hundredths: h }).to_money();
        assert_eq!(m.nanos % 10_000_000, 0);
        assert!(m.nanos < 1_000_000_000);
        assert_eq!(m.nanos, (h % 100) * NANOS_MULTIPLE);
        assert_eq!(m.units, 7);
        assert_eq!(m.currency_code, "USD");
    }
}

#[test]
fn money_of_ten_ninety_nine() {
    let m = Quote { dollars: 10, cents: 99 }.to_money();
    assert_eq!(m.units, 10);
    assert_eq!(m.nanos, 990_000_000);
}

#[test]
fn decimal_text_values() {
    assert_eq!(decimal_text(0), "0");
    assert_eq!(decimal_text(7), "7");
    assert_eq!(decimal_text(10), "10");
    assert_eq!(decimal_text(1234567890), "1234567890");
    assert_eq!(decimal_text(u64::MAX), "18446744073709551615");
}
