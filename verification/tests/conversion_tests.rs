use temper::conversion::{convert, Degrees, TemperConversion};
use temper::temperature::Temperature;

fn rat_cmp(left: Degrees, num: i64, den: i64) -> bool {
    left.den > 0 && den > 0 && left.num * den == num * left.den
}

#[test]
fn celsius_conversion() {
    let conversion = TemperConversion::new(
        Degrees { num: 50, den: 1 },
        Temperature::Celsius,
        Temperature::Celsius,
    );
    assert!(rat_cmp(conversion.result(), 50, 1));
    let conversion = TemperConversion::new(
        Degrees { num: 50, den: 1 },
        Temperature::Celsius,
        Temperature::Fahrenheit,
    );
    assert!(rat_cmp(conversion.result(), 122, 1));
    let conversion = TemperConversion::new(
        Degrees { num: 50, den: 1 },
        Temperature::Celsius,
        Temperature::Kelvin,
    );
    assert!(rat_cmp(conversion.result(), 32315, 100));
    let conversion = TemperConversion::new(
        Degrees { num: 50, den: 1 },
        Temperature::Celsius,
        Temperature::Rankine,
    );
    assert!(rat_cmp(conversion.result(), 58167, 100));
}

#[test]
fn fahrenheit_conversion() {
    let conversion = TemperConversion::new(
        Degrees { num: 122, den: 1 },
        Temperature::Fahrenheit,
        Temperature::Celsius,
    );
    assert!(rat_cmp(conversion.result(), 50, 1));
    let conversion = TemperConversion::new(
        Degrees { num: 122, den: 1 },
        Temperature::Fahrenheit,
        Temperature::Fahrenheit,
    );
    assert!(rat_cmp(conversion.result(), 122, 1));
    let conversion = TemperConversion::new(
        Degrees { num: 122, den: 1 },
        Temperature::Fahrenheit,
        Temperature::Kelvin,
    );
    assert!(rat_cmp(conversion.result(), 32315, 100));
    let conversion = TemperConversion::new(
        Degrees { num: 122, den: 1 },
        Temperature::Fahrenheit,
        Temperature::Rankine,
    );
    assert!(rat_cmp(conversion.result(), 58167, 100));
}

#[test]
fn kelvin_conversion() {
    let conversion = TemperConversion::new(
        Degrees { num: 32315, den: 100 },
        Temperature::Kelvin,
        Temperature::Celsius,
    );
    assert!(rat_cmp(conversion.result(), 50, 1));
    let conversion = TemperConversion::new(
        Degrees { num: 32315, den: 100 },
        Temperature::Kelvin,
        Temperature::Fahrenheit,
    );
    assert!(rat_cmp(conversion.result(), 122, 1));
    let conversion = TemperConversion::new(
        Degrees { num: 32315, den: 100 },
        Temperature::Kelvin,
        Temperature::Kelvin,
    );
    assert!(rat_cmp(conversion.result(), 32315, 100));
    let conversion = TemperConversion::new(
        Degrees { num: 32315, den: 100 },
        Temperature::Kelvin,
        Temperature::Rankine,
    );
    assert!(rat_cmp(conversion.result(), 58167, 100));
}

#[test]
fn rankine_conversion() {
    let conversion = TemperConversion::new(
        Degrees { num: 58167, den: 100 },
        Temperature::Rankine,
        Temperature::Celsius,
    );
    assert!(rat_cmp(conversion.result(), 50, 1));
    let conversion = TemperConversion::new(
        Degrees { num: 58167, den: 100 },
        Temperature::Rankine,
        Temperature::Fahrenheit,
    );
    assert!(rat_cmp(conversion.result(), 122, 1));
    let conversion = TemperConversion::new(
        Degrees { num: 58167, den: 100 },
        Temperature::Rankine,
        Temperature::Kelvin,
    );
    assert!(rat_cmp(conversion.result(), 32315, 100));
    let conversion = TemperConversion::new(
        Degrees { num: 58167, den: 100 },
        Temperature::Rankine,
        Temperature::Rankine,
    );
    assert!(rat_cmp(conversion.result(), 58167, 100));
}

#[test]
fn identity_returns_input_unchanged() {
    let scales = [
        Temperature::Celsius,
        Temperature::Fahrenheit,
        Temperature::Kelvin,
        Temperature::Rankine,
    ];
    let value = Degrees { num: -12345, den: 7 };
    for scale in scales {
        let back = convert(value, scale, scale);
        assert_eq!(back, value);
    }
}

#[test]
fn round_trip_is_exact() {
    let scales = [
        Temperature::Celsius,
        Temperature::Fahrenheit,
        Temperature::Kelvin,
        Temperature::Rankine,
    ];
    let value = Degrees { num: 9813, den: 4 };
    for a in scales {
        for b in scales {
            let there = convert(value, a, b);
            let back = convert(there, b, a);
            assert!(rat_cmp(back, value.num, value.den));
        }
    }
}

#[test]
fn renders_full_sentence() {
    let conversion = TemperConversion::new(
        Degrees { num: 50, den: 1 },
        Temperature::Celsius,
        Temperature::Fahrenheit,
    );
    assert_eq!(conversion.render(), "50.00 celsius is 122.00 fahrenheit");
    assert_eq!(conversion.render_result(), "122.00");
}

#[test]
fn renders_rounded_decimals() {
    let third = TemperConversion::new(
        Degrees { num: 1, den: 3 },
        Temperature::Kelvin,
        Temperature::Kelvin,
    );
    assert_eq!(third.render_result(), "0.33");
    let half = TemperConversion::new(
        Degrees { num: 1, den: 2 },
        Temperature::Kelvin,
        Temperature::Kelvin,
    );
    assert_eq!(half.render_result(), "0.50");
    let two_thirds = TemperConversion::new(
        Degrees { num: 2, den: 3 },
        Temperature::Kelvin,
        Temperature::Kelvin,
    );
    assert_eq!(two_thirds.render_result(), "0.67");
    let negative = TemperConversion::new(
        Degrees { num: -5025, den: 100 },
        Temperature::Celsius,
        Temperature::Celsius,
    );
    assert_eq!(negative.render(), "-50.25 celsius is -50.25 celsius");
    let absolute_zero = TemperConversion::new(
        Degrees { num: -27315, den: 100 },
        Temperature::Celsius,
        Temperature::Kelvin,
    );
    assert_eq!(absolute_zero.render_result(), "0.00");
}

#[test]
fn conversion_record_caches_result() {
    let conversion = TemperConversion::new(
        Degrees { num: 0, den: 1 },
        Temperature::Celsius,
        Temperature::Kelvin,
    );
    assert_eq!(conversion.degrees, Degrees { num: 0, den: 1 });
    assert_eq!(conversion.from, Temperature::Celsius);
    assert_eq!(conversion.to, Temperature::Kelvin);
    assert_eq!(conversion.result(), conversion.result);
    assert!(rat_cmp(conversion.result(), 27315, 100));
}
