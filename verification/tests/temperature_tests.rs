use temper::temperature::Temperature;

#[test]
fn parse_temperature() {
    let celsius: Temperature = Temperature::from_text("Celsiu").unwrap();
    assert_eq!(celsius, Temperature::Celsius);
    let fahrenheit: Temperature = Temperature::from_text("f").unwrap();
    assert_eq!(fahrenheit, Temperature::Fahrenheit);
    let kelvin = Temperature::from_text("elvin");
    assert!(kelvin.is_err());
    let rankine: Temperature = Temperature::from_text("RANKINE").unwrap();
    assert_eq!(rankine, Temperature::Rankine);
}

#[test]
fn display_temperature() {
    let celsius = Temperature::Celsius.name();
    assert_eq!(celsius, "celsius");
    let fahrenheit = Temperature::Fahrenheit.name();
    assert_eq!(fahrenheit, "fahrenheit");
    let kelvin = Temperature::Kelvin.name();
    assert_eq!(kelvin, "kelvin");
    let rankine = Temperature::Rankine.name();
    assert_eq!(rankine, "rankine");
}

#[test]
fn parse_every_prefix() {
    let names = [
        ("celsius", Temperature::Celsius),
        ("fahrenheit", Temperature::Fahrenheit),
        ("kelvin", Temperature::Kelvin),
        ("rankine", Temperature::Rankine),
    ];
    for (name, scale) in names {
        for end in 1..=name.len() {
            let prefix = &name[..end];
            assert_eq!(Temperature::from_text(prefix).unwrap(), scale);
            let upper = prefix.to_uppercase();
            assert_eq!(Temperature::from_text(&upper).unwrap(), scale);
        }
    }
}

#[test]
fn parse_rejections() {
    assert!(Temperature::from_text("xyz").is_err());
    assert!(Temperature::from_text("elvin").is_err());
    assert!(Temperature::from_text(" c").is_err());
    assert!(Temperature::from_text("celsiusx").is_err());
    assert!(Temperature::from_text("celsius ").is_err());
}

#[test]
fn parse_empty_resolves_to_celsius() {
    assert_eq!(Temperature::from_text("").unwrap(), Temperature::Celsius);
}
