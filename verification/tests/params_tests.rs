use sample_averager::params::ParameterStore;

/// The scaling a host adapter applies before handing a normalized
/// parameter value to the store: clamp to [0, 1], then round times 100.
fn scaled(value: f32) -> usize {
    (value.clamp(0.0, 1.0) * 100.0).round() as usize
}

#[test]
fn get_parameter_test() {
    let parameters = ParameterStore { samples_to_average: 5 };
    assert_eq!(5., parameters.get_parameter(0) as f64);
}

#[test]
fn get_parameter_name_test() {
    let parameters = ParameterStore { samples_to_average: 5 };
    assert_eq!("Cock reduction", parameters.get_parameter_name(0));
}

#[test]
fn get_parameter_text_test() {
    let parameters = ParameterStore { samples_to_average: 5 };
    assert_eq!("5", parameters.get_parameter_text(0));
}

#[test]
fn set_parameter_test() {
    let mut parameters = ParameterStore { samples_to_average: 5 };

    parameters.set_parameter(0, scaled(3.));
    assert_eq!(100., parameters.get_parameter(0) as f64);

    parameters.set_parameter(0, scaled(1.));
    assert_eq!(100., parameters.get_parameter(0) as f64);

    parameters.set_parameter(0, scaled(0.5));
    assert_eq!(50., parameters.get_parameter(0) as f64);

    parameters.set_parameter(0, scaled(0.01));
    assert_eq!(1., parameters.get_parameter(0) as f64);

    parameters.set_parameter(0, scaled(0.));
    assert_eq!(1., parameters.get_parameter(0) as f64);
}

#[test]
fn can_only_get_parameter_zero() {
    let parameters = ParameterStore { samples_to_average: 5 };
    for index in [-3, -1, 1, 2, 17, i32::MAX, i32::MIN] {
        assert_eq!(0, parameters.get_parameter(index));
    }
}

#[test]
fn can_only_get_parameter_name_zero() {
    let parameters = ParameterStore { samples_to_average: 5 };
    for index in [-3, -1, 1, 2, 17, i32::MAX, i32::MIN] {
        assert_eq!("", parameters.get_parameter_name(index));
    }
}

#[test]
fn can_only_get_parameter_text_zero() {
    let parameters = ParameterStore { samples_to_average: 5 };
    for index in [-3, -1, 1, 2, 17, i32::MAX, i32::MIN] {
        assert_eq!("", parameters.get_parameter_text(index));
    }
}

#[test]
fn can_only_set_parameter_zero() {
    for index in [-3, -1, 1, 2, 17, i32::MAX, i32::MIN] {
        let mut parameters = ParameterStore { samples_to_average: 5 };
        parameters.set_parameter(index, scaled(0.87));
        assert_eq!(5, parameters.samples_to_average);
        assert_eq!(0, parameters.get_parameter(index));
    }
}

#[test]
fn clamping_below_matches_zero() {
    for value in [-0.0001f32, -0.5, -1.0, -250.0, f32::MIN] {
        let mut low = ParameterStore { samples_to_average: 37 };
        let mut zero = ParameterStore { samples_to_average: 37 };
        low.set_parameter(0, scaled(value));
        zero.set_parameter(0, scaled(0.0));
        assert_eq!(zero.samples_to_average, low.samples_to_average);
        assert_eq!(1, low.samples_to_average);
    }
}

#[test]
fn clamping_above_matches_one() {
    for value in [1.0001f32, 1.5, 3.0, 250.0, f32::MAX] {
        let mut high = ParameterStore { samples_to_average: 37 };
        let mut one = ParameterStore { samples_to_average: 37 };
        high.set_parameter(0, scaled(value));
        one.set_parameter(0, scaled(1.0));
        assert_eq!(one.samples_to_average, high.samples_to_average);
        assert_eq!(100, high.samples_to_average);
    }
}

#[test]
fn rounding_at_half_percent() {
    let mut parameters = ParameterStore::new();
    assert_eq!(5, parameters.samples_to_average);

    parameters.set_parameter(0, scaled(0.23));
    assert_eq!(23, parameters.samples_to_average);
    assert_eq!("23", parameters.get_parameter_text(0));

    parameters.set_parameter(0, scaled(1.0));
    assert_eq!("100", parameters.get_parameter_text(0));
}

#[test]
fn to_decimal_renders_exact_digits() {
    assert_eq!("0", sample_averager::text::to_decimal(0));
    assert_eq!("7", sample_averager::text::to_decimal(7));
    assert_eq!("42", sample_averager::text::to_decimal(42));
    assert_eq!("100", sample_averager::text::to_decimal(100));
    assert_eq!("9090", sample_averager::text::to_decimal(9090));
    assert_eq!("18446744073709551615", sample_averager::text::to_decimal(u64::MAX));
}

#[test]
fn default_window_is_five() {
    let parameters = ParameterStore::default();
    assert_eq!(5, parameters.samples_to_average);
    assert_eq!("5", parameters.get_parameter_text(0));
}
