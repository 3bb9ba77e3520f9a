use open_meteo::decimal::nat_string;
use open_meteo::{
    Cell, Daily, Decimal, Forecast, Hourly, Precipitation, PressureVar, Settings, Speed,
    Temperature, TimeFormat, Timezone,
};

#[test]
fn url_creation() {
    let forecast = Forecast::new()
        .coord(Decimal::new(501, 1), Decimal::new(501, 1))
        .settings(&[
            Settings::elevation(Decimal::new(10001, 1)),
            Settings::timezone(Timezone::explicit("Europe", "London")),
        ])
        .hourly(&[Hourly::rain, Hourly::cape])
        .daily(&[Daily::sunrise, Daily::sunset])
        .pressure_var(&[PressureVar::dewpoint(50), PressureVar::windspeed(30)]);

    assert_eq!(
        forecast.to_string(),
        "https://api.open-meteo.com/v1/forecast?latitude=50.1&longitude=50.1&elevation=1000.1&timezone=Europe%2FLondon&hourly=,rain,cape&daily=,sunrise,sunset&dewpoint_50hPa&windspeed_30hPa")
}

#[test]
fn bare_request_has_only_coordinates() {
    let url = Forecast::new()
        .coord(Decimal::new(501, 1), Decimal::new(-5, 1))
        .to_string();
    assert_eq!(
        url,
        "https://api.open-meteo.com/v1/forecast?latitude=50.1&longitude=-0.5"
    );
}

#[test]
fn whole_coordinates_render_without_point() {
    let url = Forecast::new()
        .coord(Decimal::new(500, 1), Decimal::new(-12, 0))
        .to_string();
    assert_eq!(
        url,
        "https://api.open-meteo.com/v1/forecast?latitude=50&longitude=-12"
    );
}

#[test]
fn lists_set_before_coordinates_are_kept() {
    let url = Forecast::new()
        .hourly(&[Hourly::temperature_2m])
        .settings(&[Settings::past_days(2)])
        .coord(Decimal::new(1, 0), Decimal::new(2, 0))
        .daily(&[Daily::uv_index_max])
        .to_string();
    assert_eq!(
        url,
        "https://api.open-meteo.com/v1/forecast?latitude=1&longitude=2&past_days=2&hourly=,temperature_2m&daily=,uv_index_max"
    );
}

#[test]
fn settings_keep_order_across_calls() {
    let one_call = Forecast::new()
        .coord(Decimal::new(1, 0), Decimal::new(2, 0))
        .settings(&[
            Settings::past_days(3),
            Settings::forecast_days(7),
            Settings::past_days(3),
        ])
        .to_string();
    let two_calls = Forecast::new()
        .coord(Decimal::new(1, 0), Decimal::new(2, 0))
        .settings(&[Settings::past_days(3)])
        .settings(&[Settings::forecast_days(7), Settings::past_days(3)])
        .to_string();
    let expected = "https://api.open-meteo.com/v1/forecast?latitude=1&longitude=2&past_days=3&forecast_days=7&past_days=3";
    assert_eq!(one_call, expected);
    assert_eq!(two_calls, expected);
}

#[test]
fn appending_empty_lists_changes_nothing() {
    let base = Forecast::new()
        .coord(Decimal::new(501, 1), Decimal::new(501, 1))
        .hourly(&[Hourly::rain])
        .to_string();
    let padded = Forecast::new()
        .coord(Decimal::new(501, 1), Decimal::new(501, 1))
        .hourly(&[Hourly::rain])
        .settings(&[])
        .hourly(&[])
        .daily(&[])
        .pressure_var(&[])
        .to_string();
    assert_eq!(base, padded);
    let empty_lists = Forecast::new()
        .coord(Decimal::new(501, 1), Decimal::new(501, 1))
        .hourly(&[])
        .daily(&[])
        .to_string();
    assert_eq!(
        empty_lists,
        "https://api.open-meteo.com/v1/forecast?latitude=50.1&longitude=50.1"
    );
}

#[test]
fn pressure_levels_render_with_suffix() {
    assert_eq!(PressureVar::dewpoint(50).get(), "dewpoint_50hPa");
    assert_eq!(PressureVar::windspeed(30).get(), "windspeed_30hPa");
    assert_eq!(PressureVar::geopotential_height(1000).get(), "geopotential_height_1000hPa");
    assert_eq!(PressureVar::temperature(0).get(), "temperature_0hPa");
    assert_eq!(PressureVar::relativehumidity(4294967295).get(), "relativehumidity_4294967295hPa");
    let url = Forecast::new()
        .coord(Decimal::new(1, 0), Decimal::new(1, 0))
        .pressure_var(&[PressureVar::dewpoint(50), PressureVar::windspeed(30)])
        .to_string();
    assert!(url.ends_with("&dewpoint_50hPa&windspeed_30hPa"));
}

#[test]
fn timezone_rendering() {
    assert_eq!(Timezone::explicit("Europe", "London").get(), "Europe%2FLondon");
    assert_eq!(Timezone::auto.get(), "auto");
    let url = Forecast::new()
        .coord(Decimal::new(1, 0), Decimal::new(1, 0))
        .settings(&[
            Settings::timezone(Timezone::explicit("Europe", "London")),
            Settings::timezone(Timezone::auto),
        ])
        .to_string();
    assert!(url.ends_with("&timezone=Europe%2FLondon&timezone=auto"));
}

#[test]
fn hourly_and_daily_lists_start_with_comma() {
    let url = Forecast::new()
        .coord(Decimal::new(1, 0), Decimal::new(1, 0))
        .hourly(&[Hourly::rain, Hourly::cape])
        .to_string();
    assert!(url.ends_with("&hourly=,rain,cape"));
    let url = Forecast::new()
        .coord(Decimal::new(1, 0), Decimal::new(1, 0))
        .daily(&[Daily::sunrise])
        .to_string();
    assert!(url.ends_with("&daily=,sunrise"));
}

#[test]
fn setting_values_render() {
    assert_eq!(Settings::current_weather(true).get(), "true");
    assert_eq!(Settings::current_weather(false).get(), "false");
    assert_eq!(Settings::temperature_unit(Temperature::fahrenheit).get(), "fahrenheit");
    assert_eq!(Settings::windspeed_unit(Speed::kn).get(), "kn");
    assert_eq!(Settings::precipitation_unit(Precipitation::inch).get(), "inch");
    assert_eq!(Settings::timeformat(TimeFormat::unixtime).get(), "unixtime");
    assert_eq!(Settings::cell_selection(Cell::nearest).get(), "nearest");
    assert_eq!(Settings::past_days(92).get(), "92");
    assert_eq!(Settings::forecast_days(255).get(), "255");
    assert_eq!(Settings::start_date("2023-01-01").get(), "2023-01-01");
    assert_eq!(Settings::end_date("2023-01-31").key(), "end_date");
    assert_eq!(Settings::elevation(Decimal::new(-35, 0)).get(), "-35");
    assert_eq!(Settings::cell_selection(Cell::land).key(), "cell_selection");
    assert_eq!(Settings::windspeed_unit(Speed::ms).key(), "windspeed_unit");
}

#[test]
fn catalog_names() {
    assert_eq!(Hourly::soil_moisture_27_81cm.name(), "soil_moisture_27_81cm");
    assert_eq!(Hourly::et0_fao_evapotranspiration.name(), "et0_fao_evapotranspiration");
    assert_eq!(Daily::uv_index_clear_sky_max.name(), "uv_index_clear_sky_max");
    assert_eq!(Temperature::celsius.name(), "celsius");
    assert_eq!(Speed::mph.name(), "mph");
    assert_eq!(Precipitation::mm.name(), "mm");
    assert_eq!(TimeFormat::iso8601.name(), "iso8601");
    assert_eq!(Cell::sea.name(), "sea");
    assert_eq!(PressureVar::cloudcover(850).name(), "cloudcover");
}

#[test]
fn decimal_normalizes_trailing_zeros() {
    let d = Decimal::new(500, 1);
    assert_eq!(d, Decimal { negative: false, digits: 50, scale: 0 });
    assert_eq!(d.text(), "50");
    assert_eq!(Decimal::new(0, 3).text(), "0");
    assert_eq!(Decimal::new(1200, 3).text(), "1.2");
    assert_eq!(Decimal::new(1005, 2).text(), "10.05");
    assert_eq!(Decimal::new(-5, 1).text(), "-0.5");
    assert_eq!(Decimal::new(7, 3).text(), "0.007");
    assert_eq!(Decimal::new(i64::MIN, 0).text(), "-9223372036854775808");
}

#[test]
fn decimal_text_keeps_given_scale() {
    let d = Decimal { negative: false, digits: 1230, scale: 3 };
    assert_eq!(d.text(), "1.230");
}

#[test]
fn unsigned_text() {
    assert_eq!(nat_string(0), "0");
    assert_eq!(nat_string(10), "10");
    assert_eq!(nat_string(18446744073709551615), "18446744073709551615");
}
