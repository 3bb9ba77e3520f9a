//! The option catalog: every identifier the forecast API recognises.
use vstd::prelude::*;

use crate::decimal::{nat_string, nat_text, Decimal};

verus! {

/// Temperature units.
#[allow(non_camel_case_types)]
#[derive(Clone, Copy, Debug, PartialEq, Eq)]
pub enum Temperature {
    celsius,
    fahrenheit,
}

impl Temperature {
    /// The identifier the API knows this option by.
    pub open spec fn spec_name(self) -> Seq<char> {
        match self {
            Temperature::celsius => "celsius"@,
            Temperature::fahrenheit => "fahrenheit"@,
        }
    }

    pub fn name(&self) -> (r: &'static str)
        ensures
            r@ == self.spec_name(),
    {
        match self {
            Temperature::celsius => "celsius",
            Temperature::fahrenheit => "fahrenheit",
        }
    }
}

/// Wind speed units.
#[allow(non_camel_case_types)]
#[derive(Clone, Copy, Debug, PartialEq, Eq)]
pub enum Speed {
    kmh,
    ms,
    mph,
    kn,
}

impl Speed {
    /// The identifier the API knows this option by.
    pub open spec fn spec_name(self) -> Seq<char> {
        match self {
            Speed::kmh => "kmh"@,
            Speed::ms => "ms"@,
            Speed::mph => "mph"@,
            Speed::kn => "kn"@,
        }
    }

    pub fn name(&self) -> (r: &'static str)
        ensures
            r@ == self.spec_name(),
    {
        match self {
            Speed::kmh => "kmh",
            Speed::ms => "ms",
            Speed::mph => "mph",
            Speed::kn => "kn",
        }
    }
}

/// Precipitation units.
#[allow(non_camel_case_types)]
#[derive(Clone, Copy, Debug, PartialEq, Eq)]
pub enum Precipitation {
    mm,
    inch,
}

impl Precipitation {
    /// The identifier the API knows this option by.
    pub open spec fn spec_name(self) -> Seq<char> {
        match self {
            Precipitation::mm => "mm"@,
            Precipitation::inch => "inch"@,
        }
    }

    pub fn name(&self) -> (r: &'static str)
        ensures
            r@ == self.spec_name(),
    {
        match self {
            Precipitation::mm => "mm",
            Precipitation::inch => "inch",
        }
    }
}

/// Time formats of the returned data.
#[allow(non_camel_case_types)]
#[derive(Clone, Copy, Debug, PartialEq, Eq)]
pub enum TimeFormat {
    iso8601,
    unixtime,
}

impl TimeFormat {
    /// The identifier the API knows this option by.
    pub open spec fn spec_name(self) -> Seq<char> {
        match self {
            TimeFormat::iso8601 => "iso8601"@,
            TimeFormat::unixtime => "unixtime"@,
        }
    }

    pub fn name(&self) -> (r: &'static str)
        ensures
            r@ == self.spec_name(),
    {
        match self {
            TimeFormat::iso8601 => "iso8601",
            TimeFormat::unixtime => "unixtime",
        }
    }
}

/// Grid-cell selection strategies.
#[allow(non_camel_case_types)]
#[derive(Clone, Copy, Debug, PartialEq, Eq)]
pub enum Cell {
    land,
    sea,
    nearest,
}

impl Cell {
    /// The identifier the API knows this option by.
    pub open spec fn spec_name(self) -> Seq<char> {
        match self {
            Cell::land => "land"@,
            Cell::sea => "sea"@,
            Cell::nearest => "nearest"@,
        }
    }

    pub fn name(&self) -> (r: &'static str)
        ensures
            r@ == self.spec_name(),
    {
        match self {
            Cell::land => "land",
            Cell::sea => "sea",
            Cell::nearest => "nearest",
        }
    }
}

/// Hourly variables.
#[allow(non_camel_case_types)]
#[derive(Clone, Copy, Debug, PartialEq, Eq)]
pub enum Hourly {
    temperature_2m,
    relative_humidity_2m,
    dewpoint_2m,
    apparent_temperature,
    pressure_msl,
    surface_pressure,
    cloudcover,
    cloudcover_low,
    cloudcover_mid,
    cloudcover_high,
    windspeed_10m,
    windspeed_80m,
    windspeed_120m,
    windspeed_180m,
    winddirection_10m,
    windspeedtion_80m,
    windspeedtion_120m,
    windspeedtion_180m,
    windgusts_10m,
    shortwave_radiation,
    direct_radiation,
    direct_normal_irradiance,
    diffuse_radiation,
    vapor_pressure_deficit,
    cape,
    evapotranspiration,
    et0_fao_evapotranspiration,
    precipitation,
    snowfall,
    precipitation_probability,
    rain,
    showers,
    weathercode,
    snow_depth,
    freezinglevel_height,
    visibility,
    soil_temperature_0cm,
    soil_temperature_6cm,
    soil_temperature_18cm,
    soil_temperature_54cm,
    soil_moisture_0_1cm,
    soil_moisture_1_3cm,
    soil_moisture_4_9cm,
    soil_moisture_9_27cm,
    soil_moisture_27_81cm,
    is_day,
}

impl Hourly {
    /// The identifier the API knows this option by.
    pub open spec fn spec_name(self) -> Seq<char> {
        match self {
            Hourly::temperature_2m => "temperature_2m"@,
            Hourly::relative_humidity_2m => "relative_humidity_2m"@,
            Hourly::dewpoint_2m => "dewpoint_2m"@,
            Hourly::apparent_temperature => "apparent_temperature"@,
            Hourly::pressure_msl => "pressure_msl"@,
            Hourly::surface_pressure => "surface_pressure"@,
            Hourly::cloudcover => "cloudcover"@,
            Hourly::cloudcover_low => "cloudcover_low"@,
            Hourly::cloudcover_mid => "cloudcover_mid"@,
            Hourly::cloudcover_high => "cloudcover_high"@,
            Hourly::windspeed_10m => "windspeed_10m"@,
            Hourly::windspeed_80m => "windspeed_80m"@,
            Hourly::windspeed_120m => "windspeed_120m"@,
            Hourly::windspeed_180m => "windspeed_180m"@,
            Hourly::winddirection_10m => "winddirection_10m"@,
            Hourly::windspeedtion_80m => "windspeedtion_80m"@,
            Hourly::windspeedtion_120m => "windspeedtion_120m"@,
            Hourly::windspeedtion_180m => "windspeedtion_180m"@,
            Hourly::windgusts_10m => "windgusts_10m"@,
            Hourly::shortwave_radiation => "shortwave_radiation"@,
            Hourly::direct_radiation => "direct_radiation"@,
            Hourly::direct_normal_irradiance => "direct_normal_irradiance"@,
            Hourly::diffuse_radiation => "diffuse_radiation"@,
            Hourly::vapor_pressure_deficit => "vapor_pressure_deficit"@,
            Hourly::cape => "cape"@,
            Hourly::evapotranspiration => "evapotranspiration"@,
            Hourly::et0_fao_evapotranspiration => "et0_fao_evapotranspiration"@,
            Hourly::precipitation => "precipitation"@,
            Hourly::snowfall => "snowfall"@,
            Hourly::precipitation_probability => "precipitation_probability"@,
            Hourly::rain => "rain"@,
            Hourly::showers => "showers"@,
            Hourly::weathercode => "weathercode"@,
            Hourly::snow_depth => "snow_depth"@,
            Hourly::freezinglevel_height => "freezinglevel_height"@,
            Hourly::visibility => "visibility"@,
            Hourly::soil_temperature_0cm => "soil_temperature_0cm"@,
            Hourly::soil_temperature_6cm => "soil_temperature_6cm"@,
            Hourly::soil_temperature_18cm => "soil_temperature_18cm"@,
            Hourly::soil_temperature_54cm => "soil_temperature_54cm"@,
            Hourly::soil_moisture_0_1cm => "soil_moisture_0_1cm"@,
            Hourly::soil_moisture_1_3cm => "soil_moisture_1_3cm"@,
            Hourly::soil_moisture_4_9cm => "soil_moisture_4_9cm"@,
            Hourly::soil_moisture_9_27cm => "soil_moisture_9_27cm"@,
            Hourly::soil_moisture_27_81cm => "soil_moisture_27_81cm"@,
            Hourly::is_day => "is_day"@,
        }
    }

    pub fn name(&self) -> (r: &'static str)
        ensures
            r@ == self.spec_name(),
    {
        match self {
            Hourly::temperature_2m => "temperature_2m",
            Hourly::relative_humidity_2m => "relative_humidity_2m",
            Hourly::dewpoint_2m => "dewpoint_2m",
            Hourly::apparent_temperature => "apparent_temperature",
            Hourly::pressure_msl => "pressure_msl",
            Hourly::surface_pressure => "surface_pressure",
            Hourly::cloudcover => "cloudcover",
            Hourly::cloudcover_low => "cloudcover_low",
            Hourly::cloudcover_mid => "cloudcover_mid",
            Hourly::cloudcover_high => "cloudcover_high",
            Hourly::windspeed_10m => "windspeed_10m",
            Hourly::windspeed_80m => "windspeed_80m",
            Hourly::windspeed_120m => "windspeed_120m",
            Hourly::windspeed_180m => "windspeed_180m",
            Hourly::winddirection_10m => "winddirection_10m",
            Hourly::windspeedtion_80m => "windspeedtion_80m",
            Hourly::windspeedtion_120m => "windspeedtion_120m",
            Hourly::windspeedtion_180m => "windspeedtion_180m",
            Hourly::windgusts_10m => "windgusts_10m",
            Hourly::shortwave_radiation => "shortwave_radiation",
            Hourly::direct_radiation => "direct_radiation",
            Hourly::direct_normal_irradiance => "direct_normal_irradiance",
            Hourly::diffuse_radiation => "diffuse_radiation",
            Hourly::vapor_pressure_deficit => "vapor_pressure_deficit",
            Hourly::cape => "cape",
            Hourly::evapotranspiration => "evapotranspiration",
            Hourly::et0_fao_evapotranspiration => "et0_fao_evapotranspiration",
            Hourly::precipitation => "precipitation",
            Hourly::snowfall => "snowfall",
            Hourly::precipitation_probability => "precipitation_probability",
            Hourly::rain => "rain",
            Hourly::showers => "showers",
            Hourly::weathercode => "weathercode",
            Hourly::snow_depth => "snow_depth",
            Hourly::freezinglevel_height => "freezinglevel_height",
            Hourly::visibility => "visibility",
            Hourly::soil_temperature_0cm => "soil_temperature_0cm",
            Hourly::soil_temperature_6cm => "soil_temperature_6cm",
            Hourly::soil_temperature_18cm => "soil_temperature_18cm",
            Hourly::soil_temperature_54cm => "soil_temperature_54cm",
            Hourly::soil_moisture_0_1cm => "soil_moisture_0_1cm",
            Hourly::soil_moisture_1_3cm => "soil_moisture_1_3cm",
            Hourly::soil_moisture_4_9cm => "soil_moisture_4_9cm",
            Hourly::soil_moisture_9_27cm => "soil_moisture_9_27cm",
            Hourly::soil_moisture_27_81cm => "soil_moisture_27_81cm",
            Hourly::is_day => "is_day",
        }
    }
}

/// Daily variables.
#[allow(non_camel_case_types)]
#[derive(Clone, Copy, Debug, PartialEq, Eq)]
pub enum Daily {
    temperature_2m_max,
    temperature_2m_min,
    apparent_temperature_max,
    apparent_temperature_min,
    precipitation_sum,
    rain_sum,
    showers_sum,
    swnofall_sum,
    precipitation_hours,
    precipitation_probability_max,
    precipitation_probability_min,
    precipitation_probability_mean,
    weathercode,
    sunrise,
    sunset,
    windspeed_10m_max,
    windgusts_10m_max,
    winddirection_10m_dominant,
    shortwave_radiation_sum,
    et0_fao_evapotranspiration,
    uv_index_max,
    uv_index_clear_sky_max,
}

impl Daily {
    /// The identifier the API knows this option by.
    pub open spec fn spec_name(self) -> Seq<char> {
        match self {
            Daily::temperature_2m_max => "temperature_2m_max"@,
            Daily::temperature_2m_min => "temperature_2m_min"@,
            Daily::apparent_temperature_max => "apparent_temperature_max"@,
            Daily::apparent_temperature_min => "apparent_temperature_min"@,
            Daily::precipitation_sum => "precipitation_sum"@,
            Daily::rain_sum => "rain_sum"@,
            Daily::showers_sum => "showers_sum"@,
            Daily::swnofall_sum => "swnofall_sum"@,
            Daily::precipitation_hours => "precipitation_hours"@,
            Daily::precipitation_probability_max => "precipitation_probability_max"@,
            Daily::precipitation_probability_min => "precipitation_probability_min"@,
            Daily::precipitation_probability_mean => "precipitation_probability_mean"@,
            Daily::weathercode => "weathercode"@,
            Daily::sunrise => "sunrise"@,
            Daily::sunset => "sunset"@,
            Daily::windspeed_10m_max => "windspeed_10m_max"@,
            Daily::windgusts_10m_max => "windgusts_10m_max"@,
            Daily::winddirection_10m_dominant => "winddirection_10m_dominant"@,
            Daily::shortwave_radiation_sum => "shortwave_radiation_sum"@,
            Daily::et0_fao_evapotranspiration => "et0_fao_evapotranspiration"@,
            Daily::uv_index_max => "uv_index_max"@,
            Daily::uv_index_clear_sky_max => "uv_index_clear_sky_max"@,
        }
    }

    pub fn name(&self) -> (r: &'static str)
        ensures
            r@ == self.spec_name(),
    {
        match self {
            Daily::temperature_2m_max => "temperature_2m_max",
            Daily::temperature_2m_min => "temperature_2m_min",
            Daily::apparent_temperature_max => "apparent_temperature_max",
            Daily::apparent_temperature_min => "apparent_temperature_min",
            Daily::precipitation_sum => "precipitation_sum",
            Daily::rain_sum => "rain_sum",
            Daily::showers_sum => "showers_sum",
            Daily::swnofall_sum => "swnofall_sum",
            Daily::precipitation_hours => "precipitation_hours",
            Daily::precipitation_probability_max => "precipitation_probability_max",
            Daily::precipitation_probability_min => "precipitation_probability_min",
            Daily::precipitation_probability_mean => "precipitation_probability_mean",
            Daily::weathercode => "weathercode",
            Daily::sunrise => "sunrise",
            Daily::sunset => "sunset",
            Daily::windspeed_10m_max => "windspeed_10m_max",
            Daily::windgusts_10m_max => "windgusts_10m_max",
            Daily::winddirection_10m_dominant => "winddirection_10m_dominant",
            Daily::shortwave_radiation_sum => "shortwave_radiation_sum",
            Daily::et0_fao_evapotranspiration => "et0_fao_evapotranspiration",
            Daily::uv_index_max => "uv_index_max",
            Daily::uv_index_clear_sky_max => "uv_index_clear_sky_max",
        }
    }
}

/// The time zone of the returned data: an explicit `(continent, country)`
/// pair, or automatic resolution from the coordinates.
#[allow(non_camel_case_types)]
#[derive(Clone, Copy, Debug, PartialEq, Eq)]
pub enum Timezone<'a> {
    explicit(&'a str, &'a str),
    auto,
}

impl<'a> Timezone<'a> {
    /// The query value: `continent%2Fcountry` (an encoded slash), or `auto`.
    pub open spec fn spec_text(self) -> Seq<char> {
        match self {
            Timezone::explicit(continent, country) => continent@ + "%2F"@ + country@,
            Timezone::auto => "auto"@,
        }
    }

    pub fn get(&self) -> (r: String)
        ensures
            r@ == self.spec_text(),
    {
        match self {
            Timezone::explicit(continent, country) => {
                let mut r = String::from_str(continent);
                r.append("%2F");
                r.append(country);
                r
            },
            Timezone::auto => String::from_str("auto"),
        }
    }
}

pub open spec fn bool_text(b: bool) -> Seq<char> {
    if b {
        "true"@
    } else {
        "false"@
    }
}

/// An optional query parameter together with its value.
#[allow(non_camel_case_types)]
#[derive(Clone, Copy, Debug, PartialEq, Eq)]
pub enum Settings<'a> {
    elevation(Decimal),
    current_weather(bool),
    temperature_unit(Temperature),
    windspeed_unit(Speed),
    precipitation_unit(Precipitation),
    timeformat(TimeFormat),
    timezone(Timezone<'a>),
    past_days(u8),
    forecast_days(u8),
    start_date(&'a str),
    end_date(&'a str),
    cell_selection(Cell),
}

impl<'a> Settings<'a> {
    /// The parameter's key in the query.
    pub open spec fn spec_key(self) -> Seq<char> {
        match self {
            Settings::elevation(_) => "elevation"@,
            Settings::current_weather(_) => "current_weather"@,
            Settings::temperature_unit(_) => "temperature_unit"@,
            Settings::windspeed_unit(_) => "windspeed_unit"@,
            Settings::precipitation_unit(_) => "precipitation_unit"@,
            Settings::timeformat(_) => "timeformat"@,
            Settings::timezone(_) => "timezone"@,
            Settings::past_days(_) => "past_days"@,
            Settings::forecast_days(_) => "forecast_days"@,
            Settings::start_date(_) => "start_date"@,
            Settings::end_date(_) => "end_date"@,
            Settings::cell_selection(_) => "cell_selection"@,
        }
    }

    /// The parameter's value in the query.
    pub open spec fn spec_value(self) -> Seq<char> {
        match self {
            Settings::elevation(t) => t.spec_text(),
            Settings::current_weather(t) => bool_text(t),
            Settings::temperature_unit(t) => t.spec_name(),
            Settings::windspeed_unit(t) => t.spec_name(),
            Settings::precipitation_unit(t) => t.spec_name(),
            Settings::timeformat(t) => t.spec_name(),
            Settings::timezone(t) => t.spec_text(),
            Settings::past_days(t) => nat_text(t as nat),
            Settings::forecast_days(t) => nat_text(t as nat),
            Settings::start_date(t) => t@,
            Settings::end_date(t) => t@,
            Settings::cell_selection(t) => t.spec_name(),
        }
    }

    pub fn key(&self) -> (r: &'static str)
        ensures
            r@ == self.spec_key(),
    {
        match self {
            Settings::elevation(_) => "elevation",
            Settings::current_weather(_) => "current_weather",
            Settings::temperature_unit(_) => "temperature_unit",
            Settings::windspeed_unit(_) => "windspeed_unit",
            Settings::precipitation_unit(_) => "precipitation_unit",
            Settings::timeformat(_) => "timeformat",
            Settings::timezone(_) => "timezone",
            Settings::past_days(_) => "past_days",
            Settings::forecast_days(_) => "forecast_days",
            Settings::start_date(_) => "start_date",
            Settings::end_date(_) => "end_date",
            Settings::cell_selection(_) => "cell_selection",
        }
    }

    pub fn get(&self) -> (r: String)
        ensures
            r@ == self.spec_value(),
    {
        match self {
            Settings::elevation(t) => t.text(),
            Settings::current_weather(t) => {
                if *t {
                    String::from_str("true")
                } else {
                    String::from_str("false")
                }
            },
            Settings::temperature_unit(t) => String::from_str(t.name()),
            Settings::windspeed_unit(t) => String::from_str(t.name()),
            Settings::precipitation_unit(t) => String::from_str(t.name()),
            Settings::cell_selection(t) => String::from_str(t.name()),
            Settings::timeformat(t) => String::from_str(t.name()),
            Settings::past_days(t) => nat_string(*t as u64),
            Settings::forecast_days(t) => nat_string(*t as u64),
            Settings::timezone(t) => t.get(),
            Settings::start_date(t) => String::from_str(t),
            Settings::end_date(t) => String::from_str(t),
        }
    }
}

/// A variable measured at a pressure level, given in hectopascals.
#[allow(non_camel_case_types)]
#[derive(Clone, Copy, Debug, PartialEq, Eq)]
pub enum PressureVar {
    temperature(u32),
    relativehumidity(u32),
    dewpoint(u32),
    cloudcover(u32),
    windspeed(u32),
    winddirection(u32),
    geopotential_height(u32),
}

impl PressureVar {
    /// The measurement's identifier, without the level.
    pub open spec fn spec_name(self) -> Seq<char> {
        match self {
            PressureVar::temperature(_) => "temperature"@,
            PressureVar::relativehumidity(_) => "relativehumidity"@,
            PressureVar::dewpoint(_) => "dewpoint"@,
            PressureVar::cloudcover(_) => "cloudcover"@,
            PressureVar::windspeed(_) => "windspeed"@,
            PressureVar::winddirection(_) => "winddirection"@,
            PressureVar::geopotential_height(_) => "geopotential_height"@,
        }
    }

    /// The pressure level in hectopascals.
    pub open spec fn level(self) -> u32 {
        match self {
            PressureVar::temperature(h) => h,
            PressureVar::relativehumidity(h) => h,
            PressureVar::dewpoint(h) => h,
            PressureVar::cloudcover(h) => h,
            PressureVar::windspeed(h) => h,
            PressureVar::winddirection(h) => h,
            PressureVar::geopotential_height(h) => h,
        }
    }

    /// The query token: `<measurement>_<level>hPa`.
    pub open spec fn spec_text(self) -> Seq<char> {
        self.spec_name() + "_"@ + nat_text(self.level() as nat) + "hPa"@
    }

    pub fn name(&self) -> (r: &'static str)
        ensures
            r@ == self.spec_name(),
    {
        match self {
            PressureVar::temperature(_) => "temperature",
            PressureVar::relativehumidity(_) => "relativehumidity",
            PressureVar::dewpoint(_) => "dewpoint",
            PressureVar::cloudcover(_) => "cloudcover",
            PressureVar::windspeed(_) => "windspeed",
            PressureVar::winddirection(_) => "winddirection",
            PressureVar::geopotential_height(_) => "geopotential_height",
        }
    }

    pub fn get(&self) -> (r: String)
        ensures
            r@ == self.spec_text(),
    {
        let value: u32 = match self {
            PressureVar::temperature(h)
            | PressureVar::relativehumidity(h)
            | PressureVar::dewpoint(h)
            | PressureVar::cloudcover(h)
            | PressureVar::windspeed(h)
            | PressureVar::winddirection(h)
            | PressureVar::geopotential_height(h) => *h,
        };
        let mut r = String::from_str(self.name());
        r.append("_");
        let level = nat_string(value as u64);
        r.append(level.as_str());
        r.append("hPa");
        r
    }
}

} // verus!
