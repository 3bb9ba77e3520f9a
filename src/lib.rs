//! Typed builder for forecast query URLs: coordinates, settings, hourly and
//! daily variable selections and pressure-level variables, rendered into one
//! query string whose exact text is stated and proved.
pub mod catalog;
pub mod decimal;
pub mod forecast;
pub mod laws;

pub use catalog::{
    Cell, Daily, Hourly, Precipitation, PressureVar, Settings, Speed, Temperature, TimeFormat,
    Timezone,
};
pub use decimal::Decimal;
pub use forecast::{Coordinates, Forecast, NoCoordinates, BASE_URL};
