//! The request builder and its serialisation into a URL.
//!
//! A `Forecast` carries its coordinate state in its type parameter: it is
//! created as `Forecast<NoCoordinates>`, `coord` turns it into
//! `Forecast<Coordinates>`, and only the latter can be rendered.
use vstd::prelude::*;

use crate::catalog::{Daily, Hourly, PressureVar, Settings};
use crate::decimal::Decimal;

verus! {

/// The endpoint every request goes to.
pub const BASE_URL: &'static str = "https://api.open-meteo.com/v1/forecast";

/// State of a request that has no coordinates yet.
#[derive(Clone, Copy, Debug, Default, PartialEq, Eq)]
pub struct NoCoordinates;

/// State of a request whose coordinates are set.
#[derive(Clone, Copy, Debug, PartialEq, Eq)]
pub struct Coordinates {
    pub latitude: Decimal,
    pub longitude: Decimal,
}

/// Everything a request holds, each list in insertion order.
pub struct Forecast<'a, C> {
    pub coordinates: C,
    pub settings: Vec<Settings<'a>>,
    pub hourly: Vec<Hourly>,
    pub pressure_var: Vec<PressureVar>,
    pub daily: Vec<Daily>,
}

/// `&key=value` for each setting, in order.
pub open spec fn settings_text(s: Seq<Settings>) -> Seq<char>
    decreases s.len(),
{
    if s.len() == 0 {
        Seq::empty()
    } else {
        settings_text(s.drop_last()) + "&"@ + s.last().spec_key() + "="@ + s.last().spec_value()
    }
}

/// `,name` for each hourly variable, in order.
pub open spec fn hourly_text(s: Seq<Hourly>) -> Seq<char>
    decreases s.len(),
{
    if s.len() == 0 {
        Seq::empty()
    } else {
        hourly_text(s.drop_last()) + ","@ + s.last().spec_name()
    }
}

/// `,name` for each daily variable, in order.
pub open spec fn daily_text(s: Seq<Daily>) -> Seq<char>
    decreases s.len(),
{
    if s.len() == 0 {
        Seq::empty()
    } else {
        daily_text(s.drop_last()) + ","@ + s.last().spec_name()
    }
}

/// `&<measurement>_<level>hPa` for each pressure-level variable, in order.
pub open spec fn pressure_text(s: Seq<PressureVar>) -> Seq<char>
    decreases s.len(),
{
    if s.len() == 0 {
        Seq::empty()
    } else {
        pressure_text(s.drop_last()) + "&"@ + s.last().spec_text()
    }
}

/// The coordinate part of the URL: the endpoint and both coordinates.
pub open spec fn coordinates_text(c: Coordinates) -> Seq<char> {
    BASE_URL@ + "?latitude="@ + c.latitude.spec_text() + "&longitude="@
        + c.longitude.spec_text()
}

/// The URL of a request, from its parts.
pub open spec fn url_text(
    c: Coordinates,
    settings: Seq<Settings>,
    hourly: Seq<Hourly>,
    daily: Seq<Daily>,
    pressure: Seq<PressureVar>,
) -> Seq<char> {
    coordinates_text(c) + settings_text(settings) + (if hourly.len() == 0 {
        Seq::empty()
    } else {
        "&hourly="@ + hourly_text(hourly)
    }) + (if daily.len() == 0 {
        Seq::empty()
    } else {
        "&daily="@ + daily_text(daily)
    }) + pressure_text(pressure)
}

impl<'a> Forecast<'a, NoCoordinates> {
    /// An empty request without coordinates.
    pub fn new() -> (r: Self)
        ensures
            r.settings@ == Seq::<Settings<'a>>::empty(),
            r.hourly@ == Seq::<Hourly>::empty(),
            r.daily@ == Seq::<Daily>::empty(),
            r.pressure_var@ == Seq::<PressureVar>::empty(),
    {
        Forecast {
            coordinates: NoCoordinates,
            settings: Vec::new(),
            hourly: Vec::new(),
            pressure_var: Vec::new(),
            daily: Vec::new(),
        }
    }

    /// Sets the coordinates, the only mandatory part of a request; the
    /// lists gathered so far are kept.
    pub fn coord(self, latitude: Decimal, longitude: Decimal) -> (r: Forecast<'a, Coordinates>)
        ensures
            r.coordinates.latitude == latitude,
            r.coordinates.longitude == longitude,
            r.settings@ == self.settings@,
            r.hourly@ == self.hourly@,
            r.daily@ == self.daily@,
            r.pressure_var@ == self.pressure_var@,
    {
        Forecast {
            coordinates: Coordinates { latitude, longitude },
            settings: self.settings,
            hourly: self.hourly,
            pressure_var: self.pressure_var,
            daily: self.daily,
        }
    }
}

impl<'a> Forecast<'a, Coordinates> {
    /// The URL of this request: endpoint, coordinates, the settings in
    /// order, the hourly and daily lists when not empty, and the
    /// pressure-level variables in order.
    pub open spec fn spec_url(&self) -> Seq<char> {
        url_text(self.coordinates, self.settings@, self.hourly@, self.daily@, self.pressure_var@)
    }

    pub fn to_string(&self) -> (r: String)
        ensures
            r@ == self.spec_url(),
    {
        let mut url = String::from_str(BASE_URL);
        url.append("?latitude=");
        let lat = self.coordinates.latitude.text();
        url.append(lat.as_str());
        url.append("&longitude=");
        let lon = self.coordinates.longitude.text();
        url.append(lon.as_str());
        let ghost head = url@;
        let mut i: usize = 0;
        while i < self.settings.len()
            invariant
                i <= self.settings@.len(),
                url@ == head + settings_text(self.settings@.take(i as int)),
            decreases self.settings@.len() - i,
        {
            let el = self.settings[i];
            url.append("&");
            url.append(el.key());
            url.append("=");
            let value = el.get();
            url.append(value.as_str());
            assert(self.settings@.take(i + 1).drop_last() == self.settings@.take(i as int));
            i = i + 1;
        }
        assert(self.settings@.take(i as int) == self.settings@);
        let ghost head = url@;
        if self.hourly.len() > 0 {
            url.append("&hourly=");
            let ghost open = url@;
            let mut i: usize = 0;
            while i < self.hourly.len()
                invariant
                    i <= self.hourly@.len(),
                    url@ == open + hourly_text(self.hourly@.take(i as int)),
                decreases self.hourly@.len() - i,
            {
                url.append(",");
                url.append(self.hourly[i].name());
                assert(self.hourly@.take(i + 1).drop_last() == self.hourly@.take(i as int));
                i = i + 1;
            }
            assert(self.hourly@.take(i as int) == self.hourly@);
        }
        let ghost head = url@;
        if self.daily.len() > 0 {
            url.append("&daily=");
            let ghost open = url@;
            let mut i: usize = 0;
            while i < self.daily.len()
                invariant
                    i <= self.daily@.len(),
                    url@ == open + daily_text(self.daily@.take(i as int)),
                decreases self.daily@.len() - i,
            {
                url.append(",");
                url.append(self.daily[i].name());
                assert(self.daily@.take(i + 1).drop_last() == self.daily@.take(i as int));
                i = i + 1;
            }
            assert(self.daily@.take(i as int) == self.daily@);
        }
        let ghost head = url@;
        let mut i: usize = 0;
        while i < self.pressure_var.len()
            invariant
                i <= self.pressure_var@.len(),
                url@ == head + pressure_text(self.pressure_var@.take(i as int)),
            decreases self.pressure_var@.len() - i,
        {
            url.append("&");
            let token = self.pressure_var[i].get();
            url.append(token.as_str());
            assert(self.pressure_var@.take(i + 1).drop_last() == self.pressure_var@.take(i as int));
            i = i + 1;
        }
        assert(self.pressure_var@.take(i as int) == self.pressure_var@);
        url
    }
}

impl<'a, C> Forecast<'a, C> {
    /// Appends settings, in the order given.
    pub fn settings(self, settings: &[Settings<'a>]) -> (r: Self)
        ensures
            r.coordinates == self.coordinates,
            r.settings@ == self.settings@ + settings@,
            r.hourly@ == self.hourly@,
            r.daily@ == self.daily@,
            r.pressure_var@ == self.pressure_var@,
    {
        let ghost before = self;
        let mut this = self;
        let ghost start = this.settings@;
        let mut i: usize = 0;
        while i < settings.len()
            invariant
                i <= settings@.len(),
                this.settings@ == start + settings@.take(i as int),
                this.coordinates == before.coordinates,
                this.hourly@ == before.hourly@,
                this.daily@ == before.daily@,
                this.pressure_var@ == before.pressure_var@,
            decreases settings@.len() - i,
        {
            this.settings.push(settings[i]);
            assert(settings@.take(i + 1) == settings@.take(i as int).push(settings@[i as int]));
            i = i + 1;
        }
        assert(settings@.take(i as int) == settings@);
        this
    }

    /// Appends hourly variables, in the order given.
    pub fn hourly(self, hourly: &[Hourly]) -> (r: Self)
        ensures
            r.coordinates == self.coordinates,
            r.settings@ == self.settings@,
            r.hourly@ == self.hourly@ + hourly@,
            r.daily@ == self.daily@,
            r.pressure_var@ == self.pressure_var@,
    {
        let ghost before = self;
        let mut this = self;
        let ghost start = this.hourly@;
        let mut i: usize = 0;
        while i < hourly.len()
            invariant
                i <= hourly@.len(),
                this.hourly@ == start + hourly@.take(i as int),
                this.coordinates == before.coordinates,
                this.settings@ == before.settings@,
                this.daily@ == before.daily@,
                this.pressure_var@ == before.pressure_var@,
            decreases hourly@.len() - i,
        {
            this.hourly.push(hourly[i]);
            assert(hourly@.take(i + 1) == hourly@.take(i as int).push(hourly@[i as int]));
            i = i + 1;
        }
        assert(hourly@.take(i as int) == hourly@);
        this
    }

    /// Appends daily variables, in the order given.
    pub fn daily(self, daily: &[Daily]) -> (r: Self)
        ensures
            r.coordinates == self.coordinates,
            r.settings@ == self.settings@,
            r.hourly@ == self.hourly@,
            r.daily@ == self.daily@ + daily@,
            r.pressure_var@ == self.pressure_var@,
    {
        let ghost before = self;
        let mut this = self;
        let ghost start = this.daily@;
        let mut i: usize = 0;
        while i < daily.len()
            invariant
                i <= daily@.len(),
                this.daily@ == start + daily@.take(i as int),
                this.coordinates == before.coordinates,
                this.settings@ == before.settings@,
                this.hourly@ == before.hourly@,
                this.pressure_var@ == before.pressure_var@,
            decreases daily@.len() - i,
        {
            this.daily.push(daily[i]);
            assert(daily@.take(i + 1) == daily@.take(i as int).push(daily@[i as int]));
            i = i + 1;
        }
        assert(daily@.take(i as int) == daily@);
        this
    }

    /// Appends pressure-level variables, in the order given.
    pub fn pressure_var(self, pressure_var: &[PressureVar]) -> (r: Self)
        ensures
            r.coordinates == self.coordinates,
            r.settings@ == self.settings@,
            r.hourly@ == self.hourly@,
            r.daily@ == self.daily@,
            r.pressure_var@ == self.pressure_var@ + pressure_var@,
    {
        let ghost before = self;
        let mut this = self;
        let ghost start = this.pressure_var@;
        let mut i: usize = 0;
        while i < pressure_var.len()
            invariant
                i <= pressure_var@.len(),
                this.pressure_var@ == start + pressure_var@.take(i as int),
                this.coordinates == before.coordinates,
                this.settings@ == before.settings@,
                this.hourly@ == before.hourly@,
                this.daily@ == before.daily@,
            decreases pressure_var@.len() - i,
        {
            this.pressure_var.push(pressure_var[i]);
            assert(pressure_var@.take(i + 1) == pressure_var@.take(i as int).push(
                pressure_var@[i as int],
            ));
            i = i + 1;
        }
        assert(pressure_var@.take(i as int) == pressure_var@);
        this
    }
}

} // verus!
