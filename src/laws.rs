//! Properties of the rendered URL that hold for every request.
use vstd::prelude::*;

use crate::catalog::{Daily, Hourly, PressureVar, Settings};
use crate::forecast::{
    coordinates_text, pressure_text, settings_text, Coordinates, Forecast, BASE_URL,
};

verus! {

/// The text of a concatenation of settings is the text of the first part
/// followed by the text of the second.
pub proof fn lemma_settings_text_concat(a: Seq<Settings>, b: Seq<Settings>)
    ensures
        settings_text(a + b) == settings_text(a) + settings_text(b),
    decreases b.len(),
{
    if b.len() == 0 {
        assert(a + b == a);
        assert(settings_text(b) == Seq::<char>::empty());
    } else {
        lemma_settings_text_concat(a, b.drop_last());
        assert((a + b).drop_last() == a + b.drop_last());
        assert((a + b).last() == b.last());
    }
}

/// The text of a concatenation of pressure-level variables is the text of the
/// first part followed by the text of the second.
pub proof fn lemma_pressure_text_concat(a: Seq<PressureVar>, b: Seq<PressureVar>)
    ensures
        pressure_text(a + b) == pressure_text(a) + pressure_text(b),
    decreases b.len(),
{
    if b.len() == 0 {
        assert(a + b == a);
        assert(pressure_text(b) == Seq::<char>::empty());
    } else {
        lemma_pressure_text_concat(a, b.drop_last());
        assert((a + b).drop_last() == a + b.drop_last());
        assert((a + b).last() == b.last());
    }
}

/// A request with coordinates and nothing else renders as the endpoint
/// followed by `?latitude=<lat>&longitude=<lon>`.
pub proof fn bare_request_url(f: Forecast<Coordinates>)
    requires
        f.settings@.len() == 0,
        f.hourly@.len() == 0,
        f.daily@.len() == 0,
        f.pressure_var@.len() == 0,
    ensures
        f.spec_url() == BASE_URL@ + "?latitude="@ + f.coordinates.latitude.spec_text()
            + "&longitude="@ + f.coordinates.longitude.spec_text(),
{
    assert(settings_text(f.settings@) == Seq::<char>::empty());
    assert(pressure_text(f.pressure_var@) == Seq::<char>::empty());
    let c = coordinates_text(f.coordinates);
    assert(f.spec_url() == c + Seq::<char>::empty() + Seq::<char>::empty() + Seq::<char>::empty()
        + Seq::<char>::empty());
    assert(f.spec_url() =~= c);
}

/// Settings appended in two batches, `a` and then `b`, appear in the URL as
/// the settings already there, then every one of `a`, then every one of `b`,
/// each as its own `&key=value`: nothing is reordered or merged, and splitting
/// a batch over several calls changes nothing.
pub proof fn settings_keep_order(s: Seq<Settings>, a: Seq<Settings>, b: Seq<Settings>)
    ensures
        settings_text(s + a + b) == settings_text(s) + settings_text(a) + settings_text(b),
        settings_text(s + a + b) == settings_text(s + (a + b)),
{
    lemma_settings_text_concat(s + a, b);
    lemma_settings_text_concat(s, a);
    assert(s + a + b == s + (a + b));
}

/// Pressure-level variables appended in two batches appear in the URL in the
/// order appended, each as its own `&<measurement>_<level>hPa` token.
pub proof fn pressure_vars_keep_order(
    s: Seq<PressureVar>,
    a: Seq<PressureVar>,
    b: Seq<PressureVar>,
)
    ensures
        pressure_text(s + a + b) == pressure_text(s) + pressure_text(a) + pressure_text(b),
{
    lemma_pressure_text_concat(s + a, b);
    lemma_pressure_text_concat(s, a);
}

/// Appending empty lists leaves the rendered URL unchanged.
pub proof fn appending_nothing_keeps_url(f: Forecast<Coordinates>, g: Forecast<Coordinates>)
    requires
        g.coordinates == f.coordinates,
        g.settings@ == f.settings@ + Seq::<Settings>::empty(),
        g.hourly@ == f.hourly@ + Seq::<Hourly>::empty(),
        g.daily@ == f.daily@ + Seq::<Daily>::empty(),
        g.pressure_var@ == f.pressure_var@ + Seq::<PressureVar>::empty(),
    ensures
        g.spec_url() == f.spec_url(),
{
    assert(g.settings@ == f.settings@);
    assert(g.hourly@ == f.hourly@);
    assert(g.daily@ == f.daily@);
    assert(g.pressure_var@ == f.pressure_var@);
}

/// Every rendered URL starts with the endpoint and both coordinates.
pub proof fn url_starts_with_coordinates(f: Forecast<Coordinates>)
    ensures
        coordinates_text(f.coordinates).len() <= f.spec_url().len(),
        f.spec_url().take(coordinates_text(f.coordinates).len() as int) == coordinates_text(
            f.coordinates,
        ),
{
    let c = coordinates_text(f.coordinates);
    let u = f.spec_url();
    assert(u.take(c.len() as int) =~= c);
}

} // verus!
