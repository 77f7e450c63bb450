//! Message rendering: substitutes the known placeholders into a notification
//! template. Durations are rendered through humantime; the pin number in
//! plain decimal. Unknown placeholders are left verbatim.

use vstd::prelude::*;

use crate::settings::Settings;
use crate::text::{dec_of, replaced, replace_chars, str_to_chars, string_from_chars, u64_to_dec_chars};

verus! {

/// What humantime renders a duration of the given milliseconds as. The
/// rendering depends on the milliseconds alone.
pub uninterp spec fn human_duration_of(millis: u64) -> Seq<char>;

/// Relies on `humantime::format_duration`: renders a duration as text. The
/// result is a pure function of the duration.
#[verifier::external_body]
fn duration_text(millis: u64) -> (r: String)
    ensures
        r@ == human_duration_of(millis),
{
    humantime::format_duration(core::time::Duration::from_millis(millis)).to_string()
}

/// The template with every known placeholder substituted: the elapsed time
/// since the level qualified, the pin number, and the four configured
/// durations, each replaced in this order. A placeholder the template does
/// not hold changes nothing; an unknown placeholder is left verbatim.
pub open spec fn spec_rendered(
    template: Seq<char>,
    since_elapsed: u64,
    pin_number: u8,
    poll_interval: u64,
    hold: u64,
    time_between: u64,
    time_between_retry: u64,
) -> Seq<char> {
    let s1 = replaced(template, "{since}"@, human_duration_of(since_elapsed));
    let s2 = replaced(s1, "{pin_number}"@, dec_of(pin_number as nat));
    let s3 = replaced(s2, "{poll_interval}"@, human_duration_of(poll_interval));
    let s4 = replaced(s3, "{hold}"@, human_duration_of(hold));
    let s5 = replaced(s4, "{time_between_batsigns}"@, human_duration_of(time_between));
    replaced(s5, "{time_between_batsigns_retry}"@, human_duration_of(time_between_retry))
}

/// Constructs a Batsign message body from a template, the current settings
/// and the time (milliseconds) the line has spent in its current level.
pub fn format_batsign_message(template: &str, settings: &Settings, since_elapsed: u64) -> (r:
    String)
    ensures
        r@ == spec_rendered(
            template@,
            since_elapsed,
            settings.pin_number,
            settings.poll_interval,
            settings.hold,
            settings.time_between_batsigns,
            settings.time_between_batsigns_retry,
        ),
{
    let s = str_to_chars(template);

    let pat = str_to_chars("{since}");
    let sub = str_to_chars(duration_text(since_elapsed).as_str());
    let s = replace_chars(&s, &pat, &sub);

    let pat = str_to_chars("{pin_number}");
    let sub = u64_to_dec_chars(settings.pin_number as u64);
    let s = replace_chars(&s, &pat, &sub);

    let pat = str_to_chars("{poll_interval}");
    let sub = str_to_chars(duration_text(settings.poll_interval).as_str());
    let s = replace_chars(&s, &pat, &sub);

    let pat = str_to_chars("{hold}");
    let sub = str_to_chars(duration_text(settings.hold).as_str());
    let s = replace_chars(&s, &pat, &sub);

    let pat = str_to_chars("{time_between_batsigns}");
    let sub = str_to_chars(duration_text(settings.time_between_batsigns).as_str());
    let s = replace_chars(&s, &pat, &sub);

    let pat = str_to_chars("{time_between_batsigns_retry}");
    let sub = str_to_chars(duration_text(settings.time_between_batsigns_retry).as_str());
    let s = replace_chars(&s, &pat, &sub);

    string_from_chars(&s)
}

} // verus!
