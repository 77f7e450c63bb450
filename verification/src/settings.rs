//! Application settings: defaults, the overlay of configuration file and
//! command-line values, resource-path resolution and the sanity checks run
//! before the control loop starts.

use vstd::prelude::*;

use crate::config;
use crate::config::{spec_join_path, join_path};
use crate::defaults;
use crate::text::{
    dec_of, spec_has_prefix, str_to_chars, string_from_chars, trim_chars, trimmed, u64_to_dec_chars,
    has_prefix,
};

verus! {

/// Application settings, resolved before the control loop starts. Durations
/// are milliseconds; paths are plain strings with `/` as the separator.
pub struct Settings {
    /// GPIO pin number to monitor.
    pub pin_number: u8,
    /// Poll interval for checking the GPIO pin.
    pub poll_interval: u64,
    /// Time the GPIO pin must be HIGH or LOW before qualifying as a valid
    /// change.
    pub hold: u64,
    /// Minimum time between sending notifications, to avoid spamming.
    pub time_between_batsigns: u64,
    /// Time to wait before retrying to send a notification after a failure.
    pub time_between_batsigns_retry: u64,
    /// List of Batsign URLs to send notifications to.
    pub batsign_urls: Vec<String>,
    /// Body of the Batsign alarm message template.
    pub alarm_template_body: String,
    /// Body of the Batsign restored message template.
    pub restored_template_body: String,
    /// Path of the resource directory, which holds the configuration file
    /// and the other resources.
    pub resource_dir_path: String,
    /// Path of the Batsign URLs file, resolved at runtime.
    pub batsign_urls_path: String,
    /// Path of the configuration file, resolved at runtime.
    pub config_file_path: String,
    /// Path of the alarm message template file, resolved at runtime.
    pub alarm_template_path: String,
    /// Path of the restored message template file, resolved at runtime.
    pub restored_template_path: String,
    /// If true, send no notifications and only report what would be done.
    pub dry_run: bool,
    /// If true, print additional debug information.
    pub debug: bool,
}

/// Command-line arguments, which override config file settings. The
/// surrounding program parses the command line and hands the values over in
/// this form.
pub struct Cli {
    /// Raspberry Pi GPIO pin number to monitor.
    pub pin_number: Option<u8>,
    /// Poll interval between GPIO pin reads, milliseconds.
    pub poll_interval: Option<u64>,
    /// Duration the pin must be HIGH or LOW before qualifying as a valid
    /// change, milliseconds.
    pub hold: Option<u64>,
    /// Minimum time between sending notifications, milliseconds.
    pub time_between_batsigns: Option<u64>,
    /// Time to wait before retrying to send a notification after a failure,
    /// milliseconds.
    pub time_between_batsigns_retry: Option<u64>,
    /// Perform a dry run without sending any notifications.
    pub dry_run: bool,
    /// Print additional debug information.
    pub debug: bool,
    /// Show the resolved configuration and exit.
    pub show: bool,
    /// An alternate resource directory, if one was given.
    pub resource_dir: Option<String>,
    /// Write the resolved configuration to disk.
    pub save: bool,
}

/// The base value overridden by an overlay value, when one is there.
pub open spec fn overlaid<T>(base: T, over: Option<T>) -> T {
    match over {
        Some(v) => v,
        None => base,
    }
}

/// Whether a configured URL passes the shape check: trimmed of whitespace,
/// it must start with `https://`.
pub open spec fn spec_url_ok(url: Seq<char>) -> bool {
    spec_has_prefix(trimmed(url), "https://"@)
}

/// The complaint about an out-of-range pin number.
pub open spec fn pin_error_msg(pin: u8) -> Seq<char> {
    "Invalid GPIO pin number: "@ + dec_of(pin as nat) + ". Must be between 0 and 27."@
}

/// The complaint about a URL that fails the shape check.
pub open spec fn url_error_msg(url: Seq<char>) -> Seq<char> {
    "Batsign URL \""@ + trimmed(url) + "\" does not seem to be a valid URL."@
}

/// One complaint for each URL in the list that fails the shape check, in
/// list order.
pub open spec fn url_error_msgs(urls: Seq<Seq<char>>) -> Seq<Seq<char>>
    decreases urls.len(),
{
    if urls.len() == 0 {
        Seq::empty()
    } else {
        url_error_msgs(urls.drop_last()) + (if spec_url_ok(urls.last()) {
            Seq::empty()
        } else {
            seq![url_error_msg(urls.last())]
        })
    }
}

impl Default for Settings {
    /// Default values for settings, used as a base for applying config file
    /// and CLI overrides.
    fn default() -> (r: Self)
        ensures
            r.pin_number == defaults::DEFAULT_PIN,
            r.poll_interval == defaults::DEFAULT_POLL_INTERVAL,
            r.hold == defaults::DEFAULT_HOLD,
            r.time_between_batsigns == defaults::DEFAULT_TIME_BETWEEN_BATSIGNS,
            r.time_between_batsigns_retry == defaults::DEFAULT_TIME_BETWEEN_BATSIGNS_RETRY,
            r.batsign_urls@.len() == 0,
            r.alarm_template_body@ == defaults::ALARM_TEMPLATE@,
            r.restored_template_body@ == defaults::RESTORED_TEMPLATE@,
            r.resource_dir_path@.len() == 0,
            r.batsign_urls_path@.len() == 0,
            r.config_file_path@.len() == 0,
            r.alarm_template_path@.len() == 0,
            r.restored_template_path@.len() == 0,
            !r.dry_run,
            !r.debug,
    {
        Settings {
            pin_number: defaults::DEFAULT_PIN,
            poll_interval: defaults::DEFAULT_POLL_INTERVAL,
            hold: defaults::DEFAULT_HOLD,
            time_between_batsigns: defaults::DEFAULT_TIME_BETWEEN_BATSIGNS,
            time_between_batsigns_retry: defaults::DEFAULT_TIME_BETWEEN_BATSIGNS_RETRY,
            batsign_urls: Vec::new(),
            alarm_template_body: defaults::ALARM_TEMPLATE.to_owned(),
            restored_template_body: defaults::RESTORED_TEMPLATE.to_owned(),
            resource_dir_path: String::new(),
            batsign_urls_path: String::new(),
            config_file_path: String::new(),
            alarm_template_path: String::new(),
            restored_template_path: String::new(),
            dry_run: false,
            debug: false,
        }
    }
}

impl Settings {
    /// Applies the resource directory setting: the provided directory when
    /// one was given, the platform's default configuration directory
    /// otherwise (empty when that cannot be determined). Every other field
    /// is left as it was.
    pub fn with_resource_dir(self, resource_dir: &Option<String>) -> (r: Self)
        ensures
            resource_dir matches Some(d) ==> r.resource_dir_path@ == d@,
            r.pin_number == self.pin_number,
            r.poll_interval == self.poll_interval,
            r.hold == self.hold,
            r.time_between_batsigns == self.time_between_batsigns,
            r.time_between_batsigns_retry == self.time_between_batsigns_retry,
            r.batsign_urls == self.batsign_urls,
            r.alarm_template_body == self.alarm_template_body,
            r.restored_template_body == self.restored_template_body,
            r.batsign_urls_path == self.batsign_urls_path,
            r.config_file_path == self.config_file_path,
            r.alarm_template_path == self.alarm_template_path,
            r.restored_template_path == self.restored_template_path,
            r.dry_run == self.dry_run,
            r.debug == self.debug,
    {
        let mut s = self;
        match resource_dir {
            Some(dir) => {
                s.resource_dir_path = dir.clone();
            },
            None => {
                s.resource_dir_path = match config::resolve_config_directory() {
                    Some(d) => d,
                    None => String::new(),
                };
            },
        }
        s
    }

    /// Every complaint the sanity check would raise, in the order it checks:
    /// the pin number, the three intervals, then — unless this is a dry run
    /// — the URL list, which must not be empty and each entry of which must
    /// pass the shape check.
    pub open spec fn spec_sanity_errors(self) -> Seq<Seq<char>> {
        (if self.pin_number > 27 {
            seq![pin_error_msg(self.pin_number)]
        } else {
            Seq::empty()
        }) + (if self.poll_interval == 0 {
            seq!["Poll interval must be greater than zero."@]
        } else {
            Seq::empty()
        }) + (if self.time_between_batsigns == 0 {
            seq!["Time between notifications must be greater than zero."@]
        } else {
            Seq::empty()
        }) + (if self.time_between_batsigns_retry == 0 {
            seq!["Time between notification retries must be greater than zero."@]
        } else {
            Seq::empty()
        }) + (if !self.dry_run {
            if self.batsign_urls@.len() == 0 {
                seq!["At least one Batsign URL is required."@]
            } else {
                url_error_msgs(self.batsign_urls.deep_view())
            }
        } else {
            Seq::empty()
        })
    }

    /// Sanity-checks the settings, returning the full list of complaints if
    /// any check fails — every violation is reported, not only the first.
    pub fn sanity_check(&self) -> (r: Result<(), Vec<String>>)
        ensures
            r is Ok <==> self.spec_sanity_errors().len() == 0,
            r matches Err(v) ==> v.deep_view() == self.spec_sanity_errors(),
    {
        let mut vec: Vec<String> = Vec::new();
        let ghost e_pin: Seq<Seq<char>> = if self.pin_number > 27 {
            seq![pin_error_msg(self.pin_number)]
        } else {
            Seq::empty()
        };
        let ghost e_poll: Seq<Seq<char>> = if self.poll_interval == 0 {
            seq!["Poll interval must be greater than zero."@]
        } else {
            Seq::empty()
        };
        let ghost e_tbb: Seq<Seq<char>> = if self.time_between_batsigns == 0 {
            seq!["Time between notifications must be greater than zero."@]
        } else {
            Seq::empty()
        };
        let ghost e_tbbr: Seq<Seq<char>> = if self.time_between_batsigns_retry == 0 {
            seq!["Time between notification retries must be greater than zero."@]
        } else {
            Seq::empty()
        };

        if self.pin_number > 27 {
            let mut m = str_to_chars("Invalid GPIO pin number: ");
            let mut mid = u64_to_dec_chars(self.pin_number as u64);
            m.append(&mut mid);
            let mut tail = str_to_chars(". Must be between 0 and 27.");
            m.append(&mut tail);
            vec.push(string_from_chars(&m));
        }
        proof {
            assert(vec.deep_view() =~~= e_pin);
        }

        if self.poll_interval == 0 {
            vec.push(string_from_chars(&str_to_chars(
                "Poll interval must be greater than zero.",
            )));
        }
        proof {
            assert(vec.deep_view() =~~= e_pin + e_poll);
        }

        if self.time_between_batsigns == 0 {
            vec.push(string_from_chars(&str_to_chars(
                "Time between notifications must be greater than zero.",
            )));
        }
        proof {
            assert(vec.deep_view() =~~= e_pin + e_poll + e_tbb);
        }

        if self.time_between_batsigns_retry == 0 {
            vec.push(string_from_chars(&str_to_chars(
                "Time between notification retries must be greater than zero.",
            )));
        }
        let ghost base: Seq<Seq<char>> = e_pin + e_poll + e_tbb + e_tbbr;
        proof {
            assert(vec.deep_view() =~~= base);
        }

        if !self.dry_run {
            if self.batsign_urls.len() == 0 {
                vec.push(string_from_chars(&str_to_chars(
                    "At least one Batsign URL is required.",
                )));
                proof {
                    assert(vec.deep_view() =~~= base + seq![
                        "At least one Batsign URL is required."@,
                    ]);
                }
            } else {
                let https = str_to_chars("https://");
                let ghost dv = self.batsign_urls.deep_view();
                let mut i: usize = 0;
                proof {
                    assert(dv.take(0) =~~= Seq::<Seq<char>>::empty());
                    assert(vec.deep_view() =~~= base + url_error_msgs(dv.take(0)));
                }
                while i < self.batsign_urls.len()
                    invariant
                        i <= self.batsign_urls@.len(),
                        dv == self.batsign_urls.deep_view(),
                        dv.len() == self.batsign_urls@.len(),
                        https@ == "https://"@,
                        vec.deep_view() == base + url_error_msgs(dv.take(i as int)),
                    decreases self.batsign_urls@.len() - i,
                {
                    let uc = str_to_chars(self.batsign_urls[i].as_str());
                    let mut t = trim_chars(&uc);
                    proof {
                        assert(dv[i as int] == self.batsign_urls@[i as int]@);
                    }
                    if !has_prefix(&t, &https) {
                        let mut m = str_to_chars("Batsign URL \"");
                        m.append(&mut t);
                        let mut tail = str_to_chars("\" does not seem to be a valid URL.");
                        m.append(&mut tail);
                        let ghost pre = vec.deep_view();
                        vec.push(string_from_chars(&m));
                        proof {
                            assert(m@ == url_error_msg(dv[i as int]));
                            assert(vec.deep_view() =~~= pre.push(m@));
                        }
                    }
                    proof {
                        assert(dv.take(i + 1).drop_last() =~~= dv.take(i as int));
                        assert(dv.take(i + 1).last() == dv[i as int]);
                        assert(url_error_msgs(dv.take(i + 1)) == url_error_msgs(dv.take(i as int))
                            + (if spec_url_ok(dv[i as int]) {
                            Seq::<Seq<char>>::empty()
                        } else {
                            seq![url_error_msg(dv[i as int])]
                        }));
                        assert(vec.deep_view() =~~= base + url_error_msgs(dv.take(i + 1)));
                    }
                    i += 1;
                }
                proof {
                    assert(dv.take(dv.len() as int) =~~= dv);
                }
            }
        }
        proof {
            assert(vec.deep_view() =~~= self.spec_sanity_errors());
            assert(vec.deep_view().len() == vec@.len());
        }

        if vec.is_empty() {
            Ok(())
        } else {
            Err(vec)
        }
    }

    /// Resolves the resource paths below the resource directory: the
    /// configuration file, the URL list and the two message templates, each
    /// the directory joined with its well-known file name.
    pub fn resolve_resource_paths(&mut self)
        ensures
            final(self).config_file_path@ == spec_join_path(
                old(self).resource_dir_path@,
                defaults::CONFIG_FILENAME@,
            ),
            final(self).batsign_urls_path@ == spec_join_path(
                old(self).resource_dir_path@,
                defaults::BATSIGNS_FILENAME@,
            ),
            final(self).alarm_template_path@ == spec_join_path(
                old(self).resource_dir_path@,
                defaults::ALARM_TEMPLATE_FILENAME@,
            ),
            final(self).restored_template_path@ == spec_join_path(
                old(self).resource_dir_path@,
                defaults::RESTORED_TEMPLATE_FILENAME@,
            ),
            final(self).pin_number == old(self).pin_number,
            final(self).poll_interval == old(self).poll_interval,
            final(self).hold == old(self).hold,
            final(self).time_between_batsigns == old(self).time_between_batsigns,
            final(self).time_between_batsigns_retry == old(self).time_between_batsigns_retry,
            final(self).batsign_urls == old(self).batsign_urls,
            final(self).alarm_template_body == old(self).alarm_template_body,
            final(self).restored_template_body == old(self).restored_template_body,
            final(self).resource_dir_path == old(self).resource_dir_path,
            final(self).dry_run == old(self).dry_run,
            final(self).debug == old(self).debug,
    {
        self.config_file_path = join_path(self.resource_dir_path.as_str(), defaults::CONFIG_FILENAME);
        self.batsign_urls_path = join_path(self.resource_dir_path.as_str(), defaults::BATSIGNS_FILENAME);
        self.alarm_template_path = join_path(
            self.resource_dir_path.as_str(),
            defaults::ALARM_TEMPLATE_FILENAME,
        );
        self.restored_template_path = join_path(
            self.resource_dir_path.as_str(),
            defaults::RESTORED_TEMPLATE_FILENAME,
        );
    }
}

/// Applies config file settings on top of the given settings, returning the
/// resulting settings. Each field set in the file overrides the base value;
/// everything else is left as it was.
pub fn apply_file(s: Settings, file: &Option<config::FileConfig>) -> (r: Settings)
    ensures
        file is None ==> r == s,
        file matches Some(f) ==> {
            &&& r.pin_number == overlaid(s.pin_number, f.pin_number)
            &&& r.poll_interval == overlaid(s.poll_interval, f.poll_interval)
            &&& r.hold == overlaid(s.hold, f.hold)
            &&& r.time_between_batsigns == overlaid(s.time_between_batsigns, f.time_between_batsigns)
            &&& r.time_between_batsigns_retry == overlaid(
                s.time_between_batsigns_retry,
                f.time_between_batsigns_retry,
            )
            &&& r.batsign_urls == s.batsign_urls
            &&& r.alarm_template_body == s.alarm_template_body
            &&& r.restored_template_body == s.restored_template_body
            &&& r.resource_dir_path == s.resource_dir_path
            &&& r.batsign_urls_path == s.batsign_urls_path
            &&& r.config_file_path == s.config_file_path
            &&& r.alarm_template_path == s.alarm_template_path
            &&& r.restored_template_path == s.restored_template_path
            &&& r.dry_run == s.dry_run
            &&& r.debug == s.debug
        },
{
    let mut s = s;
    let file = match file {
        Some(f) => f,
        None => {
            return s;
        },
    };

    if let Some(pin_number) = file.pin_number {
        s.pin_number = pin_number;
    }
    if let Some(poll_interval) = file.poll_interval {
        s.poll_interval = poll_interval;
    }
    if let Some(hold) = file.hold {
        s.hold = hold;
    }
    if let Some(time_between_batsigns) = file.time_between_batsigns {
        s.time_between_batsigns = time_between_batsigns;
    }
    if let Some(time_between_batsigns_retry) = file.time_between_batsigns_retry {
        s.time_between_batsigns_retry = time_between_batsigns_retry;
    }
    s
}

/// Applies CLI settings on top of the given settings, returning the
/// resulting settings. Each option given on the command line overrides the
/// base value; the dry-run and debug switches are taken as they are.
pub fn apply_cli(s: Settings, cli: &Cli) -> (r: Settings)
    ensures
        r.pin_number == overlaid(s.pin_number, cli.pin_number),
        r.poll_interval == overlaid(s.poll_interval, cli.poll_interval),
        r.hold == overlaid(s.hold, cli.hold),
        r.time_between_batsigns == overlaid(s.time_between_batsigns, cli.time_between_batsigns),
        r.time_between_batsigns_retry == overlaid(
            s.time_between_batsigns_retry,
            cli.time_between_batsigns_retry,
        ),
        r.dry_run == cli.dry_run,
        r.debug == cli.debug,
        r.batsign_urls == s.batsign_urls,
        r.alarm_template_body == s.alarm_template_body,
        r.restored_template_body == s.restored_template_body,
        r.resource_dir_path == s.resource_dir_path,
        r.batsign_urls_path == s.batsign_urls_path,
        r.config_file_path == s.config_file_path,
        r.alarm_template_path == s.alarm_template_path,
        r.restored_template_path == s.restored_template_path,
{
    let mut s = s;
    if let Some(pin_number) = cli.pin_number {
        s.pin_number = pin_number;
    }
    if let Some(poll_interval) = cli.poll_interval {
        s.poll_interval = poll_interval;
    }
    if let Some(hold) = cli.hold {
        s.hold = hold;
    }
    if let Some(time_between_batsigns) = cli.time_between_batsigns {
        s.time_between_batsigns = time_between_batsigns;
    }
    if let Some(time_between_batsigns_retry) = cli.time_between_batsigns_retry {
        s.time_between_batsigns_retry = time_between_batsigns_retry;
    }
    s.dry_run = cli.dry_run;
    s.debug = cli.debug;
    s
}

} // verus!
