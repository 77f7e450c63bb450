//! Configuration-file structure and resource-path resolution. Paths are
//! carried as plain strings with `/` as the separator; the pieces of logic —
//! taking a path's parent, joining a directory and a file name, and sifting
//! the lines of a resource file — are spelled out here, while the platform's
//! idea of the configuration directory comes from one trusted call.

use vstd::prelude::*;

use crate::defaults;
use crate::settings::Settings;
use crate::text::{str_to_chars, string_from_chars, trim_chars, trimmed};

verus! {

/// Configuration file structure, which overrides default settings and is
/// overridden by CLI arguments. Durations are milliseconds.
pub struct FileConfig {
    /// GPIO pin number to monitor.
    pub pin_number: Option<u8>,
    /// Poll interval for checking the GPIO pin.
    pub poll_interval: Option<u64>,
    /// Duration the pin must be HIGH or LOW before qualifying as a valid
    /// change.
    pub hold: Option<u64>,
    /// Minimum time between sending notifications.
    pub time_between_batsigns: Option<u64>,
    /// Time to wait before retrying to send a notification after a failure.
    pub time_between_batsigns_retry: Option<u64>,
}

impl Default for FileConfig {
    /// An empty overlay: no field overrides anything.
    fn default() -> (r: Self)
        ensures
            r.pin_number is None,
            r.poll_interval is None,
            r.hold is None,
            r.time_between_batsigns is None,
            r.time_between_batsigns_retry is None,
    {
        FileConfig {
            pin_number: None,
            poll_interval: None,
            hold: None,
            time_between_batsigns: None,
            time_between_batsigns_retry: None,
        }
    }
}

impl From<&Settings> for FileConfig {
    /// Captures the resolved settings as a configuration-file overlay, for
    /// writing the current configuration to disk.
    fn from(s: &Settings) -> (r: Self) {
        FileConfig {
            pin_number: Some(s.pin_number),
            poll_interval: Some(s.poll_interval),
            hold: Some(s.hold),
            time_between_batsigns: Some(s.time_between_batsigns),
            time_between_batsigns_retry: Some(s.time_between_batsigns_retry),
        }
    }
}

impl vstd::std_specs::convert::FromSpecImpl<&Settings> for FileConfig {
    open spec fn obeys_from_spec() -> bool {
        true
    }

    open spec fn from_spec(s: &Settings) -> FileConfig {
        FileConfig {
            pin_number: Some(s.pin_number),
            poll_interval: Some(s.poll_interval),
            hold: Some(s.hold),
            time_between_batsigns: Some(s.time_between_batsigns),
            time_between_batsigns_retry: Some(s.time_between_batsigns_retry),
        }
    }
}

/// Relies on `confy::get_configuration_file_path`: yields the platform's
/// per-user configuration file path for this program. The result depends on
/// the environment, so nothing is promised of it; `None` when the home
/// directory cannot be determined.
#[verifier::external_body]
fn default_config_file_path() -> Option<String> {
    confy::get_configuration_file_path(
        defaults::PROGRAM_ARG0,
        defaults::CONFIG_FILENAME_SANS_TOML,
    )
        .ok()
        .map(|p| p.to_string_lossy().into_owned())
}

/// Index of the last `/` in `s`, or -1 when there is none.
pub open spec fn last_slash(s: Seq<char>) -> int
    decreases s.len(),
{
    if s.len() == 0 {
        -1
    } else if s.last() == '/' {
        s.len() - 1
    } else {
        last_slash(s.drop_last())
    }
}

/// The last-slash index never points past the end.
pub proof fn lemma_last_slash_bounds(s: Seq<char>)
    ensures
        -1 <= last_slash(s) < s.len(),
    decreases s.len(),
{
    if s.len() > 0 && s.last() != '/' {
        lemma_last_slash_bounds(s.drop_last());
    }
}

/// A path's parent: everything before the last `/`, or empty when the path
/// has no `/` at all.
pub open spec fn spec_parent_dir(s: Seq<char>) -> Seq<char> {
    if last_slash(s) < 0 {
        Seq::empty()
    } else {
        s.take(last_slash(s))
    }
}

/// The parent of a path: everything before the last `/`, or the empty string
/// when the path holds no `/`.
pub fn parent_dir(path: &str) -> (r: String)
    ensures
        r@ == spec_parent_dir(path@),
{
    let s = str_to_chars(path);
    let mut k: usize = s.len();
    proof {
        assert(s@.take(s@.len() as int) =~= s@);
    }
    while k > 0 && s[k - 1] != '/'
        invariant
            k <= s@.len(),
            s@.len() <= usize::MAX,
            last_slash(s@) == last_slash(s@.take(k as int)),
        decreases k,
    {
        proof {
            assert(s@.take(k as int).last() == s@[k - 1]);
            assert(s@.take(k as int).drop_last() =~= s@.take(k - 1));
        }
        k -= 1;
    }
    let mut r: Vec<char> = Vec::new();
    if k == 0 {
        proof {
            assert(s@.take(0) =~= Seq::<char>::empty());
            assert(last_slash(s@) == -1);
        }
        return string_from_chars(&r);
    }
    proof {
        assert(s@.take(k as int).last() == s@[k - 1]);
        assert(last_slash(s@) == k - 1);
        lemma_last_slash_bounds(s@);
    }
    let mut j: usize = 0;
    while j < k - 1
        invariant
            1 <= k <= s@.len(),
            s@.len() <= usize::MAX,
            j <= k - 1,
            r@ == s@.take(j as int),
        decreases k - j,
    {
        proof {
            assert(s@.take(j + 1 as int) =~= s@.take(j as int).push(s@[j as int]));
        }
        let c = s[j];
        r.push(c);
        j += 1;
    }
    proof {
        assert(r@ == s@.take(k - 1));
    }
    string_from_chars(&r)
}

/// A directory joined with a name below it: the two with `/` between them,
/// with no doubled `/` and nothing added before a name under an empty
/// directory.
pub open spec fn spec_join_path(dir: Seq<char>, file: Seq<char>) -> Seq<char> {
    if dir.len() == 0 {
        file
    } else if dir.last() == '/' {
        dir + file
    } else {
        dir + seq!['/'] + file
    }
}

/// Joins a directory and a file name with `/`.
pub fn join_path(dir: &str, file: &str) -> (r: String)
    ensures
        r@ == spec_join_path(dir@, file@),
{
    let mut d = str_to_chars(dir);
    let mut f = str_to_chars(file);
    if d.len() == 0 {
        return string_from_chars(&f);
    }
    if d[d.len() - 1] != '/' {
        proof {
            assert(d@.push('/') =~= d@ + seq!['/']);
        }
        d.push('/');
    }
    d.append(&mut f);
    string_from_chars(&d)
}

/// Resolves the configuration file path: the given file name when one is
/// provided, the platform's default location otherwise.
pub fn resolve_config_file(filename: &Option<String>) -> (r: Option<String>)
    ensures
        filename matches Some(f) ==> (r matches Some(p) && p@ == f@),
{
    match filename {
        Some(f) => Some(f.clone()),
        None => default_config_file_path(),
    }
}

/// Resolves the configuration directory: the parent of the platform's
/// default configuration file path. `None` when that path cannot be
/// determined; the result itself depends on the environment.
pub fn resolve_config_directory() -> Option<String> {
    match default_config_file_path() {
        Some(p) => Some(parent_dir(p.as_str())),
        None => None,
    }
}

/// Resolves the path of a resource file expected to sit beside the
/// configuration file. `None` when the configuration directory cannot be
/// determined; the result depends on the environment through that
/// directory.
pub fn resolve_resource_file(filename: &str) -> Option<String> {
    match resolve_config_directory() {
        Some(d) => Some(join_path(d.as_str(), filename)),
        None => None,
    }
}

/// Number of characters before the first newline, the whole length when
/// there is none.
pub open spec fn line_len(s: Seq<char>) -> nat
    decreases s.len(),
{
    if s.len() == 0 {
        0
    } else if s[0] == '\n' {
        0
    } else {
        1 + line_len(s.skip(1))
    }
}

/// The first-line length is the index of the first newline: no newline
/// before it, and one right after it unless the text ends there.
pub proof fn lemma_line_len_is(s: Seq<char>, n: int)
    requires
        0 <= n <= s.len(),
        forall|k: int| 0 <= k < n ==> s[k] != '\n',
        n < s.len() ==> s[n] == '\n',
    ensures
        line_len(s) == n,
    decreases n,
{
    if n > 0 {
        assert(s[0] != '\n');
        lemma_line_len_is(s.skip(1), n - 1);
    }
}

/// The lines a resource file contributes: each line trimmed of whitespace,
/// with empty lines and `#` comment lines dropped, in file order.
pub open spec fn spec_resource_lines(s: Seq<char>) -> Seq<Seq<char>>
    decreases s.len(),
{
    let n = line_len(s);
    let t = trimmed(s.take(n as int));
    let head = if t.len() > 0 && t[0] != '#' {
        seq![t]
    } else {
        Seq::<Seq<char>>::empty()
    };
    if n >= s.len() {
        head
    } else {
        head + spec_resource_lines(s.skip(n as int + 1))
    }
}

/// Splits a resource file's text into its meaningful lines: each line
/// trimmed, with empty lines and `#` comment lines dropped.
pub fn split_resource_lines(text: &str) -> (r: Vec<String>)
    ensures
        r.deep_view() == spec_resource_lines(text@),
{
    let s = str_to_chars(text);
    let slen: usize = s.len();
    let mut out: Vec<String> = Vec::new();
    let mut i: usize = 0;
    proof {
        assert(s@.skip(0) =~= s@);
        assert(Seq::<Seq<char>>::empty() + spec_resource_lines(s@) =~~= spec_resource_lines(s@));
    }
    let mut done: bool = false;
    while !done
        invariant
            slen == s@.len(),
            s@ == text@,
            !done ==> i <= slen && spec_resource_lines(text@) == out.deep_view()
                + spec_resource_lines(s@.skip(i as int)),
            done ==> out.deep_view() == spec_resource_lines(text@),
        decreases (if done {
            0int
        } else {
            slen - i + 1
        }),
    {
        let ghost rem = s@.skip(i as int);
        let mut j: usize = i;
        while j < slen && s[j] != '\n'
            invariant
                i <= j <= slen,
                slen == s@.len(),
                forall|k: int| i <= k < j ==> s@[k] != '\n',
            decreases slen - j,
        {
            j += 1;
        }
        proof {
            assert forall|k: int| 0 <= k < j - i implies rem[k] != '\n' by {
                assert(rem[k] == s@[i + k]);
            }
            if j < slen {
                assert(rem[j - i] == s@[j as int]);
            }
            lemma_line_len_is(rem, j - i);
        }
        let mut line: Vec<char> = Vec::new();
        let mut k: usize = i;
        while k < j
            invariant
                i <= k <= j <= slen,
                slen == s@.len(),
                line@ == s@.subrange(i as int, k as int),
            decreases j - k,
        {
            proof {
                assert(s@.subrange(i as int, k + 1 as int) =~= s@.subrange(
                    i as int,
                    k as int,
                ).push(s@[k as int]));
            }
            let c = s[k];
            line.push(c);
            k += 1;
        }
        proof {
            assert(line@ =~= rem.take(j - i));
        }
        let t = trim_chars(&line);
        let ghost head: Seq<Seq<char>> = if t@.len() > 0 && t@[0] != '#' {
            seq![t@]
        } else {
            Seq::<Seq<char>>::empty()
        };
        let ghost pre = out.deep_view();
        if t.len() > 0 && t[0] != '#' {
            out.push(string_from_chars(&t));
            proof {
                assert(out.deep_view() =~~= pre.push(t@));
                assert(out.deep_view() =~~= pre + head);
            }
        } else {
            proof {
                assert(out.deep_view() =~~= pre + head);
            }
        }
        proof {
            assert(trimmed(rem.take(line_len(rem) as int)) == t@);
            if j < slen {
                assert(rem.skip(j - i + 1) =~= s@.skip(j + 1));
                assert(spec_resource_lines(rem) == head + spec_resource_lines(s@.skip(j + 1)));
                assert(pre + (head + spec_resource_lines(s@.skip(j + 1))) =~~= (pre + head)
                    + spec_resource_lines(s@.skip(j + 1)));
            } else {
                assert(line_len(rem) >= rem.len());
                assert(spec_resource_lines(rem) == head);
                assert(pre + head =~~= pre + spec_resource_lines(rem));
            }
        }
        if j < slen {
            i = j + 1;
        } else {
            done = true;
        }
    }
    out
}

} // verus!
