//! Layered configuration.
//!
//! A configuration is assembled from ordered layers of flat
//! `key = value` entries — a file layer and an environment layer — where
//! the environment wins for a key present in both. The logging section is
//! then parsed out of the merged entries; the application-specific section
//! is deserialized by the unverified rim and carried in [`AppConfig`]
//! beside it.

use vstd::prelude::*;
use vstd::utf8::encode_utf8;
use crate::logging::Config as LoggingConfig;
use crate::logging::Severity;
use crate::logging::format_of_name;
use crate::logging::severity_of_name;
use crate::logging::parse_format;
use crate::logging::parse_severity;

verus! {

/// The composite configuration: the optional logging section plus the
/// application-specific section, which shares the same namespace.
#[derive(Debug)]
pub struct AppConfig<Config> {
    /// The logging section, if the sources supplied one.
    pub logging: Option<LoggingConfig>,
    /// The application-specific section.
    pub app: Config,
}

/// Why loading the configuration failed. Every kind is fatal to startup.
#[derive(Clone, Debug, PartialEq, Eq)]
pub enum ConfigError {
    /// The configuration file exists but could not be read or parsed.
    File(String),
    /// The environment layer could not be read.
    Env(String),
    /// A field required by the schema is absent from every source.
    MissingField(String),
    /// A field holds an unrecognized value; names the field and the
    /// offending value.
    InvalidValue { field: String, value: String },
}

/// The value the ordered entries associate with `key`: the first entry
/// whose key matches, if any.
pub open spec fn lookup_spec(entries: Seq<(String, String)>, key: Seq<char>) -> Option<Seq<char>>
    decreases entries.len(),
{
    if entries.len() == 0 {
        None
    } else if entries[0].0@ == key {
        Some(entries[0].1@)
    } else {
        lookup_spec(entries.drop_first(), key)
    }
}

/// Look a key up among ordered entries, earliest entry first.
pub fn lookup(entries: &Vec<(String, String)>, key: &String) -> (r: Option<String>)
    ensures
        match r {
            Some(v) => lookup_spec(entries@, key@) == Some(v@),
            None => lookup_spec(entries@, key@) is None,
        },
{
    let n = entries.len();
    let mut i: usize = 0;
    proof {
        assert(entries@.skip(0) =~= entries@);
    }
    while i < n
        invariant
            n == entries@.len(),
            0 <= i <= n,
            lookup_spec(entries@, key@) == lookup_spec(entries@.skip(i as int), key@),
        decreases n - i,
    {
        proof {
            assert(entries@.skip(i as int)[0] == entries@[i as int]);
        }
        if entries[i].0 == *key {
            proof {
                assert(entries@.skip(i as int).len() > 0);
                assert(entries@[i as int].0@ == key@);
            }
            return Some(entries[i].1.clone());
        }
        proof {
            assert(entries@[i as int].0@ != key@);
        }
        proof {
            assert(entries@.skip(i as int).drop_first() =~= entries@.skip(i as int + 1));
        }
        i += 1;
    }
    proof {
        assert(entries@.skip(n as int).len() == 0);
    }
    None
}

/// `lookup_spec` over concatenated layers: the earlier layer wins
/// wherever it knows the key at all.
proof fn lemma_lookup_concat(a: Seq<(String, String)>, b: Seq<(String, String)>, k: Seq<char>)
    ensures
        lookup_spec(a + b, k) == (if lookup_spec(a, k) is Some {
            lookup_spec(a, k)
        } else {
            lookup_spec(b, k)
        }),
    decreases a.len(),
{
    if a.len() == 0 {
        assert(a + b =~= b);
    } else {
        assert((a + b)[0] == a[0]);
        assert((a + b).drop_first() =~= a.drop_first() + b);
        lemma_lookup_concat(a.drop_first(), b, k);
    }
}

/// Merge the two configuration layers into one sequence of entries in
/// which, for every key, a value from the environment layer overrides a
/// value from the file layer, and a key found in neither is found in the
/// merge of neither.
pub fn merge_layers(file: &Vec<(String, String)>, env: &Vec<(String, String)>) -> (r: Vec<
    (String, String),
>)
    ensures
        forall|k: Seq<char>|
            #[trigger] lookup_spec(r@, k) == (if lookup_spec(env@, k) is Some {
                lookup_spec(env@, k)
            } else {
                lookup_spec(file@, k)
            }),
{
    let mut out: Vec<(String, String)> = Vec::new();
    let mut i: usize = 0;
    let n_env = env.len();
    while i < n_env
        invariant
            n_env == env@.len(),
            0 <= i <= n_env,
            out@ =~= env@.subrange(0, i as int),
        decreases n_env - i,
    {
        out.push((env[i].0.clone(), env[i].1.clone()));
        i += 1;
    }
    let mut j: usize = 0;
    let n_file = file.len();
    while j < n_file
        invariant
            n_file == file@.len(),
            0 <= j <= n_file,
            out@ =~= env@ + file@.subrange(0, j as int),
        decreases n_file - j,
    {
        out.push((file[j].0.clone(), file[j].1.clone()));
        j += 1;
    }
    proof {
        assert(out@ =~= env@ + file@);
        assert forall|k: Seq<char>|
            #[trigger] lookup_spec(out@, k) == (if lookup_spec(env@, k) is Some {
                lookup_spec(env@, k)
            } else {
                lookup_spec(file@, k)
            }) by {
            lemma_lookup_concat(env@, file@, k);
        }
    }
    out
}

/// What `logging_from_entries` returns on given merged entries, by the
/// values found under the three logging keys.
pub open spec fn logging_entries_ok(
    entries: Seq<(String, String)>,
    r: Result<Option<LoggingConfig>, ConfigError>,
) -> bool {
    let lv = lookup_spec(entries, "logging.level"@);
    let fm = lookup_spec(entries, "logging.format"@);
    let pa = lookup_spec(entries, "logging.path"@);
    match r {
        Result::Ok(Option::None) => lv is None && fm is None && pa is None,
        Result::Ok(Option::Some(c)) => {
            &&& fm matches Some(f) && format_of_name(encode_utf8(f)) == Some(c.format)
            &&& match lv {
                Option::None => c.level is None,
                Option::Some(s) => c.level is Some && severity_of_name(encode_utf8(s)) == Some(
                    c.level->0,
                ),
            }
            &&& match (pa, c.path) {
                (Option::None, Option::None) => true,
                (Option::Some(p), Option::Some(cp)) => cp@ == p,
                _ => false,
            }
        },
        Result::Err(ConfigError::MissingField(f)) => {
            &&& f@ == "logging.format"@
            &&& fm is None
            &&& !(lv is None && pa is None)
            &&& level_entry_ok(lv)
        },
        Result::Err(ConfigError::InvalidValue { field, value }) => {
            ||| {
                &&& field@ == "logging.level"@
                &&& lv matches Some(v) && v == value@ && severity_of_name(encode_utf8(v)) is None
            }
            ||| {
                &&& field@ == "logging.format"@
                &&& level_entry_ok(lv)
                &&& fm matches Some(v) && v == value@ && format_of_name(encode_utf8(v)) is None
            }
        },
        _ => false,
    }
}

/// The level entry, when present, names a record severity.
pub open spec fn level_entry_ok(lv: Option<Seq<char>>) -> bool {
    match lv {
        Option::None => true,
        Option::Some(s) => severity_of_name(encode_utf8(s)) is Some,
    }
}

/// Parse the logging section out of merged entries.
///
/// Absence of all three logging keys means no section was supplied. A
/// level entry that does not name a record severity, case-insensitively,
/// fails first, with an error naming the field and the offending value,
/// whatever the other keys hold. A supplied section must then name its
/// format, `json` or `text`; an unrecognized format value fails the same
/// way.
pub fn logging_from_entries(entries: &Vec<(String, String)>) -> (r: Result<
    Option<LoggingConfig>,
    ConfigError,
>)
    ensures
        logging_entries_ok(entries@, r),
{
    let level_entry = lookup(entries, &String::from_str("logging.level"));
    let format_entry = lookup(entries, &String::from_str("logging.format"));
    let path_entry = lookup(entries, &String::from_str("logging.path"));
    if level_entry.is_none() && format_entry.is_none() && path_entry.is_none() {
        return Ok(None);
    }
    let level: Option<Severity> = match level_entry {
        None => None,
        Some(s) => {
            match parse_severity(s.as_str()) {
                Some(l) => Some(l),
                None => {
                    return Err(
                        ConfigError::InvalidValue {
                            field: String::from_str("logging.level"),
                            value: s,
                        },
                    );
                },
            }
        },
    };
    let format = match format_entry {
        None => {
            return Err(ConfigError::MissingField(String::from_str("logging.format")));
        },
        Some(f) => {
            match parse_format(f.as_str()) {
                Some(fmt) => fmt,
                None => {
                    return Err(
                        ConfigError::InvalidValue {
                            field: String::from_str("logging.format"),
                            value: f,
                        },
                    );
                },
            }
        },
    };
    Ok(Some(LoggingConfig { level, format, path: path_entry }))
}

} // verus!
