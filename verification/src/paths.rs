//! Resolving where the log file lives: the output directory, and a file name
//! that is either configured literally or generated from the current UTC time.

use vstd::prelude::*;

use vstd::string::StringExecFns;

use crate::config::Config;
use crate::config::OutputDirName;
use crate::config::OutputFileName;
use crate::time_format::custom_text;
use crate::time_format::format_with_pattern;
use crate::time_format::now_utc_parts;
use crate::time_format::TimePattern;

verus! {

/// The pattern a generated log file name is rendered from, in UTC.
pub open spec fn spec_log_name_pattern() -> Seq<char> {
    "[year]_[month]_[day]_[hour]_[minute]_[second].log"@
}

/// Whether a text is a generated log file name: the fixed UTC pattern
/// rendered at some instant.
pub open spec fn is_generated_name(s: Seq<char>) -> bool {
    exists|secs: int, nanos: int| s == custom_text(spec_log_name_pattern(), secs, nanos, 0)
}

/// The directory part a log path starts with.
pub open spec fn spec_dir_prefix(d: OutputDirName) -> Seq<char> {
    match d {
        OutputDirName::CurrentDir => "."@,
        OutputDirName::Custom(s) => s@,
    }
}

/// A directory and a file name joined into one path.
pub open spec fn spec_path_join(dir: Seq<char>, name: Seq<char>) -> Seq<char> {
    dir + "/"@ + name
}

/// Whether a path is a resolved log path under `d` whose file name part was
/// generated — or fell back to the fixed name used when generation fails.
pub open spec fn is_generated_path(s: Seq<char>, d: OutputDirName) -> bool {
    exists|name: Seq<char>|
        #![trigger spec_path_join(spec_dir_prefix(d), name)]
        (is_generated_name(name) || name == "default.log"@) && s == spec_path_join(
            spec_dir_prefix(d),
            name,
        )
}

/// Generates a log file name from the current date and time (UTC).
pub fn generate_log_name() -> (r: Result<String, ()>)
    ensures
        r matches Ok(s) ==> is_generated_name(s@),
{
    let pattern = match TimePattern::new("[year]_[month]_[day]_[hour]_[minute]_[second].log") {
        Ok(p) => p,
        Err(_) => {
            return Err(());
        },
    };
    let (secs, nanos) = now_utc_parts();
    let name = match format_with_pattern(&pattern, secs, nanos, 0) {
        Ok(n) => n,
        Err(_) => {
            return Err(());
        },
    };
    proof {
        assert(name@ == custom_text(spec_log_name_pattern(), secs as int, nanos as int, 0));
    }
    Ok(name)
}

/// Joins the configured output directory and a file name into one path.
pub fn make_log_path(dir: &OutputDirName, file_name: &str) -> (r: String)
    ensures
        r@ == spec_path_join(spec_dir_prefix(*dir), file_name@),
{
    let mut out: String = match dir {
        OutputDirName::CurrentDir => String::from_str("."),
        OutputDirName::Custom(d) => d.clone(),
    };
    out.append("/");
    out.append(file_name);
    proof {
        assert(out@ =~= spec_path_join(spec_dir_prefix(*dir), file_name@));
    }
    out
}

/// Resolves the full path of the log file for `config`: the configured
/// directory joined with the configured file name, or with a freshly
/// generated one (falling back to a fixed name if generation fails).
pub fn get_log_pathbuf(config: &Config) -> (r: String)
    ensures
        config.out_file_name matches OutputFileName::Custom(n) ==> r@ == spec_path_join(
            spec_dir_prefix(config.out_dir_name),
            n@,
        ),
        config.out_file_name is AutoGenerate ==> is_generated_path(r@, config.out_dir_name),
{
    let name: String = match &config.out_file_name {
        OutputFileName::AutoGenerate => match generate_log_name() {
            Ok(n) => n,
            Err(_) => String::from_str("default.log"),
        },
        OutputFileName::Custom(n) => n.clone(),
    };
    let r = make_log_path(&config.out_dir_name, name.as_str());
    proof {
        if config.out_file_name is AutoGenerate {
            assert(r@ == spec_path_join(spec_dir_prefix(config.out_dir_name), name@));
        }
    }
    r
}

} // verus!
