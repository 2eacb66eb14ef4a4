//! Settings of the whole occupier, read from the values given on the
//! command line, and the operating system it runs on.

use vstd::prelude::*;
use crate::memory::MemOccupyConfig;
use crate::storage::FileOccupyConfig;
use vstd::string::StringExecFns;

verus! {

/// The directory that holds the storage occupier's part files.
pub const STORAGE_TEMP_DIR: &'static str = "./storage_bucket_occupier_r_dsd1sakmf";

/// Whether `c` is an ASCII decimal digit.
pub open spec fn is_decimal_digit(c: char) -> bool {
    48 <= c as int <= 57
}

/// The number that a string of decimal digits denotes.
pub open spec fn digits_value(d: Seq<char>) -> nat
    decreases d.len(),
{
    if d.len() == 0 {
        0
    } else {
        digits_value(d.drop_last()) * 10 + (d.last() as int - 48) as nat
    }
}

/// `s` without one leading `+`, where it has one.
pub open spec fn strip_plus(s: Seq<char>) -> Seq<char> {
    if s.len() > 0 && s[0] == '+' {
        s.drop_first()
    } else {
        s
    }
}

/// Whether every character of `d` is a decimal digit.
pub open spec fn all_digits(d: Seq<char>) -> bool {
    forall|i: int| 0 <= i < d.len() ==> is_decimal_digit(#[trigger] d[i])
}

/// The number that `s` denotes as an unsigned integer of at most `max`: an
/// optional `+` followed by one or more decimal digits and nothing else, of
/// value at most `max`; `None` for any other string.
pub open spec fn parse_unsigned(s: Seq<char>, max: nat) -> Option<nat> {
    let d = strip_plus(s);
    if d.len() > 0 && all_digits(d) && digits_value(d) <= max {
        Some(digits_value(d))
    } else {
        None
    }
}

/// Calls `str::parse::<u16>`. The documentation of `u16::from_str_radix`
/// says that the string must be an optional `+` followed by digits only,
/// and that a value above `u16::MAX` is an error; the contract claims that,
/// with the error mapped to `None`.
#[verifier::external_body]
fn parse_u16(s: &str) -> (r: Option<u16>)
    ensures
        r == (match parse_unsigned(s@, u16::MAX as nat) {
            Some(v) => Some(v as u16),
            None => None::<u16>,
        }),
{
    s.parse::<u16>().ok()
}

/// Calls `str::parse::<usize>`; as for `parse_u16`, with `usize::MAX` as
/// the largest value.
#[verifier::external_body]
fn parse_usize(s: &str) -> (r: Option<usize>)
    ensures
        r == (match parse_unsigned(s@, usize::MAX as nat) {
            Some(v) => Some(v as usize),
            None => None::<usize>,
        }),
{
    s.parse::<usize>().ok()
}

/// The `u16` that an optional command-line value gives, or `default` where
/// the value is absent or does not parse.
pub open spec fn u16_or(arg: Option<String>, default: u16) -> u16 {
    match arg {
        Some(s) => match parse_unsigned(s@, u16::MAX as nat) {
            Some(v) => v as u16,
            None => default,
        },
        None => default,
    }
}

/// The `usize` that an optional command-line value gives, or `default`.
pub open spec fn usize_or(arg: Option<String>, default: usize) -> usize {
    match arg {
        Some(s) => match parse_unsigned(s@, usize::MAX as nat) {
            Some(v) => v as usize,
            None => default,
        },
        None => default,
    }
}

/// The rate in percent that an optional command-line value gives: a number
/// from 0 to 100; `default` where the value is absent, does not parse, or
/// lies above 100.
pub open spec fn rate_or(arg: Option<String>, default: u16) -> u16 {
    match arg {
        Some(s) => match parse_unsigned(s@, u16::MAX as nat) {
            Some(v) => if v <= 100 {
                v as u16
            } else {
                default
            },
            None => default,
        },
        None => default,
    }
}

/// A rate value that is a number from 0 to 100 gives that number, whatever
/// the default; one that is a larger number or no number at all, or an
/// absent one, gives the default.
pub proof fn lemma_rate_or_keeps_percentages(s: String, d: u16)
    ensures
        parse_unsigned(s@, 100) matches Some(v) ==> rate_or(Some(s), d) == v,
        parse_unsigned(s@, 100) is None ==> rate_or(Some(s), d) == d,
        rate_or(None, d) == d,
{
}

fn rate_arg_or(arg: &Option<String>, default: u16) -> (v: u16)
    ensures
        v == rate_or(*arg, default),
{
    match arg {
        Some(s) => match parse_u16(s.as_str()) {
            Some(v) => if v <= 100 {
                v
            } else {
                default
            },
            None => default,
        },
        None => default,
    }
}

/// A value that is a number of at most `u16::MAX` gives that number,
/// whatever the default; any other value, or an absent one, gives the
/// default.
pub proof fn lemma_u16_or_keeps_numbers(s: String, d: u16)
    ensures
        parse_unsigned(s@, u16::MAX as nat) matches Some(v) ==> u16_or(Some(s), d) == v,
        parse_unsigned(s@, u16::MAX as nat) is None ==> u16_or(Some(s), d) == d,
        u16_or(None, d) == d,
{
}

/// A value that is a number of at most `usize::MAX` gives that number,
/// whatever the default; any other value, or an absent one, gives the
/// default.
pub proof fn lemma_usize_or_keeps_numbers(s: String, d: usize)
    ensures
        parse_unsigned(s@, usize::MAX as nat) matches Some(v) ==> usize_or(Some(s), d) == v,
        parse_unsigned(s@, usize::MAX as nat) is None ==> usize_or(Some(s), d) == d,
        usize_or(None, d) == d,
{
}

fn u16_arg_or(arg: &Option<String>, default: u16) -> (v: u16)
    ensures
        v == u16_or(*arg, default),
{
    match arg {
        Some(s) => match parse_u16(s.as_str()) {
            Some(v) => v,
            None => default,
        },
        None => default,
    }
}

fn usize_arg_or(arg: &Option<String>, default: usize) -> (v: usize)
    ensures
        v == usize_or(*arg, default),
{
    match arg {
        Some(s) => match parse_usize(s.as_str()) {
            Some(v) => v,
            None => default,
        },
        None => default,
    }
}

/// The values given on the command line, each as written, `None` where the
/// option is absent.
#[derive(Debug, Clone)]
pub struct ArgValues {
    /// `--cpu`: CPU target in percent.
    pub cpu: Option<String>,
    /// `--memory`: memory target in percent.
    pub memory: Option<String>,
    /// `--storage`: storage target in percent.
    pub storage: Option<String>,
    /// `--memory-size`: size of one memory part in MiB.
    pub memory_size: Option<String>,
    /// `--storage-size`: size of one storage part in MiB.
    pub storage_size: Option<String>,
    /// `--granularity`: adjustment granularity.
    pub granularity: Option<String>,
    /// `--status`: show an overview of the system at start.
    pub status: bool,
}

/// The occupier's settings.
#[derive(Debug, Clone)]
pub struct OccupyConfig {
    /// CPU target in percent.
    pub cpu_rate: u16,
    /// The storage occupier.
    pub storage_config: FileOccupyConfig,
    /// The memory occupier.
    pub memory_config: MemOccupyConfig,
    /// Adjustment granularity.
    pub granularity: usize,
    /// Whether to show an overview of the system at start.
    pub display_system: bool,
}

impl OccupyConfig {
    /// Whether every target is zero, so that there is nothing to occupy.
    pub fn nothing_to_occupy(&self) -> (b: bool)
        ensures
            b == (self.cpu_rate == 0 && self.memory_config.rate == 0
                && self.storage_config.rate == 0),
    {
        self.cpu_rate == 0 && self.memory_config.rate == 0 && self.storage_config.rate == 0
    }
}

/// The settings that the command-line values give. A value that is absent
/// or does not parse as a number of its type takes its default: CPU,
/// memory and storage targets 0, memory parts of 10 MiB, storage parts of
/// 50 MiB, granularity 50. A target is a percentage from 0 to 100: a value
/// above 100 is refused and the target takes its default, 0. Both
/// occupiers start holding nothing.
pub fn parse_config(args: &ArgValues) -> (c: OccupyConfig)
    ensures
        c.cpu_rate == rate_or(args.cpu, 0),
        c.memory_config.rate == rate_or(args.memory, 0),
        c.memory_config.part_size_mb == u16_or(args.memory_size, 10),
        c.memory_config.target_part_count == 0,
        c.memory_config.current_part_count == 0,
        c.memory_config.used_parts@.len() == 0,
        c.memory_config.seg_part_data@.len() == 0,
        c.memory_config.buckets@.len() == 0,
        c.storage_config.rate == rate_or(args.storage, 0),
        c.storage_config.part_size_mb == u16_or(args.storage_size, 50),
        c.storage_config.target_part_count == 0,
        c.storage_config.current_part_count == 0,
        c.storage_config.used_parts@.len() == 0,
        c.storage_config.seg_part_data@.len() == 0,
        c.granularity == usize_or(args.granularity, 50),
        c.display_system == args.status,
{
    let cpu_rate = rate_arg_or(&args.cpu, 0);
    let memory_rate = rate_arg_or(&args.memory, 0);
    let memory_part_size = u16_arg_or(&args.memory_size, 10);
    let memory_config = MemOccupyConfig::new(memory_rate, memory_part_size);
    let storage_rate = rate_arg_or(&args.storage, 0);
    let storage_part_size = u16_arg_or(&args.storage_size, 50);
    let storage_config = FileOccupyConfig::new(storage_rate, storage_part_size);
    let granularity = usize_arg_or(&args.granularity, 50);
    OccupyConfig {
        cpu_rate,
        storage_config,
        memory_config,
        granularity,
        display_system: args.status,
    }
}

/// The operating systems the occupier tells apart.
#[derive(Debug, Clone, Copy, PartialEq, Eq, Structural)]
pub enum OsType {
    Linux,
    Windows,
    MacOs,
    Unknown,
}

impl OsType {
    /// The operating system that `os_name`, the target's name as
    /// `std::env::consts::OS` gives it, stands for.
    pub fn current(os_name: &str) -> (o: OsType)
        ensures
            o == (if os_name@ == "linux"@ {
                OsType::Linux
            } else if os_name@ == "windows"@ {
                OsType::Windows
            } else if os_name@ == "macos"@ {
                OsType::MacOs
            } else {
                OsType::Unknown
            }),
    {
        let name = String::from_str(os_name);
        if name == String::from_str("linux") {
            OsType::Linux
        } else if name == String::from_str("windows") {
            OsType::Windows
        } else if name == String::from_str("macos") {
            OsType::MacOs
        } else {
            OsType::Unknown
        }
    }
}

} // verus!
