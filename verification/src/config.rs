//! The settings of one benchmark run.

use crate::error::BenchmarkError;
use crate::monitor::DEFAULT_ERROR_THRESHOLD;
use vstd::prelude::*;
use vstd::string::StringExecFns;

verus! {

/// The settings of a run. Built once at startup and only read afterwards.
#[derive(Clone, Debug)]
pub struct Config {
    /// Address of the broker.
    pub bootstrap: String,
    /// Topic that producers write to and consumers read from.
    pub topic: String,
    /// Path of the CA certificate; its presence switches TLS on.
    pub ssl_ca: Option<String>,
    /// Path of the client certificate.
    pub ssl_cert: Option<String>,
    /// Path of the client key.
    pub ssl_key: Option<String>,
    /// SASL user name.
    pub sasl_username: Option<String>,
    /// SASL password.
    pub sasl_password: Option<String>,
    /// SASL mechanism.
    pub sasl_mechanism: Option<String>,
    /// Number of producer workers.
    pub producer_num_threads: usize,
    /// Number of consumer workers.
    pub consumer_num_threads: usize,
    /// Size of the padding of each message, in bytes.
    pub msg_size: usize,
    /// Target rate at the start of the run, in messages per second.
    pub throughput: u64,
    /// Whether the target rate is raised on a timer.
    pub auto_increase: bool,
    /// Number of errors above which the run is stopped.
    pub error_threshold: usize,
}

/// Workers of each kind where the settings say nothing.
pub const DEFAULT_NUM_THREADS: usize = 4;

/// Padding bytes per message where the settings say nothing.
pub const DEFAULT_MSG_SIZE: usize = 200;

/// Target rate where the settings say nothing.
pub const DEFAULT_THROUGHPUT: u64 = 10_000;

/// Whether the rate is raised on a timer where the settings say nothing.
pub const DEFAULT_AUTO_INCREASE: bool = true;

/// The settings as text, as the environment gives them; `None` where a
/// setting is absent.
#[derive(Debug)]
pub struct RawSettings {
    pub bootstrap: Option<String>,
    pub topic: Option<String>,
    pub ssl_ca: Option<String>,
    pub ssl_cert: Option<String>,
    pub ssl_key: Option<String>,
    pub sasl_username: Option<String>,
    pub sasl_password: Option<String>,
    pub sasl_mechanism: Option<String>,
    /// Workers of each kind, for the kind that has no setting of its own.
    pub num_threads: Option<String>,
    pub producer_num_threads: Option<String>,
    pub consumer_num_threads: Option<String>,
    pub msg_size: Option<String>,
    pub throughput: Option<String>,
    pub auto_increase: Option<String>,
    pub error_threshold: Option<String>,
}

/// The settings with numbers and flags read; `None` where a setting is
/// absent.
#[derive(Debug)]
pub struct ParsedSettings {
    pub bootstrap: Option<String>,
    pub topic: Option<String>,
    pub ssl_ca: Option<String>,
    pub ssl_cert: Option<String>,
    pub ssl_key: Option<String>,
    pub sasl_username: Option<String>,
    pub sasl_password: Option<String>,
    pub sasl_mechanism: Option<String>,
    pub num_threads: Option<usize>,
    pub producer_num_threads: Option<usize>,
    pub consumer_num_threads: Option<usize>,
    pub msg_size: Option<usize>,
    pub throughput: Option<u64>,
    pub auto_increase: Option<bool>,
    pub error_threshold: Option<usize>,
}

/// What `str::parse::<usize>` makes of a text.
pub uninterp spec fn parsed_usize(text: Seq<char>) -> Option<usize>;

/// What `str::parse::<u64>` makes of a text.
pub uninterp spec fn parsed_u64(text: Seq<char>) -> Option<u64>;

/// What `str::parse::<bool>` makes of a text: `true` and `false` are
/// accepted, written exactly so, and nothing else.
pub open spec fn parsed_bool(text: Seq<char>) -> Option<bool> {
    if text == "true"@ {
        Some(true)
    } else if text == "false"@ {
        Some(false)
    } else {
        None
    }
}

/// `str::parse::<usize>`, with the error dropped.
#[verifier::external_body]
fn parse_usize(text: &str) -> (value: Option<usize>)
    ensures
        value == parsed_usize(text@),
{
    text.parse::<usize>().ok()
}

/// `str::parse::<u64>`, with the error dropped.
#[verifier::external_body]
fn parse_u64(text: &str) -> (value: Option<u64>)
    ensures
        value == parsed_u64(text@),
{
    text.parse::<u64>().ok()
}

/// `str::parse::<bool>`, with the error dropped.
#[verifier::external_body]
fn parse_bool(text: &str) -> (value: Option<bool>)
    ensures
        value == parsed_bool(text@),
{
    text.parse::<bool>().ok()
}

/// The count that a setting gives, if it is present and parses.
pub open spec fn count_of(setting: Option<String>) -> Option<usize> {
    match setting {
        Some(text) => parsed_usize(text@),
        None => None,
    }
}

/// The rate that a setting gives, if it is present and parses.
pub open spec fn rate_of(setting: Option<String>) -> Option<u64> {
    match setting {
        Some(text) => parsed_u64(text@),
        None => None,
    }
}

/// The flag that a setting gives, if it is present and parses.
pub open spec fn flag_of(setting: Option<String>) -> Option<bool> {
    match setting {
        Some(text) => parsed_bool(text@),
        None => None,
    }
}

/// The settings of `raw` with numbers and flags read. Texts are taken as
/// they are.
pub open spec fn parsed_settings(raw: RawSettings) -> ParsedSettings {
    ParsedSettings {
        bootstrap: raw.bootstrap,
        topic: raw.topic,
        ssl_ca: raw.ssl_ca,
        ssl_cert: raw.ssl_cert,
        ssl_key: raw.ssl_key,
        sasl_username: raw.sasl_username,
        sasl_password: raw.sasl_password,
        sasl_mechanism: raw.sasl_mechanism,
        num_threads: count_of(raw.num_threads),
        producer_num_threads: count_of(raw.producer_num_threads),
        consumer_num_threads: count_of(raw.consumer_num_threads),
        msg_size: count_of(raw.msg_size),
        throughput: rate_of(raw.throughput),
        auto_increase: flag_of(raw.auto_increase),
        error_threshold: count_of(raw.error_threshold),
    }
}

/// The name of the first setting of `raw` that is present and does not
/// parse, in the order of the fields; `None` where every number and flag
/// that is present parses.
pub open spec fn first_unparsable(raw: RawSettings) -> Option<Seq<char>> {
    if raw.num_threads is Some && count_of(raw.num_threads) is None {
        Some("num_threads"@)
    } else if raw.producer_num_threads is Some && count_of(raw.producer_num_threads) is None {
        Some("producer_num_threads"@)
    } else if raw.consumer_num_threads is Some && count_of(raw.consumer_num_threads) is None {
        Some("consumer_num_threads"@)
    } else if raw.msg_size is Some && count_of(raw.msg_size) is None {
        Some("msg_size"@)
    } else if raw.throughput is Some && rate_of(raw.throughput) is None {
        Some("throughput"@)
    } else if raw.auto_increase is Some && flag_of(raw.auto_increase) is None {
        Some("auto_increase"@)
    } else if raw.error_threshold is Some && count_of(raw.error_threshold) is None {
        Some("error_threshold"@)
    } else {
        None
    }
}

/// What the error says of a setting that does not parse.
pub open spec fn unparsable_detail(name: Seq<char>) -> Seq<char> {
    "cannot parse setting "@ + name
}

/// Whether `error` is a configuration error that says `detail`.
pub open spec fn is_config_error(error: BenchmarkError, detail: Seq<char>) -> bool {
    error matches BenchmarkError::Config(said) && said@ == detail
}

fn unparsable(name: &str) -> (error: BenchmarkError)
    ensures
        is_config_error(error, unparsable_detail(name@)),
{
    BenchmarkError::Config(String::from_str("cannot parse setting ").concat(name))
}

fn read_count(setting: &Option<String>, name: &str) -> (value: Result<Option<usize>, BenchmarkError>)
    ensures
        value.is_err() <==> *setting is Some && count_of(*setting) is None,
        value.is_ok() ==> value.unwrap() == count_of(*setting),
        value.is_err() ==> is_config_error(value.unwrap_err(), unparsable_detail(name@)),
{
    match setting {
        Some(text) => match parse_usize(text.as_str()) {
            Some(n) => Ok(Some(n)),
            None => Err(unparsable(name)),
        },
        None => Ok(None),
    }
}

fn read_rate(setting: &Option<String>, name: &str) -> (value: Result<Option<u64>, BenchmarkError>)
    ensures
        value.is_err() <==> *setting is Some && rate_of(*setting) is None,
        value.is_ok() ==> value.unwrap() == rate_of(*setting),
        value.is_err() ==> is_config_error(value.unwrap_err(), unparsable_detail(name@)),
{
    match setting {
        Some(text) => match parse_u64(text.as_str()) {
            Some(n) => Ok(Some(n)),
            None => Err(unparsable(name)),
        },
        None => Ok(None),
    }
}

fn read_flag(setting: &Option<String>, name: &str) -> (value: Result<Option<bool>, BenchmarkError>)
    ensures
        value.is_err() <==> *setting is Some && flag_of(*setting) is None,
        value.is_ok() ==> value.unwrap() == flag_of(*setting),
        value.is_err() ==> is_config_error(value.unwrap_err(), unparsable_detail(name@)),
{
    match setting {
        Some(text) => match parse_bool(text.as_str()) {
            Some(flag) => Ok(Some(flag)),
            None => Err(unparsable(name)),
        },
        None => Ok(None),
    }
}

/// Reads the numbers and flags of `raw`. A number or flag that is present
/// and does not parse is a configuration error, which names the first such
/// setting; a setting that is absent is left absent.
pub fn parse_settings(raw: RawSettings) -> (made: Result<ParsedSettings, BenchmarkError>)
    ensures
        made.is_err() <==> first_unparsable(raw) is Some,
        made.is_ok() ==> made.unwrap() == parsed_settings(raw),
        made.is_err() ==> is_config_error(
            made.unwrap_err(),
            unparsable_detail(first_unparsable(raw).unwrap()),
        ),
{
    let num_threads = match read_count(&raw.num_threads, "num_threads") {
        Ok(value) => value,
        Err(error) => {
            return Err(error);
        },
    };
    let producer_num_threads = match read_count(
        &raw.producer_num_threads,
        "producer_num_threads",
    ) {
        Ok(value) => value,
        Err(error) => {
            return Err(error);
        },
    };
    let consumer_num_threads = match read_count(
        &raw.consumer_num_threads,
        "consumer_num_threads",
    ) {
        Ok(value) => value,
        Err(error) => {
            return Err(error);
        },
    };
    let msg_size = match read_count(&raw.msg_size, "msg_size") {
        Ok(value) => value,
        Err(error) => {
            return Err(error);
        },
    };
    let throughput = match read_rate(&raw.throughput, "throughput") {
        Ok(value) => value,
        Err(error) => {
            return Err(error);
        },
    };
    let auto_increase = match read_flag(&raw.auto_increase, "auto_increase") {
        Ok(value) => value,
        Err(error) => {
            return Err(error);
        },
    };
    let error_threshold = match read_count(&raw.error_threshold, "error_threshold") {
        Ok(value) => value,
        Err(error) => {
            return Err(error);
        },
    };
    Ok(
        ParsedSettings {
            bootstrap: raw.bootstrap,
            topic: raw.topic,
            ssl_ca: raw.ssl_ca,
            ssl_cert: raw.ssl_cert,
            ssl_key: raw.ssl_key,
            sasl_username: raw.sasl_username,
            sasl_password: raw.sasl_password,
            sasl_mechanism: raw.sasl_mechanism,
            num_threads,
            producer_num_threads,
            consumer_num_threads,
            msg_size,
            throughput,
            auto_increase,
            error_threshold,
        },
    )
}

/// The number of workers of one kind: the kind's own setting, else the
/// setting for both kinds, else the default.
pub open spec fn threads_of(own: Option<usize>, both: Option<usize>) -> usize {
    match own {
        Some(n) => n,
        None => match both {
            Some(n) => n,
            None => DEFAULT_NUM_THREADS,
        },
    }
}

/// The target rate that the settings ask for.
pub open spec fn throughput_of(parsed: ParsedSettings) -> u64 {
    match parsed.throughput {
        Some(rate) => rate,
        None => DEFAULT_THROUGHPUT,
    }
}

/// What is wrong with the settings, if anything: the broker address and
/// the topic are required, and the target rate must not be zero, since no
/// pause between sends could be computed from it.
pub open spec fn config_problem(parsed: ParsedSettings) -> Option<Seq<char>> {
    if parsed.bootstrap is None {
        Some("the broker address is missing"@)
    } else if parsed.topic is None {
        Some("the topic is missing"@)
    } else if throughput_of(parsed) == 0 {
        Some("throughput must be at least 1 message per second"@)
    } else {
        None
    }
}

/// Whether `cfg` holds what `parsed` says, with the default wherever
/// `parsed` says nothing of a setting that has one.
pub open spec fn is_config_of(cfg: Config, parsed: ParsedSettings) -> bool {
    &&& parsed.bootstrap == Some(cfg.bootstrap)
    &&& parsed.topic == Some(cfg.topic)
    &&& cfg.ssl_ca == parsed.ssl_ca
    &&& cfg.ssl_cert == parsed.ssl_cert
    &&& cfg.ssl_key == parsed.ssl_key
    &&& cfg.sasl_username == parsed.sasl_username
    &&& cfg.sasl_password == parsed.sasl_password
    &&& cfg.sasl_mechanism == parsed.sasl_mechanism
    &&& cfg.producer_num_threads == threads_of(parsed.producer_num_threads, parsed.num_threads)
    &&& cfg.consumer_num_threads == threads_of(parsed.consumer_num_threads, parsed.num_threads)
    &&& cfg.msg_size == match parsed.msg_size {
        Some(size) => size,
        None => DEFAULT_MSG_SIZE,
    }
    &&& cfg.throughput == throughput_of(parsed)
    &&& cfg.throughput >= 1
    &&& cfg.auto_increase == match parsed.auto_increase {
        Some(flag) => flag,
        None => DEFAULT_AUTO_INCREASE,
    }
    &&& cfg.error_threshold == match parsed.error_threshold {
        Some(threshold) => threshold,
        None => DEFAULT_ERROR_THRESHOLD,
    }
}

fn threads_or_default(own: Option<usize>, both: Option<usize>) -> (n: usize)
    ensures
        n == threads_of(own, both),
{
    match own {
        Some(n) => n,
        None => match both {
            Some(n) => n,
            None => DEFAULT_NUM_THREADS,
        },
    }
}

impl Config {
    /// The configuration that `parsed` describes. It is refused, with a
    /// configuration error that says why, when the broker address or the
    /// topic is missing or the target rate is zero. Every other setting
    /// that is not given takes its default.
    pub fn from_parsed(parsed: ParsedSettings) -> (made: Result<Config, BenchmarkError>)
        ensures
            made.is_err() <==> parsed.bootstrap is None || parsed.topic is None || throughput_of(
                parsed,
            ) == 0,
            made.is_err() <==> config_problem(parsed) is Some,
            made.is_ok() ==> is_config_of(made.unwrap(), parsed),
            made.is_err() ==> made.unwrap_err() is Config,
            made.is_err() ==> is_config_error(made.unwrap_err(), config_problem(parsed).unwrap()),
    {
        let bootstrap = match parsed.bootstrap {
            Some(text) => text,
            None => {
                return Err(
                    BenchmarkError::Config(String::from_str("the broker address is missing")),
                );
            },
        };
        let topic = match parsed.topic {
            Some(text) => text,
            None => {
                return Err(BenchmarkError::Config(String::from_str("the topic is missing")));
            },
        };
        let throughput = match parsed.throughput {
            Some(rate) => rate,
            None => DEFAULT_THROUGHPUT,
        };
        if throughput == 0 {
            return Err(
                BenchmarkError::Config(
                    String::from_str("throughput must be at least 1 message per second"),
                ),
            );
        }
        let producer_num_threads = threads_or_default(
            parsed.producer_num_threads,
            parsed.num_threads,
        );
        let consumer_num_threads = threads_or_default(
            parsed.consumer_num_threads,
            parsed.num_threads,
        );
        Ok(
            Config {
                bootstrap,
                topic,
                ssl_ca: parsed.ssl_ca,
                ssl_cert: parsed.ssl_cert,
                ssl_key: parsed.ssl_key,
                sasl_username: parsed.sasl_username,
                sasl_password: parsed.sasl_password,
                sasl_mechanism: parsed.sasl_mechanism,
                producer_num_threads,
                consumer_num_threads,
                msg_size: match parsed.msg_size {
                    Some(size) => size,
                    None => DEFAULT_MSG_SIZE,
                },
                throughput,
                auto_increase: match parsed.auto_increase {
                    Some(flag) => flag,
                    None => DEFAULT_AUTO_INCREASE,
                },
                error_threshold: match parsed.error_threshold {
                    Some(threshold) => threshold,
                    None => DEFAULT_ERROR_THRESHOLD,
                },
            },
        )
    }

    /// What is wrong with the settings of the environment, if anything: a
    /// number or flag that does not parse comes first, then what is wrong
    /// with the settings once read.
    pub open spec fn load_problem(raw: RawSettings) -> Option<Seq<char>> {
        match first_unparsable(raw) {
            Some(name) => Some(unparsable_detail(name)),
            None => config_problem(parsed_settings(raw)),
        }
    }

    /// The configuration that the settings of the environment describe.
    /// Loading fails, with a configuration error that says why, when a
    /// number or flag is present and does not parse, when the broker
    /// address or the topic is missing, or when the target rate is zero.
    pub fn from_settings(raw: RawSettings) -> (made: Result<Config, BenchmarkError>)
        ensures
            made.is_err() <==> Self::load_problem(raw) is Some,
            made.is_ok() ==> is_config_of(made.unwrap(), parsed_settings(raw)),
            made.is_err() ==> made.unwrap_err() is Config,
            made.is_err() ==> is_config_error(made.unwrap_err(), Self::load_problem(raw).unwrap()),
    {
        match parse_settings(raw) {
            Ok(parsed) => Config::from_parsed(parsed),
            Err(error) => Err(error),
        }
    }
}

} // verus!
