//! The relay's settings and how they are put together from their sources.
//!
//! Settings come from a required source and an optional one that overrides
//! it, key by key. Reading the sources is left to the caller, who hands over
//! what each of them holds.

use vstd::prelude::*;

verus! {

/// The settings of the relay itself.
#[derive(Clone, Debug)]
pub struct App {
    pub name: String,
    pub port: u16,
}

/// The settings of the broker connection.
#[derive(Clone, Debug)]
pub struct Amqp {
    pub url: String,
    pub concurrent: usize,
    pub prefetch_count: u16,
}

/// The names of the two queues.
#[derive(Clone, Debug)]
pub struct Queues {
    pub input_queue: String,
    pub output_queue: String,
}

/// The settings of the log.
#[derive(Clone, Debug)]
pub struct Logging {
    pub level: String,
    pub format: String,
}

/// All settings.
#[derive(Clone, Debug)]
pub struct AppConfig {
    pub app: App,
    pub amqp: Amqp,
    pub queues: Queues,
    pub logging: Logging,
}

/// A key of the settings.
#[derive(Clone, Copy, Debug, PartialEq, Eq, Structural)]
pub enum Key {
    AppName,
    AppPort,
    AmqpUrl,
    AmqpConcurrent,
    AmqpPrefetchCount,
    QueuesInputQueue,
    QueuesOutputQueue,
    LoggingLevel,
    LoggingFormat,
}

/// Why the settings could not be put together.
#[derive(Clone, Copy, Debug, PartialEq, Eq, Structural)]
pub enum ConfigError {
    /// The required source is absent.
    NotFound,
    /// No source has a value for the key.
    Missing(Key),
    /// The key's number does not fit the setting.
    OutOfRange(Key),
}

/// What one source holds: for each key its value, if the source has one.
#[derive(Clone, Debug)]
pub struct Source {
    pub app_name: Option<String>,
    pub app_port: Option<i64>,
    pub amqp_url: Option<String>,
    pub amqp_concurrent: Option<i64>,
    pub amqp_prefetch_count: Option<i64>,
    pub queues_input_queue: Option<String>,
    pub queues_output_queue: Option<String>,
    pub logging_level: Option<String>,
    pub logging_format: Option<String>,
}

/// A source as a mathematical value.
pub struct Entries {
    pub app_name: Option<Seq<char>>,
    pub app_port: Option<i64>,
    pub amqp_url: Option<Seq<char>>,
    pub amqp_concurrent: Option<i64>,
    pub amqp_prefetch_count: Option<i64>,
    pub queues_input_queue: Option<Seq<char>>,
    pub queues_output_queue: Option<Seq<char>>,
    pub logging_level: Option<Seq<char>>,
    pub logging_format: Option<Seq<char>>,
}

/// All settings as a mathematical value.
pub struct Settings {
    pub app_name: Seq<char>,
    pub app_port: u16,
    pub amqp_url: Seq<char>,
    pub amqp_concurrent: usize,
    pub amqp_prefetch_count: u16,
    pub queues_input_queue: Seq<char>,
    pub queues_output_queue: Seq<char>,
    pub logging_level: Seq<char>,
    pub logging_format: Seq<char>,
}

/// A text that may be absent, as a mathematical value.
pub open spec fn text_of(value: Option<String>) -> Option<Seq<char>> {
    match value {
        Some(text) => Some(text@),
        None => None,
    }
}

/// The value from the overriding source if it has one, else the other.
pub open spec fn prefer<T>(overriding: Option<T>, base: Option<T>) -> Option<T> {
    match overriding {
        Some(value) => Some(value),
        None => base,
    }
}

impl View for Source {
    type V = Entries;

    open spec fn view(&self) -> Entries {
        Entries {
            app_name: text_of(self.app_name),
            app_port: self.app_port,
            amqp_url: text_of(self.amqp_url),
            amqp_concurrent: self.amqp_concurrent,
            amqp_prefetch_count: self.amqp_prefetch_count,
            queues_input_queue: text_of(self.queues_input_queue),
            queues_output_queue: text_of(self.queues_output_queue),
            logging_level: text_of(self.logging_level),
            logging_format: text_of(self.logging_format),
        }
    }
}

impl View for AppConfig {
    type V = Settings;

    open spec fn view(&self) -> Settings {
        Settings {
            app_name: self.app.name@,
            app_port: self.app.port,
            amqp_url: self.amqp.url@,
            amqp_concurrent: self.amqp.concurrent,
            amqp_prefetch_count: self.amqp.prefetch_count,
            queues_input_queue: self.queues.input_queue@,
            queues_output_queue: self.queues.output_queue@,
            logging_level: self.logging.level@,
            logging_format: self.logging.format@,
        }
    }
}

impl Entries {
    /// A source without any value.
    pub open spec fn empty() -> Entries {
        Entries {
            app_name: None,
            app_port: None,
            amqp_url: None,
            amqp_concurrent: None,
            amqp_prefetch_count: None,
            queues_input_queue: None,
            queues_output_queue: None,
            logging_level: None,
            logging_format: None,
        }
    }

    /// This source overridden by `overriding`, key by key.
    pub open spec fn overridden_by(self, overriding: Entries) -> Entries {
        Entries {
            app_name: prefer(overriding.app_name, self.app_name),
            app_port: prefer(overriding.app_port, self.app_port),
            amqp_url: prefer(overriding.amqp_url, self.amqp_url),
            amqp_concurrent: prefer(overriding.amqp_concurrent, self.amqp_concurrent),
            amqp_prefetch_count: prefer(overriding.amqp_prefetch_count, self.amqp_prefetch_count),
            queues_input_queue: prefer(overriding.queues_input_queue, self.queues_input_queue),
            queues_output_queue: prefer(overriding.queues_output_queue, self.queues_output_queue),
            logging_level: prefer(overriding.logging_level, self.logging_level),
            logging_format: prefer(overriding.logging_format, self.logging_format),
        }
    }

    /// The settings that these values make, or the first fault in the order
    /// of the keys: a key without a value, or a number that does not fit.
    pub open spec fn resolve(self) -> Result<Settings, ConfigError> {
        if self.app_name is None {
            Err(ConfigError::Missing(Key::AppName))
        } else if self.app_port is None {
            Err(ConfigError::Missing(Key::AppPort))
        } else if !(0 <= self.app_port->0 <= u16::MAX) {
            Err(ConfigError::OutOfRange(Key::AppPort))
        } else if self.amqp_url is None {
            Err(ConfigError::Missing(Key::AmqpUrl))
        } else if self.amqp_concurrent is None {
            Err(ConfigError::Missing(Key::AmqpConcurrent))
        } else if !(0 <= self.amqp_concurrent->0 <= usize::MAX) {
            Err(ConfigError::OutOfRange(Key::AmqpConcurrent))
        } else if self.amqp_prefetch_count is None {
            Err(ConfigError::Missing(Key::AmqpPrefetchCount))
        } else if !(0 <= self.amqp_prefetch_count->0 <= u16::MAX) {
            Err(ConfigError::OutOfRange(Key::AmqpPrefetchCount))
        } else if self.queues_input_queue is None {
            Err(ConfigError::Missing(Key::QueuesInputQueue))
        } else if self.queues_output_queue is None {
            Err(ConfigError::Missing(Key::QueuesOutputQueue))
        } else if self.logging_level is None {
            Err(ConfigError::Missing(Key::LoggingLevel))
        } else if self.logging_format is None {
            Err(ConfigError::Missing(Key::LoggingFormat))
        } else {
            Ok(
                Settings {
                    app_name: self.app_name->0,
                    app_port: self.app_port->0 as u16,
                    amqp_url: self.amqp_url->0,
                    amqp_concurrent: self.amqp_concurrent->0 as usize,
                    amqp_prefetch_count: self.amqp_prefetch_count->0 as u16,
                    queues_input_queue: self.queues_input_queue->0,
                    queues_output_queue: self.queues_output_queue->0,
                    logging_level: self.logging_level->0,
                    logging_format: self.logging_format->0,
                },
            )
        }
    }
}

/// The settings that the two sources make: none without the required
/// source; else those of the required source overridden by the optional one.
pub open spec fn loaded(base: Option<Entries>, overriding: Option<Entries>) -> Result<
    Settings,
    ConfigError,
> {
    match base {
        None => Err(ConfigError::NotFound),
        Some(entries) => entries.overridden_by(
            match overriding {
                Some(over) => over,
                None => Entries::empty(),
            },
        ).resolve(),
    }
}

/// A source as a mathematical value, if there is one.
pub open spec fn entries_of(source: Option<Source>) -> Option<Entries> {
    match source {
        Some(source) => Some(source@),
        None => None,
    }
}

/// The text from the overriding source if it has one, else the other;
/// without either, the key is missing.
fn required_text(overriding: Option<String>, base: Option<String>, key: Key) -> (chosen: Result<
    String,
    ConfigError,
>)
    ensures
        match prefer(text_of(overriding), text_of(base)) {
            Some(text) => chosen matches Ok(value) && value@ == text,
            None => chosen matches Err(error) && error == ConfigError::Missing(key),
        },
{
    match overriding {
        Some(text) => Ok(text),
        None => match base {
            Some(text) => Ok(text),
            None => Err(ConfigError::Missing(key)),
        },
    }
}

/// The number from the overriding source if it has one, else the other;
/// without either, the key is missing.
fn required_number(overriding: Option<i64>, base: Option<i64>, key: Key) -> (chosen: Result<
    i64,
    ConfigError,
>)
    ensures
        match prefer(overriding, base) {
            Some(number) => chosen matches Ok(value) && value == number,
            None => chosen matches Err(error) && error == ConfigError::Missing(key),
        },
{
    match overriding {
        Some(number) => Ok(number),
        None => match base {
            Some(number) => Ok(number),
            None => Err(ConfigError::Missing(key)),
        },
    }
}

/// `number` as a 16-bit setting, if it fits.
fn fit_u16(number: i64, key: Key) -> (fitted: Result<u16, ConfigError>)
    ensures
        match fitted {
            Ok(value) => 0 <= number <= u16::MAX && value == number,
            Err(error) => !(0 <= number <= u16::MAX) && error == ConfigError::OutOfRange(key),
        },
{
    if number < 0 || number > 65535 {
        Err(ConfigError::OutOfRange(key))
    } else {
        Ok(number as u16)
    }
}

/// `number` as a size, if it fits.
fn fit_usize(number: i64, key: Key) -> (fitted: Result<usize, ConfigError>)
    ensures
        match fitted {
            Ok(value) => 0 <= number <= usize::MAX && value == number,
            Err(error) => !(0 <= number <= usize::MAX) && error == ConfigError::OutOfRange(key),
        },
{
    if number < 0 || number as u64 > usize::MAX as u64 {
        Err(ConfigError::OutOfRange(key))
    } else {
        Ok(number as usize)
    }
}

impl Source {
    /// A source without any value.
    pub fn empty() -> (source: Source)
        ensures
            source@ == Entries::empty(),
    {
        Source {
            app_name: None,
            app_port: None,
            amqp_url: None,
            amqp_concurrent: None,
            amqp_prefetch_count: None,
            queues_input_queue: None,
            queues_output_queue: None,
            logging_level: None,
            logging_format: None,
        }
    }
}

impl AppConfig {
    /// Puts the settings together from what the required source and the
    /// optional source hold. Where both have a value for a key, the optional
    /// source wins. Every key needs a value, and every number must fit its
    /// setting; the first fault in the order of the keys is reported.
    pub fn load(base: Option<Source>, overriding: Option<Source>) -> (config: Result<
        AppConfig,
        ConfigError,
    >)
        ensures
            match loaded(entries_of(base), entries_of(overriding)) {
                Ok(settings) => config matches Ok(c) && c@ == settings,
                Err(fault) => config matches Err(error) && error == fault,
            },
    {
        let base: Source = match base {
            Some(source) => source,
            None => {
                return Err(ConfigError::NotFound);
            },
        };
        let over: Source = match overriding {
            Some(source) => source,
            None => Source::empty(),
        };
        let name: String = required_text(over.app_name, base.app_name, Key::AppName)?;
        let port: i64 = required_number(over.app_port, base.app_port, Key::AppPort)?;
        let port: u16 = fit_u16(port, Key::AppPort)?;
        let url: String = required_text(over.amqp_url, base.amqp_url, Key::AmqpUrl)?;
        let concurrent: i64 = required_number(
            over.amqp_concurrent,
            base.amqp_concurrent,
            Key::AmqpConcurrent,
        )?;
        let concurrent: usize = fit_usize(concurrent, Key::AmqpConcurrent)?;
        let prefetch_count: i64 = required_number(
            over.amqp_prefetch_count,
            base.amqp_prefetch_count,
            Key::AmqpPrefetchCount,
        )?;
        let prefetch_count: u16 = fit_u16(prefetch_count, Key::AmqpPrefetchCount)?;
        let input_queue: String = required_text(
            over.queues_input_queue,
            base.queues_input_queue,
            Key::QueuesInputQueue,
        )?;
        let output_queue: String = required_text(
            over.queues_output_queue,
            base.queues_output_queue,
            Key::QueuesOutputQueue,
        )?;
        let level: String = required_text(over.logging_level, base.logging_level, Key::LoggingLevel)?;
        let format: String = required_text(
            over.logging_format,
            base.logging_format,
            Key::LoggingFormat,
        )?;
        Ok(
            AppConfig {
                app: App { name, port },
                amqp: Amqp { url, concurrent, prefetch_count },
                queues: Queues { input_queue, output_queue },
                logging: Logging { level, format },
            },
        )
    }
}

} // verus!
