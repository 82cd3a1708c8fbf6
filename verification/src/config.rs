//! Process-wide settings: loaded once at startup, read-only afterwards.

use vstd::prelude::*;
use vstd::string::*;

verus! {

/// The settings of the responder.
#[derive(Debug, Clone)]
pub struct Config {
    pub infobip_api_key: String,
    pub infobip_base_url: String,
    pub whatsapp_phone_number_id: String,
    pub trigger_word: String,
    pub recipient_phone_number: String,
}

/// A setting that has no default.
#[derive(Debug, Clone, Copy, PartialEq, Eq, Structural)]
pub enum Setting {
    ApiKey,
    BaseUrl,
    PhoneNumberId,
    Recipient,
}

/// Why the settings cannot be used: the process refuses to start.
#[derive(Debug, Clone, Copy, PartialEq, Eq, Structural)]
pub enum ConfigError {
    /// A required setting is absent.
    Missing(Setting),
    /// The queue was given no room at all.
    ZeroCapacity,
}

/// The first required setting that is absent, in the order in which they are
/// looked up.
pub open spec fn first_missing(
    api_key: bool,
    base_url: bool,
    phone_number_id: bool,
    recipient: bool,
) -> Option<Setting> {
    if !api_key {
        Some(Setting::ApiKey)
    } else if !base_url {
        Some(Setting::BaseUrl)
    } else if !phone_number_id {
        Some(Setting::PhoneNumberId)
    } else if !recipient {
        Some(Setting::Recipient)
    } else {
        None
    }
}

/// The value of an optional setting, or its default.
pub open spec fn value_or(given: Option<String>, default: Seq<char>) -> Seq<char> {
    match given {
        Some(s) => s@,
        None => default,
    }
}

impl Setting {
    /// The name of the environment variable that holds the setting.
    pub open spec fn spec_variable(self) -> Seq<char> {
        match self {
            Setting::ApiKey => "INFOBIP_API_KEY"@,
            Setting::BaseUrl => "INFOBIP_BASE_URL"@,
            Setting::PhoneNumberId => "WHATSAPP_PHONE_NUMBER_ID"@,
            Setting::Recipient => "RECIPIENT_PHONE_NUMBER"@,
        }
    }

    /// The name of the environment variable that holds the setting.
    pub fn variable(self) -> (name: String)
        ensures
            name@ == self.spec_variable(),
    {
        match self {
            Setting::ApiKey => String::from_str("INFOBIP_API_KEY"),
            Setting::BaseUrl => String::from_str("INFOBIP_BASE_URL"),
            Setting::PhoneNumberId => String::from_str("WHATSAPP_PHONE_NUMBER_ID"),
            Setting::Recipient => String::from_str("RECIPIENT_PHONE_NUMBER"),
        }
    }
}

impl Config {
    /// The trigger phrase that is used where none is set.
    pub open spec fn default_trigger() -> Seq<char> {
        "addcontact"@
    }

    /// Builds the settings from the values found at startup. Every setting
    /// but the trigger phrase is required; the first one that is absent is
    /// reported.
    pub fn from_settings(
        api_key: Option<String>,
        base_url: Option<String>,
        phone_number_id: Option<String>,
        trigger_word: Option<String>,
        recipient: Option<String>,
    ) -> (loaded: Result<Config, ConfigError>)
        ensures
            match first_missing(
                api_key is Some,
                base_url is Some,
                phone_number_id is Some,
                recipient is Some,
            ) {
                Some(setting) => loaded == Err::<Config, ConfigError>(ConfigError::Missing(setting)),
                None => loaded is Ok && loaded->Ok_0.infobip_api_key@ == api_key->0@
                    && loaded->Ok_0.infobip_base_url@ == base_url->0@
                    && loaded->Ok_0.whatsapp_phone_number_id@ == phone_number_id->0@
                    && loaded->Ok_0.recipient_phone_number@ == recipient->0@
                    && loaded->Ok_0.trigger_word@ == value_or(trigger_word, Config::default_trigger()),
            },
    {
        let infobip_api_key = match api_key {
            Some(value) => value,
            None => { return Err(ConfigError::Missing(Setting::ApiKey)); },
        };
        let infobip_base_url = match base_url {
            Some(value) => value,
            None => { return Err(ConfigError::Missing(Setting::BaseUrl)); },
        };
        let whatsapp_phone_number_id = match phone_number_id {
            Some(value) => value,
            None => { return Err(ConfigError::Missing(Setting::PhoneNumberId)); },
        };
        let trigger_word = match trigger_word {
            Some(value) => value,
            None => String::from_str("addcontact"),
        };
        let recipient_phone_number = match recipient {
            Some(value) => value,
            None => { return Err(ConfigError::Missing(Setting::Recipient)); },
        };
        Ok(
            Config {
                infobip_api_key,
                infobip_base_url,
                whatsapp_phone_number_id,
                trigger_word,
                recipient_phone_number,
            },
        )
    }
}

/// What the dispatcher does when the queue is full.
#[derive(Debug, Clone, Copy, PartialEq, Eq, Structural)]
pub enum OverflowPolicy {
    /// The enqueue waits for a free slot, and the HTTP response with it.
    Block,
    /// The enqueue is refused and the caller is told that the server is busy.
    Reject,
}

/// How the queue and the dispatcher are run.
#[derive(Debug, Clone, Copy)]
pub struct DispatchPolicy {
    /// The pause after a cycle, in milliseconds.
    pub delay_millis: u64,
    /// Whether the pause follows every dequeued message, or only those that
    /// led to a send.
    pub sleep_every_cycle: bool,
    /// How many messages the queue holds.
    pub queue_capacity: usize,
    pub overflow: OverflowPolicy,
}

impl DispatchPolicy {
    /// A policy with the given values. A queue must hold at least one
    /// message.
    pub fn new(
        delay_millis: u64,
        sleep_every_cycle: bool,
        queue_capacity: usize,
        overflow: OverflowPolicy,
    ) -> (made: Result<DispatchPolicy, ConfigError>)
        ensures
            queue_capacity == 0 ==> made == Err::<DispatchPolicy, ConfigError>(
                ConfigError::ZeroCapacity,
            ),
            queue_capacity > 0 ==> made is Ok && made->Ok_0.delay_millis == delay_millis
                && made->Ok_0.sleep_every_cycle == sleep_every_cycle && made->Ok_0.queue_capacity
                == queue_capacity && made->Ok_0.overflow == overflow,
    {
        if queue_capacity == 0 {
            Err(ConfigError::ZeroCapacity)
        } else {
            Ok(DispatchPolicy { delay_millis, sleep_every_cycle, queue_capacity, overflow })
        }
    }
}

impl Default for DispatchPolicy {
    /// One second after every cycle, a queue of 100, and back-pressure when
    /// it is full.
    fn default() -> (policy: DispatchPolicy)
        ensures
            policy.delay_millis == 1000,
            policy.sleep_every_cycle,
            policy.queue_capacity == 100,
            policy.overflow == OverflowPolicy::Block,
    {
        DispatchPolicy {
            delay_millis: 1000,
            sleep_every_cycle: true,
            queue_capacity: 100,
            overflow: OverflowPolicy::Block,
        }
    }
}

} // verus!
