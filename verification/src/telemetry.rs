//! The telemetry facade: what to send, and to which collector.
//!
//! A facade is made once, from a resolved configuration and the credentials of
//! the collectors. It sends nothing itself. Asked to track an event or an
//! error, it answers with a [`Dispatch`]: the message to deliver and the
//! collectors to deliver it to. The embedding program delivers the message to
//! each of them, whatever becomes of the others, and hands the outcomes to
//! [`Telemetry::conclude`], which reports the first failure.
//!
//! Every payload that leaves the facade carries four default fields: the name
//! and version of the application, the platform, and the version of this
//! library. They are set last, so that a property of the caller under one of
//! their keys gives way.

use crate::config::{resolves, Resolution, Signals, TelemetryConfig};
use crate::error::{Collector, TelemetryError, TelemetryResult};
use crate::json::{
    entries_of, json_of, json_seq, object_entries, object_insert, object_new, value_of_node, Json,
    JsonNode, JsonObject,
};
use crate::properties::TelemetryProps;
use vstd::prelude::*;

verus! {

/// What it takes to set up the analytics collector.
#[derive(Debug)]
pub struct AnalyticsSetup {
    /// The key of the project that events go to.
    pub api_key: String,
    /// The identifier that events are attributed to where none is given.
    pub distinct_id: String,
    /// Whether the collector is to report panics. It is, unless a
    /// crash-reporting collector is there to do so.
    pub panic_capture_enabled: bool,
}

/// What it takes to set up the crash-reporting collector.
#[derive(Debug)]
pub struct CrashReportingSetup {
    /// Where reports go to.
    pub dsn: String,
    /// The release that reports are filed under: the version of this library.
    pub release: String,
    /// The tags that every report carries: the default fields.
    pub tags: Vec<(String, String)>,
}

/// An error as telemetry reports it: what it says, and what its causes say,
/// the nearest cause first.
#[derive(Debug)]
pub struct ErrorDescription {
    pub message: String,
    pub source_chain: Vec<String>,
}

/// An event on its way to a collector.
#[derive(Debug)]
pub struct EventMessage {
    /// The name of the event.
    pub name: String,
    /// The identifier that the event is attributed to.
    pub distinct_id: String,
    /// The properties of the event, default fields included.
    pub payload: JsonObject,
}

/// What a collector is handed.
#[derive(Debug)]
pub enum Message {
    /// An event, for the collector's `send_event`.
    Event(EventMessage),
    /// An error report, for the crash-reporting collector's `send_error`.
    Error(ErrorDescription),
}

/// A message, and the collectors that it is to be delivered to, each
/// independently of the others.
#[derive(Debug)]
pub struct Dispatch {
    pub collectors: Vec<Collector>,
    pub message: Message,
}

/// How the delivery to one collector went.
#[derive(Debug)]
pub struct Outcome {
    pub collector: Collector,
    /// What the collector said, where it failed.
    pub failure: Option<String>,
}

/// The model of an [`AnalyticsSetup`].
pub struct AnalyticsPlan {
    pub api_key: Seq<char>,
    pub distinct_id: Seq<char>,
    pub panic_capture_enabled: bool,
}

/// The model of a [`CrashReportingSetup`].
pub struct CrashReportingPlan {
    pub dsn: Seq<char>,
    pub release: Seq<char>,
    pub tags: Seq<(Seq<char>, Seq<char>)>,
}

/// The model of a [`Message`].
pub enum MessagePlan {
    Event { name: Seq<char>, distinct_id: Seq<char>, payload: Map<Seq<char>, Json> },
    Error { message: Seq<char>, source_chain: Seq<Seq<char>> },
}

/// The model of a [`Dispatch`].
pub struct DispatchPlan {
    pub collectors: Seq<Collector>,
    pub message: MessagePlan,
}

/// The model of a [`Telemetry`] facade.
pub struct TelemetryPlan {
    pub enabled: bool,
    pub instance_id: Seq<char>,
    pub app_name: Seq<char>,
    pub app_version: Seq<char>,
    pub platform: Seq<char>,
    pub analytics: Option<AnalyticsPlan>,
    pub crash_reporting: Option<CrashReportingPlan>,
}

impl View for AnalyticsSetup {
    type V = AnalyticsPlan;

    open spec fn view(&self) -> AnalyticsPlan {
        AnalyticsPlan {
            api_key: self.api_key@,
            distinct_id: self.distinct_id@,
            panic_capture_enabled: self.panic_capture_enabled,
        }
    }
}

impl View for CrashReportingSetup {
    type V = CrashReportingPlan;

    open spec fn view(&self) -> CrashReportingPlan {
        CrashReportingPlan {
            dsn: self.dsn@,
            release: self.release@,
            tags: self.tags.deep_view(),
        }
    }
}

impl View for Message {
    type V = MessagePlan;

    open spec fn view(&self) -> MessagePlan {
        match self {
            Message::Event(event) => MessagePlan::Event {
                name: event.name@,
                distinct_id: event.distinct_id@,
                payload: entries_of(event.payload),
            },
            Message::Error(error) => MessagePlan::Error {
                message: error.message@,
                source_chain: error.source_chain.deep_view(),
            },
        }
    }
}

impl View for Dispatch {
    type V = DispatchPlan;

    open spec fn view(&self) -> DispatchPlan {
        DispatchPlan { collectors: self.collectors@, message: self.message@ }
    }
}

/// The model of an optional [`Dispatch`].
pub open spec fn dispatch_plan(dispatch: Option<Dispatch>) -> Option<DispatchPlan> {
    match dispatch {
        Some(dispatch) => Some(dispatch@),
        None => None,
    }
}

/// The version of this library, as payloads carry it.
pub open spec fn library_version() -> Seq<char> {
    "0.1.0"@
}

/// The name under which the analytics collector files an error.
pub open spec fn exception_event_name() -> Seq<char> {
    "$exception"@
}

/// The default fields: the four pairs of key and value that every payload
/// carries.
pub open spec fn default_fields(app_name: Seq<char>, app_version: Seq<char>, platform: Seq<char>)
    -> Seq<(Seq<char>, Seq<char>)> {
    seq![
        ("app"@, app_name),
        ("app_version"@, app_version),
        ("platform"@, platform),
        ("zksync_telemetry_version"@, library_version()),
    ]
}

/// The entries after each of `fields` has been set, in turn, as a string under
/// its key. A field set later wins over one set earlier, and over an entry
/// that was there before.
pub open spec fn with_fields(entries: Map<Seq<char>, Json>, fields: Seq<(Seq<char>, Seq<char>)>)
    -> Map<Seq<char>, Json>
    decreases fields.len(),
{
    if fields.len() == 0 {
        entries
    } else {
        with_fields(entries, fields.drop_last()).insert(
            fields.last().0,
            Json::String(fields.last().1),
        )
    }
}

/// The properties that describe an error on the analytics channel.
pub open spec fn exception_entries(message: Seq<char>, source_chain: Seq<Seq<char>>) -> Map<
    Seq<char>,
    Json,
> {
    map![
        "$exception_message"@ => Json::String(message),
        "$exception_sources"@ => Json::Array(source_chain.map_values(|source: Seq<char>| Json::String(source))),
    ]
}

impl TelemetryPlan {
    /// The default fields of this facade.
    pub open spec fn defaults(self) -> Seq<(Seq<char>, Seq<char>)> {
        default_fields(self.app_name, self.app_version, self.platform)
    }

    /// The collectors that an event goes to: every collector that is set up,
    /// the analytics collector first.
    pub open spec fn event_targets(self) -> Seq<Collector> {
        (if self.analytics is Some {
            seq![Collector::Analytics]
        } else {
            seq![]
        }) + (if self.crash_reporting is Some {
            seq![Collector::CrashReporting]
        } else {
            seq![]
        })
    }

    /// What tracking an event comes to. Nothing, where telemetry is disabled
    /// or no collector is set up. Else the event goes to every collector, with
    /// the caller's properties (those of an object; none for any other tree)
    /// under the default fields.
    pub open spec fn planned_event(self, name: Seq<char>, properties: Json) -> Option<DispatchPlan> {
        if !self.enabled || self.event_targets().len() == 0 {
            None
        } else {
            Some(
                DispatchPlan {
                    collectors: self.event_targets(),
                    message: MessagePlan::Event {
                        name,
                        distinct_id: self.instance_id,
                        payload: with_fields(object_entries(properties), self.defaults()),
                    },
                },
            )
        }
    }

    /// What tracking an error comes to. Nothing, where telemetry is disabled or
    /// no collector is set up. Where the crash-reporting collector is set up,
    /// the error goes to it and to it alone. Else it goes to the analytics
    /// collector, as an event that carries the default fields.
    pub open spec fn planned_error(self, message: Seq<char>, source_chain: Seq<Seq<char>>)
        -> Option<DispatchPlan> {
        if !self.enabled {
            None
        } else if self.crash_reporting is Some {
            Some(
                DispatchPlan {
                    collectors: seq![Collector::CrashReporting],
                    message: MessagePlan::Error { message, source_chain },
                },
            )
        } else if self.analytics is Some {
            Some(
                DispatchPlan {
                    collectors: seq![Collector::Analytics],
                    message: MessagePlan::Event {
                        name: exception_event_name(),
                        distinct_id: self.instance_id,
                        payload: with_fields(
                            exception_entries(message, source_chain),
                            self.defaults(),
                        ),
                    },
                },
            )
        } else {
            None
        }
    }
}

/// The collectors to set up for a configuration and the credentials at hand:
/// none where telemetry is disabled; else one for each credential given.
pub open spec fn planned_setup(
    config: TelemetryConfig,
    platform: Seq<char>,
    posthog_key: Option<Seq<char>>,
    sentry_dsn: Option<Seq<char>>,
) -> TelemetryPlan {
    TelemetryPlan {
        enabled: config.enabled,
        instance_id: config.instance_id@,
        app_name: config.app_name@,
        app_version: config.app_version@,
        platform,
        analytics: if config.enabled && posthog_key is Some {
            Some(
                AnalyticsPlan {
                    api_key: posthog_key->0,
                    distinct_id: config.instance_id@,
                    panic_capture_enabled: sentry_dsn is None,
                },
            )
        } else {
            None
        },
        crash_reporting: if config.enabled && sentry_dsn is Some {
            Some(
                CrashReportingPlan {
                    dsn: sentry_dsn->0,
                    release: library_version(),
                    tags: default_fields(config.app_name@, config.app_version@, platform),
                },
            )
        } else {
            None
        },
    }
}

/// The first failure among the outcomes of a dispatch, if any: the collector
/// that failed, and what it said.
pub open spec fn first_failure(outcomes: Seq<Outcome>) -> Option<(Collector, Seq<char>)>
    decreases outcomes.len(),
{
    if outcomes.len() == 0 {
        None
    } else {
        match outcomes.first().failure {
            Some(reason) => Some((outcomes.first().collector, reason@)),
            None => first_failure(outcomes.drop_first()),
        }
    }
}

/// The version of this library.
pub fn version() -> (text: &'static str)
    ensures
        text@ == library_version(),
{
    "0.1.0"
}

/// The telemetry facade.
#[derive(Debug)]
pub struct Telemetry {
    config: TelemetryConfig,
    platform: String,
    analytics: Option<AnalyticsSetup>,
    crash_reporting: Option<CrashReportingSetup>,
}

impl View for Telemetry {
    type V = TelemetryPlan;

    closed spec fn view(&self) -> TelemetryPlan {
        TelemetryPlan {
            enabled: self.config.enabled,
            instance_id: self.config.instance_id@,
            app_name: self.config.app_name@,
            app_version: self.config.app_version@,
            platform: self.platform@,
            analytics: match self.analytics {
                Some(setup) => Some(setup@),
                None => None,
            },
            crash_reporting: match self.crash_reporting {
                Some(setup) => Some(setup@),
                None => None,
            },
        }
    }
}

/// Sets each of `fields`, in turn, as a string under its key.
fn set_fields(object: &mut JsonObject, fields: &Vec<(String, String)>)
    ensures
        entries_of(*final(object)) == with_fields(entries_of(*old(object)), fields.deep_view()),
{
    let ghost all = fields.deep_view();
    let mut at: usize = 0;
    while at < fields.len()
        invariant
            at <= fields.len(),
            all == fields.deep_view(),
            all.len() == fields.len(),
            entries_of(*object) == with_fields(entries_of(*old(object)), all.take(at as int)),
        decreases fields.len() - at,
    {
        let key = fields[at].0.clone();
        let text = fields[at].1.clone();
        proof {
            let next = all.take(at + 1);
            assert(next.drop_last() =~= all.take(at as int));
            assert(next.last() == (key@, text@));
        }
        object_insert(object, key, value_of_node(JsonNode::String(text)));
        at = at + 1;
    }
    assert(all.take(at as int) =~= all);
}

impl Telemetry {
    /// Whether telemetry has no collector set up while it is disabled, which
    /// holds of every facade.
    #[verifier::type_invariant]
    closed spec fn collectors_need_consent(self) -> bool {
        !self.config.enabled ==> self.analytics is None && self.crash_reporting is None
    }

    /// Makes the facade for a resolved configuration.
    ///
    /// Where telemetry is disabled no collector is set up, whatever the
    /// credentials. Where it is enabled, each credential given sets up its
    /// collector.
    pub fn new(
        config: TelemetryConfig,
        platform: &str,
        posthog_key: Option<String>,
        sentry_dsn: Option<String>,
    ) -> (telemetry: Self)
        ensures
            telemetry@ == planned_setup(
                config,
                platform@,
                posthog_key.deep_view(),
                sentry_dsn.deep_view(),
            ),
            !config.enabled ==> telemetry@.analytics is None && telemetry@.crash_reporting is None,
    {
        let analytics = match posthog_key {
            Some(api_key) if config.enabled => Some(
                AnalyticsSetup {
                    api_key,
                    distinct_id: config.instance_id.clone(),
                    panic_capture_enabled: sentry_dsn.is_none(),
                },
            ),
            _ => None,
        };
        let crash_reporting = match sentry_dsn {
            Some(dsn) if config.enabled => Some(
                CrashReportingSetup {
                    dsn,
                    release: version().to_string(),
                    tags: default_field_list(
                        config.app_name.as_str(),
                        config.app_version.as_str(),
                        platform,
                    ),
                },
            ),
            _ => None,
        };
        Telemetry { config, platform: platform.to_string(), analytics, crash_reporting }
    }

    /// Answers a request to track an event.
    ///
    /// Where telemetry is disabled, or no collector is set up, there is
    /// nothing to do and the answer is `None`. Else the event is to go to every
    /// collector that is set up. Its payload holds the caller's properties,
    /// where they are an object (any other tree counts as no properties), and
    /// the default fields on top of them.
    pub fn track_event(&self, event_name: &str, properties: TelemetryProps) -> (dispatch: Option<
        Dispatch,
    >)
        ensures
            dispatch_plan(dispatch) == self@.planned_event(event_name@, properties@),
            !self@.enabled ==> dispatch is None,
    {
        if !self.config.enabled {
            return None;
        }
        let collectors = self.event_targets();
        if collectors.len() == 0 {
            return None;
        }
        let mut payload = match properties.to_map() {
            Some(object) => object,
            None => object_new(),
        };
        self.add_default_props(&mut payload);
        Some(
            Dispatch {
                collectors,
                message: Message::Event(
                    EventMessage {
                        name: event_name.to_string(),
                        distinct_id: self.config.instance_id.clone(),
                        payload,
                    },
                ),
            },
        )
    }

    /// Answers a request to track an error.
    ///
    /// Where telemetry is disabled, or no collector is set up, there is
    /// nothing to do and the answer is `None`. Where the crash-reporting
    /// collector is set up, the error is to go to it and to no other. Else it
    /// is to go to the analytics collector, as an event that carries what the
    /// error says and the default fields.
    pub fn track_error(&self, error: ErrorDescription) -> (dispatch: Option<Dispatch>)
        ensures
            dispatch_plan(dispatch) == self@.planned_error(
                error.message@,
                error.source_chain.deep_view(),
            ),
            !self@.enabled ==> dispatch is None,
    {
        if !self.config.enabled {
            return None;
        }
        if self.crash_reporting.is_some() {
            let mut collectors: Vec<Collector> = Vec::new();
            collectors.push(Collector::CrashReporting);
            assert(collectors@ =~= seq![Collector::CrashReporting]);
            return Some(Dispatch { collectors, message: Message::Error(error) });
        }
        if self.analytics.is_none() {
            return None;
        }
        let ghost chain = error.source_chain.deep_view();
        let mut sources: Vec<serde_json::Value> = Vec::new();
        for source in iter: error.source_chain
            invariant
                iter.seq() == error.source_chain@,
                chain == error.source_chain.deep_view(),
                sources@.len() == iter.index(),
                forall|i: int|
                    0 <= i < sources@.len() ==> json_of(#[trigger] sources@[i])
                        == Json::String(chain[i]),
        {
            sources.push(value_of_node(JsonNode::String(source)));
        }
        assert(json_seq(sources@) =~= chain.map_values(|source: Seq<char>| Json::String(source)));
        let mut payload = object_new();
        object_insert(
            &mut payload,
            "$exception_message".to_string(),
            value_of_node(JsonNode::String(error.message)),
        );
        object_insert(
            &mut payload,
            "$exception_sources".to_string(),
            value_of_node(JsonNode::Array(sources)),
        );
        assert(entries_of(payload) =~= exception_entries(error.message@, chain));
        self.add_default_props(&mut payload);
        let mut collectors: Vec<Collector> = Vec::new();
        collectors.push(Collector::Analytics);
        assert(collectors@ =~= seq![Collector::Analytics]);
        Some(
            Dispatch {
                collectors,
                message: Message::Event(
                    EventMessage {
                        name: "$exception".to_string(),
                        distinct_id: self.config.instance_id.clone(),
                        payload,
                    },
                ),
            },
        )
    }

    /// Sums up the outcomes of a dispatch: the first failure among them, as a
    /// [`TelemetryError::SendError`] that names the collector, or success where
    /// every delivery went through.
    pub fn conclude(outcomes: Vec<Outcome>) -> (result: TelemetryResult<()>)
        ensures
            match first_failure(outcomes@) {
                Some((collector, reason)) => result matches Err(
                    TelemetryError::SendError(failed, said),
                ) && failed == collector && said@ == reason,
                None => result is Ok,
            },
    {
        assert(outcomes@.skip(0) =~= outcomes@);
        for outcome in iter: outcomes
            invariant
                iter.seq() == outcomes@,
                first_failure(outcomes@) == first_failure(outcomes@.skip(iter.index())),
        {
            assert(outcomes@.skip(iter.index()).first() == outcome);
            assert(outcomes@.skip(iter.index()).drop_first() =~= outcomes@.skip(iter.index() + 1));
            if let Some(reason) = outcome.failure {
                return Err(TelemetryError::SendError(outcome.collector, reason));
            }
        }
        Ok(())
    }

    /// Sets the default fields in a payload, over whatever the payload holds
    /// under their keys. Events and errors both get them here.
    fn add_default_props(&self, payload: &mut JsonObject)
        ensures
            entries_of(*final(payload)) == with_fields(entries_of(*old(payload)), self@.defaults()),
    {
        set_fields(payload, &self.default_props());
    }

    /// The default fields of this facade, as strings: the one list that every
    /// payload and every crash report draws them from.
    pub fn default_props(&self) -> (fields: Vec<(String, String)>)
        ensures
            fields.deep_view() == self@.defaults(),
    {
        default_field_list(
            self.config.app_name.as_str(),
            self.config.app_version.as_str(),
            self.platform.as_str(),
        )
    }

    /// The collectors that an event goes to.
    fn event_targets(&self) -> (collectors: Vec<Collector>)
        ensures
            collectors@ == self@.event_targets(),
    {
        let mut collectors: Vec<Collector> = Vec::new();
        if self.analytics.is_some() {
            collectors.push(Collector::Analytics);
        }
        if self.crash_reporting.is_some() {
            collectors.push(Collector::CrashReporting);
        }
        assert(collectors@ =~= self@.event_targets());
        collectors
    }

    /// Whether anything may be sent.
    pub fn is_enabled(&self) -> (enabled: bool)
        ensures
            enabled == self@.enabled,
    {
        self.config.enabled
    }

    /// The configuration that the facade was made for.
    pub fn config(&self) -> (config: &TelemetryConfig)
        ensures
            config.enabled == self@.enabled,
            config.instance_id@ == self@.instance_id,
            config.app_name@ == self@.app_name,
            config.app_version@ == self@.app_version,
    {
        &self.config
    }

    /// The platform that the facade reports.
    pub fn platform(&self) -> (platform: &str)
        ensures
            platform@ == self@.platform,
    {
        self.platform.as_str()
    }

    /// What it takes to set up the analytics collector, where there is to be
    /// one. There is none while telemetry is disabled.
    pub fn analytics(&self) -> (setup: Option<&AnalyticsSetup>)
        ensures
            setup.is_some() == self@.analytics.is_some(),
            setup matches Some(found) ==> found@ == self@.analytics->0,
            !self@.enabled ==> setup is None,
    {
        proof {
            use_type_invariant(self);
        }
        self.analytics.as_ref()
    }

    /// What it takes to set up the crash-reporting collector, where there is
    /// to be one. There is none while telemetry is disabled.
    pub fn crash_reporting(&self) -> (setup: Option<&CrashReportingSetup>)
        ensures
            setup.is_some() == self@.crash_reporting.is_some(),
            setup matches Some(found) ==> found@ == self@.crash_reporting->0,
            !self@.enabled ==> setup is None,
    {
        proof {
            use_type_invariant(self);
        }
        self.crash_reporting.as_ref()
    }
}

/// The default fields, as strings.
fn default_field_list(app_name: &str, app_version: &str, platform: &str) -> (fields: Vec<
    (String, String),
>)
    ensures
        fields.deep_view() == default_fields(app_name@, app_version@, platform@),
{
    let mut fields: Vec<(String, String)> = Vec::new();
    fields.push(("app".to_string(), app_name.to_string()));
    fields.push(("app_version".to_string(), app_version.to_string()));
    fields.push(("platform".to_string(), platform.to_string()));
    fields.push(("zksync_telemetry_version".to_string(), version().to_string()));
    assert(fields.deep_view() =~= default_fields(app_name@, app_version@, platform@));
    fields
}

/// The four keys of the default fields are four different keys.
pub proof fn lemma_default_keys_differ()
    ensures
        "app"@ != "app_version"@,
        "app"@ != "platform"@,
        "app"@ != "zksync_telemetry_version"@,
        "app_version"@ != "platform"@,
        "app_version"@ != "zksync_telemetry_version"@,
        "platform"@ != "zksync_telemetry_version"@,
{
    reveal_strlit("app");
    reveal_strlit("app_version");
    reveal_strlit("platform");
    reveal_strlit("zksync_telemetry_version");
    assert("app"@.len() == 3);
    assert("app_version"@.len() == 11);
    assert("platform"@.len() == 8);
    assert("zksync_telemetry_version"@.len() == 24);
}

/// Setting the default fields comes to four insertions, the library's version
/// last.
pub proof fn lemma_defaults_unfold(
    entries: Map<Seq<char>, Json>,
    app_name: Seq<char>,
    app_version: Seq<char>,
    platform: Seq<char>,
)
    ensures
        with_fields(entries, default_fields(app_name, app_version, platform)) == entries.insert(
            "app"@,
            Json::String(app_name),
        ).insert("app_version"@, Json::String(app_version)).insert(
            "platform"@,
            Json::String(platform),
        ).insert("zksync_telemetry_version"@, Json::String(library_version())),
{
    let four = default_fields(app_name, app_version, platform);
    let three = four.drop_last();
    let two = three.drop_last();
    let one = two.drop_last();
    assert(one.drop_last().len() == 0);
    assert(with_fields(entries, one.drop_last()) == entries);
    assert(with_fields(entries, one) == entries.insert("app"@, Json::String(app_name)));
    assert(with_fields(entries, two) == with_fields(entries, one).insert(
        "app_version"@,
        Json::String(app_version),
    ));
    assert(with_fields(entries, three) == with_fields(entries, two).insert(
        "platform"@,
        Json::String(platform),
    ));
}

/// The default fields win: a payload holds each of them with the facade's own
/// value, whatever the caller's properties hold under its key. Every other
/// property of the caller is in the payload as the caller gave it, and the
/// payload holds nothing else.
pub proof fn lemma_defaults_win(
    entries: Map<Seq<char>, Json>,
    app_name: Seq<char>,
    app_version: Seq<char>,
    platform: Seq<char>,
)
    ensures
        ({
            let payload = with_fields(entries, default_fields(app_name, app_version, platform));
            &&& payload.contains_key("app"@) && payload["app"@] == Json::String(app_name)
            &&& payload.contains_key("app_version"@) && payload["app_version"@] == Json::String(
                app_version,
            )
            &&& payload.contains_key("platform"@) && payload["platform"@] == Json::String(platform)
            &&& payload.contains_key("zksync_telemetry_version"@)
                && payload["zksync_telemetry_version"@] == Json::String(library_version())
            &&& forall|key: Seq<char>|
                key != "app"@ && key != "app_version"@ && key != "platform"@ && key
                    != "zksync_telemetry_version"@ ==> payload.contains_key(key)
                    == entries.contains_key(key) && payload[key] == entries[key]
        }),
{
    lemma_default_keys_differ();
    lemma_defaults_unfold(entries, app_name, app_version, platform);
}

/// A disabled facade sends nothing: neither an event nor an error leads to a
/// dispatch, whatever collectors the facade's model names.
pub proof fn lemma_disabled_sends_nothing(
    facade: TelemetryPlan,
    name: Seq<char>,
    properties: Json,
    message: Seq<char>,
    source_chain: Seq<Seq<char>>,
)
    requires
        !facade.enabled,
    ensures
        facade.planned_event(name, properties) is None,
        facade.planned_error(message, source_chain) is None,
{
}

/// With a crash-reporting collector set up, an error goes to that collector
/// and to no other, also where an analytics collector is set up beside it.
pub proof fn lemma_errors_go_to_crash_reporting_alone(
    facade: TelemetryPlan,
    message: Seq<char>,
    source_chain: Seq<Seq<char>>,
)
    requires
        facade.enabled,
        facade.crash_reporting is Some,
    ensures
        facade.planned_error(message, source_chain) == Some(
            DispatchPlan {
                collectors: seq![Collector::CrashReporting],
                message: MessagePlan::Error { message, source_chain },
            },
        ),
{
}

/// An event goes to every collector that is set up, and each of them is
/// handed the same payload.
pub proof fn lemma_events_go_to_every_collector(
    facade: TelemetryPlan,
    name: Seq<char>,
    properties: Json,
)
    requires
        facade.enabled,
    ensures
        facade.analytics is Some ==> facade.planned_event(name, properties) is Some
            && facade.planned_event(name, properties)->0.collectors.contains(Collector::Analytics),
        facade.crash_reporting is Some ==> facade.planned_event(name, properties) is Some
            && facade.planned_event(name, properties)->0.collectors.contains(
            Collector::CrashReporting,
        ),
        facade.analytics is None && facade.crash_reporting is None ==> facade.planned_event(
            name,
            properties,
        ) is None,
{
    if facade.analytics is Some {
        assert(facade.event_targets()[0] == Collector::Analytics);
    }
    if facade.crash_reporting is Some {
        let last = facade.event_targets().len() - 1;
        assert(facade.event_targets()[last] == Collector::CrashReporting);
    }
}

/// A configuration that was resolved under a test or CI signal sets up no
/// collector, whatever credentials are supplied, and so sends nothing.
pub proof fn lemma_test_run_sets_up_nothing(
    app_name: Seq<char>,
    app_version: Seq<char>,
    signals: Signals,
    stored: Option<Seq<char>>,
    fresh: Seq<char>,
    resolution: Resolution,
    platform: Seq<char>,
    posthog_key: Option<Seq<char>>,
    sentry_dsn: Option<Seq<char>>,
)
    requires
        signals.test_or_ci,
        resolves(app_name, app_version, signals, stored, fresh, resolution),
    ensures
        !resolution.config.enabled,
        planned_setup(resolution.config, platform, posthog_key, sentry_dsn).analytics is None,
        planned_setup(resolution.config, platform, posthog_key, sentry_dsn).crash_reporting
            is None,
{
}

/// A dispatch is a success exactly where no delivery failed.
pub proof fn lemma_success_means_no_failure(outcomes: Seq<Outcome>)
    ensures
        first_failure(outcomes) is None <==> forall|i: int|
            0 <= i < outcomes.len() ==> (#[trigger] outcomes[i]).failure is None,
    decreases outcomes.len(),
{
    if outcomes.len() > 0 {
        lemma_success_means_no_failure(outcomes.drop_first());
        if first_failure(outcomes) is None {
            assert forall|i: int| 0 <= i < outcomes.len() implies (#[trigger] outcomes[i]).failure
                is None by {
                if i > 0 {
                    assert(outcomes.drop_first()[i - 1] == outcomes[i]);
                }
            }
        } else if outcomes.first().failure is None {
            let rest = outcomes.drop_first();
            let i = choose|i: int| 0 <= i < rest.len() && (#[trigger] rest[i]).failure is Some;
            assert(outcomes[i + 1] == rest[i]);
        }
    }
}

/// The failure that a dispatch reports is that of the first collector that
/// failed: every delivery before it went through, and what came after it does
/// not change the report.
pub proof fn lemma_first_failure_is_reported(outcomes: Seq<Outcome>, at: int)
    requires
        0 <= at < outcomes.len(),
        outcomes[at].failure is Some,
        forall|i: int| 0 <= i < at ==> (#[trigger] outcomes[i]).failure is None,
    ensures
        first_failure(outcomes) == Some((outcomes[at].collector, outcomes[at].failure->0@)),
    decreases at,
{
    if at > 0 {
        let rest = outcomes.drop_first();
        assert(rest[at - 1] == outcomes[at]);
        assert forall|i: int| 0 <= i < at - 1 implies (#[trigger] rest[i]).failure is None by {
            assert(rest[i] == outcomes[i + 1]);
        }
        lemma_first_failure_is_reported(rest, at - 1);
    }
}

} // verus!
