//! Consent and configuration: whether telemetry is enabled for this run, and
//! under which anonymous instance identifier.
//!
//! The configuration lives in a small JSON document that the embedding
//! program keeps in a file. This module never touches the file. It is handed
//! the text that was read (if any), decides, and hands back the text to write
//! (if any). A text that cannot be used is treated as if there were none:
//! resolution always gives a configuration, so that telemetry never keeps the
//! host application from starting.
//!
//! Telemetry is opt-in. It is enabled only where the stored document records
//! the choice `"enabled": true`, and no signal of this run forbids it.

use crate::error::TelemetryError;
use crate::json::{
    entries_of, node_of_value, object_insert, object_new, object_remove, parse_text, parsed,
    render_text, rendered, value_of_node, Json, JsonNode,
};
use vstd::prelude::*;

verus! {

/// What the environment of this run says about telemetry.
#[derive(Debug, Clone, Copy, PartialEq, Eq, Structural)]
pub struct Signals {
    /// The run is a test run or a run in continuous integration.
    pub test_or_ci: bool,
    /// The environment asks for telemetry to be off.
    pub opt_out: bool,
}

/// The configuration that telemetry runs under.
#[derive(Debug, Clone, PartialEq, Eq)]
pub struct TelemetryConfig {
    /// Whether anything may be sent.
    pub enabled: bool,
    /// The anonymous identifier of this installation.
    pub instance_id: String,
    /// The name of the embedding application.
    pub app_name: String,
    /// The version of the embedding application.
    pub app_version: String,
}

/// The outcome of a resolution.
#[derive(Debug, Clone, PartialEq, Eq)]
pub struct Resolution {
    /// The configuration to run under.
    pub config: TelemetryConfig,
    /// The text to write back to the configuration file, where the stored
    /// document has to change. A resolution that reads this text will run
    /// under the same instance identifier. A failure to write it is to be
    /// ignored: the configuration then holds for this run only.
    pub document: Option<String>,
    /// Why the stored text was set aside, where it was.
    pub problem: Option<TelemetryError>,
}

/// The key under which the document records the user's choice.
pub open spec fn enabled_key() -> Seq<char> {
    "enabled"@
}

/// The key under which the document records the instance identifier.
pub open spec fn instance_id_key() -> Seq<char> {
    "instance_id"@
}

/// Whether a stored instance identifier can be used again: any text will do,
/// but not the empty one.
pub open spec fn well_formed_id(id: Seq<char>) -> bool {
    id.len() > 0
}

/// The text behind an optional string slice.
pub open spec fn text_of(stored: Option<&str>) -> Option<Seq<char>> {
    match stored {
        Some(text) => Some(text@),
        None => None,
    }
}

/// The entries of the stored document: those of the object that the stored
/// text parses to. `None` where there is no text, where it does not parse, and
/// where it parses to anything but an object.
pub open spec fn stored_entries(stored: Option<Seq<char>>) -> Option<Map<Seq<char>, Json>> {
    match stored {
        Some(text) => match parsed(text) {
            Some(Json::Object(entries)) => Some(entries),
            _ => None,
        },
        None => None,
    }
}

/// The entries that a resolution starts from: those of the stored document, or
/// none.
pub open spec fn base_entries(document: Option<Map<Seq<char>, Json>>) -> Map<Seq<char>, Json> {
    match document {
        Some(entries) => entries,
        None => Map::empty(),
    }
}

/// The choice that the stored document records: the boolean under
/// `"enabled"`, if there is one.
pub open spec fn stored_choice(document: Option<Map<Seq<char>, Json>>) -> Option<bool> {
    if base_entries(document).contains_key(enabled_key()) {
        match base_entries(document)[enabled_key()] {
            Json::Bool(choice) => Some(choice),
            _ => None,
        }
    } else {
        None
    }
}

/// The instance identifier that the stored document records: the string under
/// `"instance_id"`, if there is one and it is well formed.
pub open spec fn stored_id(document: Option<Map<Seq<char>, Json>>) -> Option<Seq<char>> {
    if base_entries(document).contains_key(instance_id_key()) {
        match base_entries(document)[instance_id_key()] {
            Json::String(id) => if well_formed_id(id) {
                Some(id)
            } else {
                None
            },
            _ => None,
        }
    } else {
        None
    }
}

/// Whether telemetry is enabled. In order of precedence: a test or CI run
/// has it off; an opt-out of the environment has it off; a recorded choice is
/// honoured; with no recorded choice it is off.
pub open spec fn resolved_enabled(signals: Signals, choice: Option<bool>) -> bool {
    if signals.test_or_ci {
        false
    } else if signals.opt_out {
        false
    } else {
        match choice {
            Some(recorded) => recorded,
            None => false,
        }
    }
}

/// The instance identifier to run under: the recorded one, or else the fresh
/// one.
pub open spec fn resolved_id(recorded: Option<Seq<char>>, fresh: Seq<char>) -> Seq<char> {
    match recorded {
        Some(id) => id,
        None => fresh,
    }
}

/// The document to write back, where one has to be written: that is where the
/// instance identifier is fresh. It holds every entry of the stored document,
/// but for the recorded choice (off, where none was recorded) and the fresh
/// instance identifier.
pub open spec fn document_to_store(document: Option<Map<Seq<char>, Json>>, fresh: Seq<char>)
    -> Option<Json> {
    match stored_id(document) {
        Some(_) => None,
        None => Some(
            Json::Object(
                base_entries(document).insert(
                    enabled_key(),
                    Json::Bool(
                        match stored_choice(document) {
                            Some(recorded) => recorded,
                            None => false,
                        },
                    ),
                ).insert(instance_id_key(), Json::String(fresh)),
            ),
        ),
    }
}

/// Whether a document with this text records this instance identifier: whether
/// a resolution that is handed the text will run under the identifier.
pub open spec fn records_id(text: Seq<char>, id: Seq<char>) -> bool {
    stored_id(stored_entries(Some(text))) == Some(id)
}

/// Whether `resolution` is the outcome of resolving the stored text `stored`
/// under `signals`, with `fresh` at hand as a new instance identifier.
///
/// The document to write is given as text, and only where the text, read
/// again, records the identifier of the resolution. Where it cannot be written
/// out, or would not read back, none is given, and the identifier holds for
/// this run only.
pub open spec fn resolves(
    app_name: Seq<char>,
    app_version: Seq<char>,
    signals: Signals,
    stored: Option<Seq<char>>,
    fresh: Seq<char>,
    resolution: Resolution,
) -> bool {
    let document = stored_entries(stored);
    &&& resolution.config.enabled == resolved_enabled(signals, stored_choice(document))
    &&& resolution.config.instance_id@ == resolved_id(stored_id(document), fresh)
    &&& resolution.config.app_name@ == app_name
    &&& resolution.config.app_version@ == app_version
    &&& match document_to_store(document, fresh) {
        Some(json) => match rendered(json) {
            Some(text) => if records_id(text, resolution.config.instance_id@) {
                resolution.document is Some && resolution.document->0@ == text
            } else {
                resolution.document is None
            },
            None => resolution.document is None,
        },
        None => resolution.document is None,
    }
    &&& resolution.problem is Some <==> stored is Some && document is None
    &&& resolution.problem matches Some(error) ==> error is ConfigError
}

/// A new random instance identifier: `uuid::Uuid::new_v4`, written out by its
/// `to_string`.
///
/// Assumed: the text has the 36 characters of the hyphenated form. Nothing is
/// assumed of which identifier comes.
#[verifier::external_body]
fn random_instance_id() -> (id: String)
    ensures
        id@.len() == 36,
{
    uuid::Uuid::new_v4().to_string()
}

/// The text of a `serde_json::Error`, by its `to_string`. Nothing is assumed of
/// it.
#[verifier::external_body]
fn parse_error_text(error: &serde_json::Error) -> (text: String) {
    error.to_string()
}

impl Resolution {
    /// Whether the document that this resolution gives to write, read again,
    /// records the instance identifier of this resolution. It does where there
    /// is no document to write.
    pub open spec fn reads_back(self) -> bool {
        match self.document {
            Some(text) => records_id(text@, self.config.instance_id@),
            None => true,
        }
    }

    /// Reads the document of this resolution again and says whether it records
    /// the instance identifier of this resolution: whether a later resolution
    /// that is handed this document will run under the same identifier. Of a
    /// resolution that [`TelemetryConfig::resolve`] gave, this is true.
    pub fn document_reads_back(&self) -> (ok: bool)
        ensures
            ok == self.reads_back(),
    {
        match &self.document {
            None => true,
            Some(text) => match parse_text(text.as_str()) {
                Ok(value) => match node_of_value(value) {
                    JsonNode::Object(object) => {
                        let mut entries = object;
                        match object_remove(&mut entries, "instance_id") {
                            Some(found) => match node_of_value(found) {
                                JsonNode::String(id) => !id.as_str().is_empty() && id
                                    == self.config.instance_id,
                                _ => false,
                            },
                            None => false,
                        }
                    },
                    _ => false,
                },
                Err(_) => false,
            },
        }
    }
}

impl TelemetryConfig {
    /// Resolves the configuration from the text of the configuration file, if
    /// there is one, drawing a new random instance identifier for the case
    /// that the text records none.
    pub fn resolve(app_name: &str, app_version: &str, signals: Signals, stored: Option<&str>) -> (
        resolution: Resolution)
        ensures
            exists|fresh: Seq<char>|
                well_formed_id(fresh) && #[trigger] resolves(
                    app_name@,
                    app_version@,
                    signals,
                    text_of(stored),
                    fresh,
                    resolution,
                ),
            signals.test_or_ci ==> !resolution.config.enabled,
            resolution.reads_back(),
    {
        let fresh_id = random_instance_id();
        Self::resolve_with(app_name, app_version, signals, stored, fresh_id)
    }

    /// Resolves the configuration from the text of the configuration file, if
    /// there is one, with `fresh_id` as the instance identifier to use where
    /// the text records none.
    pub fn resolve_with(
        app_name: &str,
        app_version: &str,
        signals: Signals,
        stored: Option<&str>,
        fresh_id: String,
    ) -> (resolution: Resolution)
        ensures
            resolves(app_name@, app_version@, signals, text_of(stored), fresh_id@, resolution),
            signals.test_or_ci ==> !resolution.config.enabled,
            resolution.reads_back(),
    {
        let ghost document = stored_entries(text_of(stored));
        let mut problem: Option<TelemetryError> = None;
        let mut entries = object_new();
        if let Some(text) = stored {
            match parse_text(text) {
                Ok(value) => match node_of_value(value) {
                    JsonNode::Object(object) => {
                        entries = object;
                    },
                    _ => {
                        problem = Some(
                            TelemetryError::ConfigError(
                                "the stored configuration is not a JSON object".to_string(),
                            ),
                        );
                    },
                },
                Err(error) => {
                    problem = Some(TelemetryError::ConfigError(parse_error_text(&error)));
                },
            }
        }
        let ghost base = entries_of(entries);
        assert(base == base_entries(document));
        proof {
            lemma_keys_differ();
        }

        let choice = match object_remove(&mut entries, "enabled") {
            Some(value) => match node_of_value(value) {
                JsonNode::Bool(recorded) => Some(recorded),
                _ => None,
            },
            None => None,
        };
        let recorded_id = match object_remove(&mut entries, "instance_id") {
            Some(value) => match node_of_value(value) {
                JsonNode::String(id) => if id.as_str().is_empty() {
                    None
                } else {
                    Some(id)
                },
                _ => None,
            },
            None => None,
        };
        assert(choice == stored_choice(document));
        assert(recorded_id is Some == stored_id(document) is Some);

        let enabled = if signals.test_or_ci || signals.opt_out {
            false
        } else {
            match choice {
                Some(recorded) => recorded,
                None => false,
            }
        };
        let (instance_id, text) = match recorded_id {
            Some(id) => (id, None),
            None => {
                let recorded = match choice {
                    Some(recorded) => recorded,
                    None => false,
                };
                object_insert(
                    &mut entries,
                    "enabled".to_string(),
                    value_of_node(JsonNode::Bool(recorded)),
                );
                object_insert(
                    &mut entries,
                    "instance_id".to_string(),
                    value_of_node(JsonNode::String(fresh_id.clone())),
                );
                assert(entries_of(entries) =~= base.insert(
                    enabled_key(),
                    Json::Bool(recorded),
                ).insert(instance_id_key(), Json::String(fresh_id@)));
                let text = match render_text(&value_of_node(JsonNode::Object(entries))) {
                    Ok(text) => Some(text),
                    Err(_) => None,
                };
                (fresh_id, text)
            },
        };
        let mut resolution = Resolution {
            config: TelemetryConfig {
                enabled,
                instance_id,
                app_name: app_name.to_string(),
                app_version: app_version.to_string(),
            },
            document: text,
            problem,
        };
        if !resolution.document_reads_back() {
            resolution.document = None;
        }
        resolution
    }
}

/// The two keys that a resolution reads and sets are different keys.
pub proof fn lemma_keys_differ()
    ensures
        enabled_key() != instance_id_key(),
{
    reveal_strlit("enabled");
    reveal_strlit("instance_id");
    assert(enabled_key().len() == 7);
    assert(instance_id_key().len() == 11);
}

/// Under a test or CI signal telemetry is off, whatever the stored document
/// records and whatever else the environment says.
pub proof fn lemma_test_signal_disables(signals: Signals, choice: Option<bool>)
    requires
        signals.test_or_ci,
    ensures
        !resolved_enabled(signals, choice),
{
}

/// Telemetry is on only where the stored document records the choice to have
/// it on: without a record it is off.
pub proof fn lemma_enabled_only_by_recorded_choice(signals: Signals, choice: Option<bool>)
    requires
        resolved_enabled(signals, choice),
    ensures
        choice == Some(true),
        !signals.test_or_ci,
        !signals.opt_out,
{
}

/// Two resolutions against one configuration file run under the same instance
/// identifier, whatever the signals of the two runs, provided that the second
/// reads what the first left: the document that the first gave to write,
/// where it gave one, and what the first read, where the first had none to
/// write. (Where the first had one to write and could give none, or where what
/// it gave was not written, the identifier of the first holds for its run
/// only.)
pub proof fn lemma_instance_id_is_stable(
    app_name: Seq<char>,
    app_version: Seq<char>,
    signals: Signals,
    stored: Option<Seq<char>>,
    fresh: Seq<char>,
    first: Resolution,
    later_signals: Signals,
    reread: Option<Seq<char>>,
    later_fresh: Seq<char>,
    second: Resolution,
)
    requires
        resolves(app_name, app_version, signals, stored, fresh, first),
        resolves(app_name, app_version, later_signals, reread, later_fresh, second),
        match first.document {
            Some(text) => reread == Some(text@),
            None => reread == stored && document_to_store(stored_entries(stored), fresh) is None,
        },
    ensures
        second.config.instance_id@ == first.config.instance_id@,
        second.document is None,
{
}

/// The document that a resolution gives to write holds every entry of the
/// stored document under any key other than the two that it sets.
pub proof fn lemma_document_keeps_other_entries(
    document: Option<Map<Seq<char>, Json>>,
    fresh: Seq<char>,
    key: Seq<char>,
)
    requires
        document_to_store(document, fresh) is Some,
        key != enabled_key(),
        key != instance_id_key(),
    ensures
        document_to_store(document, fresh)->0 is Object,
        document_to_store(document, fresh)->0->Object_0.contains_key(key) == base_entries(
            document,
        ).contains_key(key),
        document_to_store(document, fresh)->0->Object_0[key] == base_entries(document)[key],
{
    lemma_keys_differ();
}

} // verus!
