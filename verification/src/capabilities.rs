//! MCPL capability declarations, carried inside the `initialize` handshake.
//!
//! These records are inert data: the connection core moves them as opaque
//! payloads and never reads them. They are modelled as plain values so that
//! an embedding application can build and inspect them; turning them into
//! JSON text is that application's business.

use vstd::prelude::*;

use crate::json::JsonValue;
use crate::methods::FeatureSetDeclaration;

verus! {

/// Whether an optional flag was declared and set.
pub open spec fn flag_set(o: Option<bool>) -> bool {
    match o {
        Some(b) => b,
        None => false,
    }
}

/// The MCPL capability block, nested under `experimental.mcpl`.
#[derive(Debug)]
pub struct McplCapabilities {
    pub version: String,
    pub push_events: Option<bool>,
    pub context_hooks: Option<ContextHooksCap>,
    pub inference_request: Option<InferenceRequestCap>,
    pub stream_observer: Option<bool>,
    pub rollback: Option<bool>,
    pub channels: Option<bool>,
    pub model_info: Option<bool>,
    pub feature_sets: Option<Vec<FeatureSetDeclaration>>,
    pub scoped_access: Option<bool>,
}

/// The `inferenceRequest` capability: a bare flag, or an object with finer
/// control.
#[derive(Debug)]
pub enum InferenceRequestCap {
    Simple(bool),
    Detailed(InferenceRequestDetail),
}

#[derive(Debug)]
pub struct InferenceRequestDetail {
    pub streaming: bool,
}

impl InferenceRequestCap {
    /// Whether the capability is on at all.
    pub open spec fn spec_is_enabled(self) -> bool {
        match self {
            InferenceRequestCap::Simple(b) => b,
            InferenceRequestCap::Detailed(_) => true,
        }
    }

    /// Whether streamed inference was granted.
    pub open spec fn spec_supports_streaming(self) -> bool {
        match self {
            InferenceRequestCap::Simple(_) => false,
            InferenceRequestCap::Detailed(d) => d.streaming,
        }
    }

    pub fn is_enabled(&self) -> (r: bool)
        ensures
            r == self.spec_is_enabled(),
    {
        match self {
            InferenceRequestCap::Simple(b) => *b,
            InferenceRequestCap::Detailed(_) => true,
        }
    }

    pub fn supports_streaming(&self) -> (r: bool)
        ensures
            r == self.spec_supports_streaming(),
    {
        match self {
            InferenceRequestCap::Simple(_) => false,
            InferenceRequestCap::Detailed(d) => d.streaming,
        }
    }
}

#[derive(Debug)]
pub struct ContextHooksCap {
    pub before_inference: bool,
    pub after_inference: Option<AfterInferenceCap>,
}

#[derive(Debug)]
pub struct AfterInferenceCap {
    pub blocking: bool,
}

/// The `experimental` capability wrapper.
#[derive(Debug)]
pub struct ExperimentalCapabilities {
    pub mcpl: Option<McplCapabilities>,
}

impl Default for ExperimentalCapabilities {
    fn default() -> (r: ExperimentalCapabilities)
        ensures
            r.mcpl is None,
    {
        ExperimentalCapabilities { mcpl: None }
    }
}

/// The `initialize` request parameters the handshake rides on.
#[derive(Debug)]
pub struct McplInitializeParams {
    pub protocol_version: String,
    pub capabilities: InitializeCapabilities,
    pub client_info: ImplementationInfo,
}

/// The `initialize` response.
#[derive(Debug)]
pub struct McplInitializeResult {
    pub protocol_version: String,
    pub capabilities: InitializeCapabilities,
    pub server_info: ImplementationInfo,
}

/// The capability object of the handshake; standard capabilities this layer
/// does not interpret pass through as raw fields.
#[derive(Debug)]
pub struct InitializeCapabilities {
    pub experimental: Option<ExperimentalCapabilities>,
    pub other: Vec<(String, JsonValue)>,
}

impl Default for InitializeCapabilities {
    fn default() -> (r: InitializeCapabilities)
        ensures
            r.experimental is None,
            r.other@ == Seq::<(String, JsonValue)>::empty(),
    {
        InitializeCapabilities { experimental: None, other: Vec::new() }
    }
}

/// Who is speaking: a name and a version.
#[derive(Debug)]
pub struct ImplementationInfo {
    pub name: String,
    pub version: String,
}

impl Default for McplCapabilities {
    /// An empty declaration: no version text, every capability left out.
    fn default() -> (r: McplCapabilities)
        ensures
            r.version@ == Seq::<char>::empty(),
            r.push_events is None,
            r.context_hooks is None,
            r.inference_request is None,
            r.stream_observer is None,
            r.rollback is None,
            r.channels is None,
            r.model_info is None,
            r.feature_sets is None,
            r.scoped_access is None,
    {
        McplCapabilities {
            version: String::new(),
            push_events: None,
            context_hooks: None,
            inference_request: None,
            stream_observer: None,
            rollback: None,
            channels: None,
            model_info: None,
            feature_sets: None,
            scoped_access: None,
        }
    }
}

impl McplCapabilities {
    /// A declaration of the given version with every capability left out.
    pub fn new(version: String) -> (r: McplCapabilities)
        ensures
            r.version == version,
            r.push_events is None,
            r.context_hooks is None,
            r.inference_request is None,
            r.stream_observer is None,
            r.rollback is None,
            r.channels is None,
            r.model_info is None,
            r.feature_sets is None,
            r.scoped_access is None,
    {
        McplCapabilities {
            version,
            push_events: None,
            context_hooks: None,
            inference_request: None,
            stream_observer: None,
            rollback: None,
            channels: None,
            model_info: None,
            feature_sets: None,
            scoped_access: None,
        }
    }

    pub fn has_push_events(&self) -> (r: bool)
        ensures
            r == flag_set(self.push_events),
    {
        match self.push_events {
            Some(b) => b,
            None => false,
        }
    }

    pub fn has_channels(&self) -> (r: bool)
        ensures
            r == flag_set(self.channels),
    {
        match self.channels {
            Some(b) => b,
            None => false,
        }
    }

    pub fn has_rollback(&self) -> (r: bool)
        ensures
            r == flag_set(self.rollback),
    {
        match self.rollback {
            Some(b) => b,
            None => false,
        }
    }

    pub fn has_inference_request(&self) -> (r: bool)
        ensures
            r == match self.inference_request {
                Some(c) => c.spec_is_enabled(),
                None => false,
            },
    {
        match &self.inference_request {
            Some(c) => c.is_enabled(),
            None => false,
        }
    }

    pub fn has_inference_streaming(&self) -> (r: bool)
        ensures
            r == match self.inference_request {
                Some(c) => c.spec_supports_streaming(),
                None => false,
            },
    {
        match &self.inference_request {
            Some(c) => c.supports_streaming(),
            None => false,
        }
    }

    pub fn has_model_info(&self) -> (r: bool)
        ensures
            r == flag_set(self.model_info),
    {
        match self.model_info {
            Some(b) => b,
            None => false,
        }
    }

    pub fn has_stream_observer(&self) -> (r: bool)
        ensures
            r == flag_set(self.stream_observer),
    {
        match self.stream_observer {
            Some(b) => b,
            None => false,
        }
    }

    pub fn has_scoped_access(&self) -> (r: bool)
        ensures
            r == flag_set(self.scoped_access),
    {
        match self.scoped_access {
            Some(b) => b,
            None => false,
        }
    }
}

} // verus!
