//! Parameter and result records for the MCPL method surface.
//!
//! All of this is inert schema: the connection core carries these shapes as
//! opaque payloads. Where the wire holds an arbitrary JSON value the record
//! holds a `JsonValue`; where it holds an object keyed by name the record
//! holds the entries in order.

use vstd::prelude::*;

use crate::json::JsonValue;
use crate::types::ContentBlock;

verus! {

/// One named feature set a server declares.
#[derive(Debug)]
pub struct FeatureSetDeclaration {
    pub name: String,
    pub description: Option<String>,
    pub uses: Vec<String>,
    pub rollback: bool,
    pub host_state: bool,
}

/// `featureSets/update` (host to server, notification).
#[derive(Debug)]
pub struct FeatureSetsUpdateParams {
    pub enabled: Option<Vec<String>>,
    pub disabled: Option<Vec<String>>,
    pub scopes: Option<Vec<(String, ScopeConfig)>>,
}

#[derive(Debug)]
pub struct ScopeConfig {
    pub whitelist: Option<Vec<String>>,
    pub blacklist: Option<Vec<String>>,
}

/// `featureSets/changed` (server to host, notification).
#[derive(Debug)]
pub struct FeatureSetsChangedParams {
    pub added: Option<Vec<(String, FeatureSetDeclaration)>>,
    pub removed: Option<Vec<String>>,
}

/// `scope/elevate` (server to host, request).
#[derive(Debug)]
pub struct ScopeElevateParams {
    pub feature_set: String,
    pub scope: ScopeElevateScope,
}

#[derive(Debug)]
pub struct ScopeElevateScope {
    pub label: String,
    pub payload: Option<JsonValue>,
}

#[derive(Debug)]
pub struct ScopeElevateResult {
    pub approved: bool,
    pub payload: Option<JsonValue>,
    pub reason: Option<String>,
}

/// `state/rollback` (host to server, request).
#[derive(Debug)]
pub struct StateRollbackParams {
    pub feature_set: String,
    pub checkpoint: String,
}

#[derive(Debug)]
pub struct StateRollbackResult {
    pub checkpoint: String,
    pub success: bool,
    pub reason: Option<String>,
}

/// Checkpoint metadata for host-managed state.
#[derive(Debug)]
pub struct StateCheckpoint {
    pub id: String,
    pub feature_set: String,
    pub timestamp: String,
    pub parent: Option<String>,
    pub label: Option<String>,
}

/// One JSON Patch operation on host-managed state.
#[derive(Debug)]
pub struct JsonPatchOperation {
    pub op: JsonPatchOp,
    pub path: String,
    pub value: Option<JsonValue>,
    pub from: Option<String>,
}

#[derive(Debug, PartialEq, Eq, Structural)]
pub enum JsonPatchOp {
    Add,
    Remove,
    Replace,
    Move,
    Copy,
    Test,
}

/// State attached to tool results when host-managed state is on.
#[derive(Debug)]
pub struct HostManagedState {
    pub checkpoint: String,
    pub patch: Option<Vec<JsonPatchOperation>>,
}

/// `push/event` (server to host, request).
#[derive(Debug)]
pub struct PushEventParams {
    pub feature_set: String,
    pub event_id: String,
    pub timestamp: String,
    pub origin: Option<JsonValue>,
    pub payload: PushEventPayload,
}

#[derive(Debug)]
pub struct PushEventPayload {
    pub content: Vec<ContentBlock>,
}

#[derive(Debug)]
pub struct PushEventResult {
    pub accepted: bool,
    pub inference_id: Option<String>,
    pub reason: Option<String>,
}

/// The model a context hook or info request speaks of.
#[derive(Debug)]
pub struct ModelInfo {
    pub id: String,
    pub vendor: String,
    pub context_window: u32,
    pub capabilities: Vec<String>,
}

/// `model/info` result.
pub type ModelInfoResult = ModelInfo;

/// `context/beforeInference` (host to server, request).
#[derive(Debug)]
pub struct ContextBeforeInferenceParams {
    pub inference_id: String,
    pub conversation_id: String,
    pub turn_index: u32,
    pub user_message: Option<String>,
    pub model: ModelInfo,
}

#[derive(Debug)]
pub struct ContextInjection {
    pub namespace: String,
    pub position: ContextInjectionPosition,
    pub content: ContextInjectionContent,
    pub metadata: Option<JsonValue>,
}

#[derive(Debug, PartialEq, Eq, Structural)]
pub enum ContextInjectionPosition {
    System,
    BeforeUser,
    AfterUser,
}

#[derive(Debug)]
pub enum ContextInjectionContent {
    Text(String),
    Blocks(Vec<ContentBlock>),
}

#[derive(Debug)]
pub struct ContextBeforeInferenceResult {
    pub feature_set: String,
    pub context_injections: Vec<ContextInjection>,
}

/// `context/afterInference` (host to server, request or notification).
#[derive(Debug)]
pub struct ContextAfterInferenceParams {
    pub inference_id: String,
    pub conversation_id: String,
    pub turn_index: u32,
    pub user_message: String,
    pub assistant_message: String,
    pub model: ModelInfo,
    pub usage: InferenceUsage,
    pub channels: Option<JsonValue>,
}

#[derive(Debug)]
pub struct ContextAfterInferenceResult {
    pub feature_set: String,
    pub modified_response: Option<String>,
    pub metadata: Option<JsonValue>,
}

#[derive(Debug)]
pub struct InferenceUsage {
    pub input_tokens: u32,
    pub output_tokens: u32,
}

/// `inference/request` (server to host, request).
#[derive(Debug)]
pub struct InferenceRequestParams {
    pub feature_set: String,
    pub conversation_id: Option<String>,
    pub stream: Option<bool>,
    pub messages: Vec<InferenceMessage>,
    pub preferences: Option<InferencePreferences>,
}

#[derive(Debug)]
pub struct InferenceMessage {
    pub role: String,
    pub content: String,
}

/// Sampling preferences; the temperature is carried as the JSON number the
/// caller asked for, uninterpreted here.
#[derive(Debug)]
pub struct InferencePreferences {
    pub max_tokens: Option<u32>,
    pub temperature: Option<JsonValue>,
}

#[derive(Debug)]
pub struct InferenceRequestResult {
    pub content: String,
    pub model: String,
    pub finish_reason: String,
    pub usage: InferenceUsage,
}

/// `inference/chunk` (host to server, notification).
#[derive(Debug)]
pub struct InferenceChunkParams {
    pub request_id: i64,
    pub index: u32,
    pub delta: String,
}

/// One channel a server offers or a host opened.
#[derive(Debug)]
pub struct ChannelDescriptor {
    pub id: String,
    pub channel_type: String,
    pub label: String,
    pub direction: ChannelDirection,
    pub address: Option<JsonValue>,
    pub metadata: Option<JsonValue>,
}

#[derive(Debug, PartialEq, Eq, Structural)]
pub enum ChannelDirection {
    Outbound,
    Inbound,
    Bidirectional,
}

/// `channels/register` (server to host, request).
#[derive(Debug)]
pub struct ChannelsRegisterParams {
    pub channels: Vec<ChannelDescriptor>,
}

/// `channels/changed` (server to host, notification).
#[derive(Debug)]
pub struct ChannelsChangedParams {
    pub added: Option<Vec<ChannelDescriptor>>,
    pub removed: Option<Vec<String>>,
    pub updated: Option<Vec<ChannelDescriptor>>,
}

/// `channels/list` (either direction, request).
#[derive(Debug)]
pub struct ChannelsListResult {
    pub channels: Vec<ChannelDescriptor>,
}

/// `channels/open` (host to server, request).
#[derive(Debug)]
pub struct ChannelsOpenParams {
    pub channel_type: String,
    pub address: JsonValue,
    pub metadata: Option<JsonValue>,
}

#[derive(Debug)]
pub struct ChannelsOpenResult {
    pub channel: ChannelDescriptor,
}

/// `channels/close` (host to server, request).
#[derive(Debug)]
pub struct ChannelsCloseParams {
    pub channel_id: String,
}

#[derive(Debug)]
pub struct ChannelsCloseResult {
    pub closed: bool,
}

/// `channels/outgoing/chunk` (host to server, notification).
#[derive(Debug)]
pub struct ChannelsOutgoingChunkParams {
    pub inference_id: String,
    pub conversation_id: String,
    pub channel_id: String,
    pub index: u32,
    pub delta: String,
}

/// `channels/outgoing/complete` (host to server, notification).
#[derive(Debug)]
pub struct ChannelsOutgoingCompleteParams {
    pub inference_id: String,
    pub conversation_id: String,
    pub channel_id: String,
    pub content: Vec<ContentBlock>,
}

/// `channels/publish` (host to server, notification or request).
#[derive(Debug)]
pub struct ChannelsPublishParams {
    pub conversation_id: String,
    pub channel_id: String,
    pub stream: Option<bool>,
    pub content: Vec<ContentBlock>,
}

#[derive(Debug)]
pub struct ChannelsPublishResult {
    pub delivered: bool,
    pub message_id: Option<String>,
}

/// `channels/incoming` (server to host, request).
#[derive(Debug)]
pub struct ChannelsIncomingParams {
    pub messages: Vec<IncomingChannelMessage>,
}

#[derive(Debug)]
pub struct IncomingChannelMessage {
    pub channel_id: String,
    pub message_id: String,
    pub thread_id: Option<String>,
    pub author: MessageAuthor,
    pub timestamp: String,
    pub content: Vec<ContentBlock>,
    pub metadata: Option<JsonValue>,
}

#[derive(Debug)]
pub struct MessageAuthor {
    pub id: String,
    pub name: String,
}

#[derive(Debug)]
pub struct ChannelsIncomingResult {
    pub results: Vec<IncomingMessageResult>,
}

#[derive(Debug)]
pub struct IncomingMessageResult {
    pub message_id: String,
    pub accepted: bool,
    pub conversation_id: Option<String>,
}

} // verus!
