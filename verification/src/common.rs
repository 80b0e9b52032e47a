//! Shared application data types: intents, briefing priorities, plugin
//! metadata as the orchestration layer sees it, tasks, notifications, and
//! the application-wide error taxonomy.

use vstd::prelude::*;

verus! {

/// A classified user intent.
#[derive(Debug, Clone)]
pub enum Intent {
    Query { query: String },
    Command { action: String, parameters: Vec<String> },
    Information { topic: String },
    Unknown,
}

/// Priority of a briefing section.
#[derive(Debug, Clone, Copy, PartialEq, Eq, Structural)]
pub enum BriefingPriority {
    Critical,
    High,
    Medium,
    Low,
}

/// Plugin metadata as the orchestration layer sees it.
#[derive(Debug, Clone)]
pub struct PluginMetadata {
    pub id: String,
    pub name: String,
    pub version: String,
    pub description: String,
    pub author: String,
    pub capabilities: Vec<String>,
    pub dependencies: Vec<String>,
}

/// The kind of intent a classifier assigns to an utterance.
#[derive(Debug, Clone, Copy, PartialEq, Eq, Structural)]
pub enum IntentType {
    Query,
    Command,
    Information,
    Greeting,
    Goodbye,
    Help,
    Settings,
    TaskManagement,
    DocumentSearch,
    VoiceCommand,
    Unknown,
}

/// The application-wide error taxonomy.
#[derive(Debug, Clone)]
pub enum AssistantError {
    Database(String),
    Api(String),
    VoiceProcessing(String),
    Plugin(String),
    Configuration(String),
    NotFound(String),
    Unauthorized,
    Internal(String),
}

/// Status of an orchestrated task.
#[derive(Debug, Clone, Copy, PartialEq, Eq, Structural)]
pub enum TaskStatus {
    Pending,
    InProgress,
    Completed,
    Cancelled,
    Failed,
}

/// Priority of an orchestrated task.
#[derive(Debug, Clone, Copy, PartialEq, Eq, Structural)]
pub enum TaskPriority {
    Critical,
    High,
    Medium,
    Low,
}

/// How a user wants to be notified.
#[derive(Debug, Clone)]
pub struct NotificationSettings {
    pub enabled: bool,
    pub channels: Vec<NotificationChannel>,
    pub quiet_hours: Option<(String, String)>,
}

/// A channel a notification can go out on.
#[derive(Debug, Clone, Copy, PartialEq, Eq, Structural)]
pub enum NotificationChannel {
    Email,
    Sms,
    Push,
    InApp,
}

} // verus!
