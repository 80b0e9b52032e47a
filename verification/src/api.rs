//! Data types of the HTTP layer around the core: configuration, health
//! reporting, and request/response shapes. The HTTP transport itself stays
//! outside; these are the plain values it moves.

use vstd::prelude::*;
use crate::strutil::copy_str;

verus! {

/// Authentication configuration.
#[derive(Debug, Clone)]
pub struct AuthConfig {
    pub jwt_secret: String,
    pub token_expiry_hours: i64,
    pub refresh_token_expiry_days: i64,
    pub issuer: String,
    pub audience: String,
}

impl Default for AuthConfig {
    fn default() -> (r: Self)
        ensures
            r.jwt_secret@ == "default-secret-change-in-production"@,
            r.token_expiry_hours == 24,
            r.refresh_token_expiry_days == 30,
            r.issuer@ == "rusty-ai-assistant"@,
            r.audience@ == "rusty-ai-users"@,
    {
        AuthConfig {
            jwt_secret: copy_str("default-secret-change-in-production"),
            token_expiry_hours: 24,
            refresh_token_expiry_days: 30,
            issuer: copy_str("rusty-ai-assistant"),
            audience: copy_str("rusty-ai-users"),
        }
    }
}

/// A login request.
#[derive(Debug, Clone)]
pub struct LoginRequest {
    pub email: String,
    pub password: String,
}

/// A token refresh request.
#[derive(Debug, Clone)]
pub struct RefreshRequest {
    pub refresh_token: String,
}

/// A permission demanded of the authenticated caller.
#[derive(Debug, Clone)]
pub struct RequirePermission(pub String);

/// API server configuration.
#[derive(Debug, Clone)]
pub struct ApiConfig {
    pub host: String,
    pub port: u16,
    pub cors_origins: Vec<String>,
    pub jwt_secret: String,
    pub enable_websockets: bool,
    pub max_request_size: usize,
    pub rate_limit_requests_per_minute: u32,
}

impl Default for ApiConfig {
    fn default() -> (r: Self)
        ensures
            r.host@ == "0.0.0.0"@,
            r.port == 8080,
            crate::strutil::views_of(r.cors_origins@) == seq!["*"@],
            r.jwt_secret@ == "default-secret-change-in-production"@,
            r.enable_websockets,
            r.max_request_size == ((16 * 1024 * 1024) as usize),
            r.rate_limit_requests_per_minute == 60,
    {
        let r = ApiConfig {
            host: copy_str("0.0.0.0"),
            port: 8080,
            cors_origins: vec![copy_str("*")],
            jwt_secret: copy_str("default-secret-change-in-production"),
            enable_websockets: true,
            max_request_size: 16 * 1024 * 1024,
            rate_limit_requests_per_minute: 60,
        };
        proof {
            assert(crate::strutil::views_of(r.cors_origins@) =~= seq!["*"@]);
        }
        r
    }
}

/// Overall service health for a liveness endpoint.
#[derive(Debug, Clone)]
pub struct HealthCheck {
    pub status: String,
    pub version: String,
    pub uptime: u64,
    pub services: ServiceHealth,
}

/// Per-service health strings.
#[derive(Debug, Clone)]
pub struct ServiceHealth {
    pub database: String,
    pub storage: String,
    pub plugins: String,
    pub voice: String,
}

/// A logout request.
#[derive(Debug, Clone)]
pub struct LogoutRequest {
    pub token: String,
}

/// A logout confirmation.
#[derive(Debug, Clone)]
pub struct LogoutResponse {
    pub message: String,
}

/// A token validation request.
#[derive(Debug, Clone)]
pub struct ValidateTokenRequest {
    pub token: String,
}

/// Pagination over a conversation history.
#[derive(Debug, Clone, Copy)]
pub struct HistoryQuery {
    pub limit: Option<usize>,
    pub offset: Option<usize>,
}

/// A document uploaded into the knowledge base.
#[derive(Debug, Clone)]
pub struct DocumentUpload {
    pub title: String,
    pub content: String,
    pub tags: Vec<String>,
}

/// A voice interaction result.
#[derive(Debug, Clone)]
pub struct VoiceResponse {
    pub transcript: String,
    pub response: String,
    pub audio_url: Option<String>,
    pub processing_time_ms: u64,
}

/// Kinds of frames on the realtime connection.
#[derive(Debug, Clone, Copy, PartialEq, Eq, Structural)]
pub enum MessageType {
    Chat,
    VoiceData,
    StatusUpdate,
    Error,
    Ping,
    Pong,
}

} // verus!
