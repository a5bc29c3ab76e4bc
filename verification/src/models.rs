//! Data model: monitored services, users, and the request/response shapes of
//! the management endpoints.  Timestamps are carried as unix seconds.

use vstd::prelude::*;

verus! {

/// Failure of the external relational store.  The callers here never look
/// inside a store failure: every read or write either succeeded or did not.
pub struct StoreError;

/// One monitored service record as the service directory stores it.
pub struct Service {
    pub id: i64,
    pub service_name: String,
    pub healthcheck_url: String,
    /// Configured polling interval in seconds; non-positive values are
    /// normalized to a default when a polling loop is spawned.
    pub healthcheck_duration_seconds: i64,
    pub created_at: i64,
    pub updated_at: i64,
}

impl Clone for Service {
    fn clone(&self) -> (r: Self)
        ensures
            r == *self,
    {
        Service {
            id: self.id,
            service_name: self.service_name.clone(),
            healthcheck_url: self.healthcheck_url.clone(),
            healthcheck_duration_seconds: self.healthcheck_duration_seconds,
            created_at: self.created_at,
            updated_at: self.updated_at,
        }
    }
}

/// A stored account record.
pub struct User {
    pub id: i64,
    pub username: String,
    pub password: String,
    pub created_at: i64,
}

/// Credentials presented to the login endpoint.
pub struct LoginRequest {
    pub username: String,
    pub password: String,
}

/// Outcome handed back by the login endpoint.
pub struct LoginResponse {
    pub success: bool,
    pub message: String,
    pub redirect_url: Option<String>,
}

/// Data shown on the dashboard after login.
pub struct DashboardData {
    pub username: String,
    pub login_time: i64,
}

/// Payload for creating a service record.
pub struct CreateServiceRequest {
    pub service_name: String,
    pub healthcheck_url: String,
    pub healthcheck_duration_seconds: i64,
}

/// Payload for a partial update of a service record; absent fields keep
/// their stored value.
pub struct UpdateServiceRequest {
    pub service_name: Option<String>,
    pub healthcheck_url: Option<String>,
    pub healthcheck_duration_seconds: Option<i64>,
}

/// Payload for the password-change endpoint.
pub struct ChangePasswordRequest {
    pub current_password: String,
    pub new_password: String,
    pub confirm_password: String,
}

/// Outcome handed back by the password-change endpoint.
pub struct ChangePasswordResponse {
    pub success: bool,
    pub message: String,
}

/// Builds the service record that a create request describes.
pub fn new_service(id: i64, req: &CreateServiceRequest, now: i64) -> (s: Service)
    ensures
        s.id == id,
        s.service_name@ == req.service_name@,
        s.healthcheck_url@ == req.healthcheck_url@,
        s.healthcheck_duration_seconds == req.healthcheck_duration_seconds,
        s.created_at == now,
        s.updated_at == now,
{
    Service {
        id,
        service_name: req.service_name.clone(),
        healthcheck_url: req.healthcheck_url.clone(),
        healthcheck_duration_seconds: req.healthcheck_duration_seconds,
        created_at: now,
        updated_at: now,
    }
}

/// Applies a partial update to a stored service record: every field that the
/// request carries replaces the stored one, every absent field is kept, and
/// the update timestamp is refreshed.
pub fn apply_update(service: &Service, req: &UpdateServiceRequest, now: i64) -> (updated: Service)
    ensures
        updated.id == service.id,
        updated.created_at == service.created_at,
        updated.updated_at == now,
        updated.service_name@ == (match req.service_name {
            Option::Some(ref n) => n@,
            Option::None => service.service_name@,
        }),
        updated.healthcheck_url@ == (match req.healthcheck_url {
            Option::Some(ref u) => u@,
            Option::None => service.healthcheck_url@,
        }),
        updated.healthcheck_duration_seconds == (match req.healthcheck_duration_seconds {
            Option::Some(d) => d,
            Option::None => service.healthcheck_duration_seconds,
        }),
{
    let service_name = match &req.service_name {
        Option::Some(n) => n.clone(),
        Option::None => service.service_name.clone(),
    };
    let healthcheck_url = match &req.healthcheck_url {
        Option::Some(u) => u.clone(),
        Option::None => service.healthcheck_url.clone(),
    };
    let healthcheck_duration_seconds = match req.healthcheck_duration_seconds {
        Option::Some(d) => d,
        Option::None => service.healthcheck_duration_seconds,
    };
    Service {
        id: service.id,
        service_name,
        healthcheck_url,
        healthcheck_duration_seconds,
        created_at: service.created_at,
        updated_at: now,
    }
}

} // verus!
