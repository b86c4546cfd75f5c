//! The health status that the running service shares with the health-check
//! command: a status cell that starts unhealthy, set from and read as a flag.

use vstd::prelude::*;

verus! {

/// The status kept in the shared cell.
#[derive(Debug, Clone, Copy, PartialEq, Eq, Structural)]
pub enum HealthCheckStatus {
    Healthy,
    Unhealthy,
}

impl Default for HealthCheckStatus {
    /// A cell that nobody has set yet reads as unhealthy.
    fn default() -> (r: Self)
        ensures
            r == HealthCheckStatus::Unhealthy,
    {
        HealthCheckStatus::Unhealthy
    }
}

/// The status that is stored for a health flag.
pub open spec fn status_of(is_healthy: bool) -> HealthCheckStatus {
    if is_healthy { HealthCheckStatus::Healthy } else { HealthCheckStatus::Unhealthy }
}

/// The health flag that a stored status reads as.
pub open spec fn health_of(status: HealthCheckStatus) -> bool {
    status == HealthCheckStatus::Healthy
}

/// A health check over the status cell: the value it holds is what the
/// service last stored, and the check reads it back.
#[derive(Debug, Clone, Copy, PartialEq, Eq, Structural)]
pub struct HealthCheck {
    pub status: HealthCheckStatus,
}

impl HealthCheck {
    /// A health check over a cell that holds `status`.
    pub fn new(status: HealthCheckStatus) -> (r: HealthCheck)
        ensures
            r.status == status,
    {
        HealthCheck { status }
    }

    /// The status to store for a health flag.
    pub fn status_for(is_healthy: bool) -> (r: HealthCheckStatus)
        ensures
            r == status_of(is_healthy),
    {
        if is_healthy { HealthCheckStatus::Healthy } else { HealthCheckStatus::Unhealthy }
    }

    /// Stores a health flag.
    pub fn set_healthy(&mut self, is_healthy: bool)
        ensures
            final(self).status == status_of(is_healthy),
    {
        self.status = Self::status_for(is_healthy);
    }

    /// Whether the stored status is healthy.
    pub fn check_if_healthy(&self) -> (r: bool)
        ensures
            r == health_of(self.status),
    {
        match self.status {
            HealthCheckStatus::Healthy => true,
            HealthCheckStatus::Unhealthy => false,
        }
    }
}

/// A check reads back the flag that was last stored.
pub proof fn lemma_check_reads_back_what_was_set(is_healthy: bool)
    ensures
        health_of(status_of(is_healthy)) == is_healthy,
{
}

/// A cell that was never set reads as unhealthy.
pub proof fn lemma_fresh_cell_is_unhealthy()
    ensures
        !health_of(HealthCheckStatus::Unhealthy),
{
}

} // verus!
