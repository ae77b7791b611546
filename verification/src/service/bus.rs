//! The subscriber that turns restart requests into a process respawn.

use vstd::prelude::*;
use crate::event_bus::events::DomainEvent;

verus! {

/// Long-lived event-bus subscriber that turns restart requests into a real
/// process respawn.
///
/// It is registered during core bootstrap so any restart request published
/// from RPC, CLI, or another internal component goes through the same
/// execution path. This type decides which events are restart requests;
/// the runtime performs the respawn.
pub struct RestartSubscriber;

impl RestartSubscriber {
    /// The subscriber's name on the bus.
    pub fn name(&self) -> (n: &'static str)
        ensures
            n@ == "service::restart"@,
    {
        "service::restart"
    }

    /// The domains the subscriber listens to.
    pub fn domains(&self) -> (d: Option<Vec<&'static str>>)
        ensures
            d matches Some(v) && v@.len() == 1 && v@[0]@ == "system"@,
    {
        Some(vec!["system"])
    }

    /// The `(source, reason)` of a restart request, or `None` for any other
    /// event.
    pub fn restart_request(&self, event: &DomainEvent) -> (r: Option<(String, String)>)
        ensures
            match *event {
                DomainEvent::SystemRestartRequested { source, reason } => r matches Some(
                    (s, w),
                ) && s@ == source@ && w@ == reason@,
                _ => r is None,
            },
    {
        match event {
            DomainEvent::SystemRestartRequested { source, reason } => Some(
                (source.clone(), reason.clone()),
            ),
            _ => None,
        }
    }
}

} // verus!
