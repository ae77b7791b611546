//! Event bus handling for the cron domain.
//!
//! When the cron scheduler needs to deliver job output to a channel
//! (Telegram, Discord, Slack, etc.), it publishes a `CronDeliveryRequested`
//! event instead of directly constructing channel instances. The
//! [`CronDeliverySubscriber`] decides, for each event, whether and where the
//! output goes; the runtime then performs the send on the named channel.

use vstd::prelude::*;
use crate::event_bus::events::DomainEvent;
use crate::text::{ascii_lower, chars_of, lower_ascii, seq_eq, string_of};

verus! {

/// Subscribes to `CronDeliveryRequested` events and dispatches the output to
/// the named channel. It knows the channels by the (lower-case) names under
/// which they are registered. The names are kept in a `Vec`: vstd's
/// `HashMap` specifications hold only for key types that obey its key
/// model (`obeys_key_model`), which is established for integer keys and not
/// for `String`.
pub struct CronDeliverySubscriber {
    channels_by_name: Vec<String>,
}

/// What the subscriber decided for one event.
#[derive(Debug)]
pub enum DeliveryPlan {
    /// The event is not a delivery request.
    Ignore,
    /// Send `output` to `target` on the channel registered as `channel`.
    Send { job_id: String, channel: String, target: String, output: String },
    /// No channel is registered under `channel`, the lower-cased name that
    /// the request gave.
    NoChannel { job_id: String, channel: String },
}

/// True when `names` holds `name`.
pub open spec fn has_name(names: Seq<Seq<char>>, name: Seq<char>) -> bool {
    exists|i: int| 0 <= i < names.len() && names[i] == name
}

/// The decision of a subscriber that knows the channels `names`, for
/// `event`, as the views of the plan's fields.
pub open spec fn delivery_decision(names: Seq<Seq<char>>, event: DomainEvent, plan: DeliveryPlan) -> bool {
    match event {
        DomainEvent::CronDeliveryRequested { job_id, channel, target, output } => {
            let key = ascii_lower(channel@);
            if has_name(names, key) {
                plan matches DeliveryPlan::Send { job_id: j, channel: c, target: t, output: o }
                    && j@ == job_id@ && c@ == key && t@ == target@ && o@ == output@
            } else {
                plan matches DeliveryPlan::NoChannel { job_id: j, channel: c } && j@ == job_id@
                    && c@ == key
            }
        },
        _ => plan is Ignore,
    }
}

impl CronDeliverySubscriber {
    /// The names of the known channels.
    pub closed spec fn names(&self) -> Seq<Seq<char>> {
        self.channels_by_name@.map_values(|s: String| s@)
    }

    /// A subscriber for the channels registered under `channels_by_name`.
    pub fn new(channels_by_name: Vec<String>) -> (s: Self)
        ensures
            s.names() == channels_by_name@.map_values(|n: String| n@),
    {
        Self { channels_by_name }
    }

    /// The subscriber's name on the bus.
    pub fn name(&self) -> (n: &'static str)
        ensures
            n@ == "cron::delivery"@,
    {
        "cron::delivery"
    }

    /// The domains the subscriber listens to.
    pub fn domains(&self) -> (d: Option<Vec<&'static str>>)
        ensures
            d matches Some(v) && v@.len() == 1 && v@[0]@ == "cron"@,
    {
        Some(vec!["cron"])
    }

    /// True when a channel is registered under `name`.
    fn knows(&self, name: &Vec<char>) -> (b: bool)
        ensures
            b == has_name(self.names(), name@),
    {
        let mut i: usize = 0;
        while i < self.channels_by_name.len()
            invariant
                i <= self.channels_by_name@.len(),
                forall|k: int| 0 <= k < i ==> self.names()[k] != name@,
            decreases self.channels_by_name@.len() - i,
        {
            let candidate = chars_of(self.channels_by_name[i].as_str());
            if seq_eq(&candidate, name) {
                assert(self.names()[i as int] == name@);
                return true;
            }
            i = i + 1;
        }
        false
    }

    /// Decide what to do with `event`: a delivery request is routed to the
    /// channel registered under the ASCII-lower-cased channel name, or
    /// reported as having no channel; any other event is ignored.
    pub fn plan(&self, event: &DomainEvent) -> (p: DeliveryPlan)
        ensures
            delivery_decision(self.names(), *event, p),
    {
        match event {
            DomainEvent::CronDeliveryRequested { job_id, channel, target, output } => {
                let lowered = lower_ascii(&chars_of(channel.as_str()));
                let key = string_of(&lowered);
                if self.knows(&lowered) {
                    DeliveryPlan::Send {
                        job_id: job_id.clone(),
                        channel: key,
                        target: target.clone(),
                        output: output.clone(),
                    }
                } else {
                    DeliveryPlan::NoChannel { job_id: job_id.clone(), channel: key }
                }
            },
            _ => DeliveryPlan::Ignore,
        }
    }
}

} // verus!
