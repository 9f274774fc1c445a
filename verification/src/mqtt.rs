//! Plain settings of the MQTT client that runs its work through the
//! reactor, and what it does with a message that is to be published.

use vstd::prelude::*;

verus! {

/// What the client keeps of its configuration once it is built.
pub struct MqttConfigEx {
    /// Whether messages wait for the connection instead of failing.
    pub offline_queue: bool,
}

impl Default for MqttConfigEx {
    fn default() -> (r: Self)
        ensures
            !r.offline_queue,
    {
        MqttConfigEx { offline_queue: false }
    }
}

/// What happens to a message that is to be published.
#[derive(Clone, Copy, Debug, PartialEq, Eq, Structural)]
pub enum PublishPlan {
    /// It is sent now.
    Send,
    /// It waits until the connection stands.
    Queue,
    /// It is refused: there is no connection and nothing waits.
    Refuse,
}

impl MqttConfigEx {
    /// What happens to a message: it is sent where the connection stands,
    /// and where the client waits offline only once it has connected
    /// before; else it waits, where waiting is on; else it is refused.
    pub fn publish_plan(&self, has_connected: bool, is_connected: bool) -> (r: PublishPlan)
        ensures
            r == if (has_connected || !self.offline_queue) && is_connected {
                PublishPlan::Send
            } else if self.offline_queue {
                PublishPlan::Queue
            } else {
                PublishPlan::Refuse
            },
    {
        if (has_connected || !self.offline_queue) && is_connected {
            PublishPlan::Send
        } else if self.offline_queue {
            PublishPlan::Queue
        } else {
            PublishPlan::Refuse
        }
    }
}

} // verus!
