//! Telling the PHP application that the shell has booted: the request that
//! carries the event, and the retries until it is delivered.
use vstd::prelude::*;
use vstd::string::StringExecFns;

use crate::php::{bridge_secret, bridge_secret_spec};
use crate::ports::{api_prefix, listen_address, loopback_address};

verus! {

/// How many times the boot event is sent at most.
pub const BOOT_ATTEMPTS: u32 = 10;

/// Seconds waited before each attempt.
pub const BOOT_RETRY_DELAY_SECS: u64 = 1;

/// The event that tells the PHP application that the shell has booted.
pub open spec fn boot_event_spec() -> Seq<char> {
    "Native\\Laravel\\Events\\App\\ApplicationBooted"@
}

/// Where the boot event is posted: the PHP server's `booted` route.
pub open spec fn boot_url_spec(php_port: u16) -> Seq<char> {
    "http://"@ + loopback_address(php_port) + api_prefix() + "booted"@
}

/// The request that carries the boot event: `method` to `url`, with the
/// shared secret in the header `header_name`, and a JSON body whose `event`
/// field is `event`.
#[derive(Debug, PartialEq, Eq)]
pub struct BootRequest {
    pub method: String,
    pub url: String,
    pub header_name: String,
    pub header_value: String,
    pub event: String,
}

/// The boot request for the PHP server on `php_port`.
pub fn boot_request(php_port: u16) -> (req: BootRequest)
    ensures
        req.method@ == "POST"@,
        req.url@ == boot_url_spec(php_port),
        req.header_name@ == "X-NativePHP-Secret"@,
        req.header_value@ == bridge_secret_spec(),
        req.event@ == boot_event_spec(),
{
    let url = "http://".to_owned().concat(listen_address(php_port).as_str()).concat(
        "/_native/api/booted",
    );
    proof {
        reveal_strlit("/_native/api/booted");
        reveal_strlit("/_native/api/");
        reveal_strlit("booted");
    }
    assert(url@ =~= boot_url_spec(php_port));
    BootRequest {
        method: "POST".to_owned(),
        url,
        header_name: "X-NativePHP-Secret".to_owned(),
        header_value: bridge_secret(),
        event: "Native\\Laravel\\Events\\App\\ApplicationBooted".to_owned(),
    }
}

/// What to do next about the boot event.
#[derive(Clone, Copy, Debug, PartialEq, Eq, Structural)]
pub enum BootStep {
    /// Wait `delay_secs` seconds, then send the event for the `attempt`-th time.
    Send { attempt: u32, delay_secs: u64 },
    /// Stop: the event was delivered, or every attempt failed.
    Finished,
}

/// Progress of the boot notification: attempts made, and whether one succeeded.
pub type BootProgress = (nat, bool);

/// Whether no further attempt is made.
pub open spec fn boot_finished(p: BootProgress) -> bool {
    p.1 || p.0 >= BOOT_ATTEMPTS
}

/// The next step for the given progress.
pub open spec fn boot_next_step(p: BootProgress) -> BootStep {
    if boot_finished(p) {
        BootStep::Finished
    } else {
        BootStep::Send { attempt: (p.0 + 1) as u32, delay_secs: BOOT_RETRY_DELAY_SECS }
    }
}

/// The progress after the outcome of an attempt is recorded; once finished,
/// further outcomes change nothing.
pub open spec fn boot_record(p: BootProgress, delivered: bool) -> BootProgress {
    if boot_finished(p) {
        p
    } else {
        ((p.0 + 1) as nat, delivered)
    }
}

/// The progress after recording `outcomes` in turn, from the start.
pub open spec fn boot_run(outcomes: Seq<bool>) -> BootProgress
    decreases outcomes.len(),
{
    if outcomes.len() == 0 {
        (0, false)
    } else {
        boot_record(boot_run(outcomes.drop_last()), outcomes.last())
    }
}

/// Drives the boot notification: the event is sent until it is delivered,
/// at most `BOOT_ATTEMPTS` times.
pub struct BootNotifier {
    attempts: u32,
    delivered: bool,
}

impl BootNotifier {
    #[verifier::type_invariant]
    spec fn attempts_bounded(self) -> bool {
        self.attempts <= BOOT_ATTEMPTS
    }

    /// Attempts made and whether one succeeded.
    pub closed spec fn progress(&self) -> BootProgress {
        (self.attempts as nat, self.delivered)
    }

    /// Nothing sent yet.
    pub fn new() -> (n: Self)
        ensures
            n.progress() == (0nat, false),
    {
        BootNotifier { attempts: 0, delivered: false }
    }

    /// What to do next.
    pub fn next_step(&self) -> (step: BootStep)
        ensures
            step == boot_next_step(self.progress()),
    {
        proof {
            use_type_invariant(self);
        }
        if self.delivered || self.attempts >= BOOT_ATTEMPTS {
            BootStep::Finished
        } else {
            BootStep::Send { attempt: self.attempts + 1, delay_secs: BOOT_RETRY_DELAY_SECS }
        }
    }

    /// Records whether the attempt just made delivered the event.
    pub fn record(&mut self, delivered: bool)
        ensures
            final(self).progress() == boot_record(old(self).progress(), delivered),
            final(self).progress().0 <= BOOT_ATTEMPTS,
    {
        proof {
            use_type_invariant(&*self);
        }
        if !(self.delivered || self.attempts >= BOOT_ATTEMPTS) {
            self.attempts = self.attempts + 1;
            self.delivered = delivered;
        }
        proof {
            use_type_invariant(&*self);
        }
    }
}

} // verus!
