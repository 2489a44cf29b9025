//! Deadlines the stack must act upon: a link-open timeout and the earliest
//! outbound and inbound segmentation expirations.

use vstd::prelude::*;

verus! {

/// What a deadline is for.
#[derive(Copy, Clone, Debug, PartialEq, Eq, Structural)]
pub enum WatchdogEvent {
    LinkOpenTimeout,
    OutboundExpiration(u16),
    InboundExpiration(u16),
}

/// A deadline: an instant, in ticks, and its event.
#[derive(Copy, Clone, Debug, PartialEq, Eq, Structural)]
pub struct Deadline {
    pub at: u64,
    pub event: WatchdogEvent,
}

/// The earlier of two optional deadlines; when both are set at the same
/// instant there is none.
pub open spec fn spec_earliest(left: Option<Deadline>, right: Option<Deadline>) -> Option<Deadline> {
    match (left, right) {
        (None, Some(_)) => right,
        (Some(_), None) => left,
        (Some(l), Some(r)) => if l.at < r.at {
            left
        } else if r.at < l.at {
            right
        } else {
            None
        },
        (None, None) => None,
    }
}

/// Keeps the earlier of the current deadline and `(at, event)`: the new one
/// replaces the current one unless the current one is strictly earlier.
pub open spec fn keep_earlier(current: Option<Deadline>, at: u64, event: WatchdogEvent) -> Option<Deadline> {
    match current {
        Some(c) => if c.at < at {
            current
        } else {
            Some(Deadline { at, event })
        },
        None => Some(Deadline { at, event }),
    }
}

/// The pending deadlines of the stack.
#[derive(Copy, Clone, Debug, PartialEq, Eq, Structural)]
pub struct Watchdog {
    pub link_opening_timeout: Option<Deadline>,
    pub outbound_expiration: Option<Deadline>,
    pub inbound_expiration: Option<Deadline>,
}

impl Watchdog {
    /// A watchdog with no deadline.
    pub fn new() -> (w: Watchdog)
        ensures
            w.link_opening_timeout is None,
            w.outbound_expiration is None,
            w.inbound_expiration is None,
    {
        Watchdog { link_opening_timeout: None, outbound_expiration: None, inbound_expiration: None }
    }

    /// The earlier of two optional deadlines, none when they coincide.
    pub fn earliest(left: Option<Deadline>, right: Option<Deadline>) -> (r: Option<Deadline>)
        ensures
            r == spec_earliest(left, right),
    {
        match (left, right) {
            (None, Some(_)) => right,
            (Some(_), None) => left,
            (Some(l), Some(r)) => {
                if l.at < r.at {
                    left
                } else if r.at < l.at {
                    right
                } else {
                    None
                }
            },
            (None, None) => None,
        }
    }

    /// The deadline to wait for next.
    pub open spec fn spec_next(&self) -> Option<Deadline> {
        spec_earliest(
            spec_earliest(None, self.link_opening_timeout),
            spec_earliest(self.outbound_expiration, self.inbound_expiration),
        )
    }

    /// The deadline to wait for next, if any.
    pub fn next(&self) -> (r: Option<Deadline>)
        ensures
            r == self.spec_next(),
    {
        Watchdog::earliest(
            Watchdog::earliest(None, self.link_opening_timeout),
            Watchdog::earliest(self.outbound_expiration, self.inbound_expiration),
        )
    }

    /// Sets the link-open timeout.
    pub fn link_opening_timeout(&mut self, expiration: u64)
        ensures
            *final(self) == (Watchdog {
                link_opening_timeout: Some(Deadline { at: expiration, event: WatchdogEvent::LinkOpenTimeout }),
                ..*old(self)
            }),
    {
        self.link_opening_timeout = Some(Deadline { at: expiration, event: WatchdogEvent::LinkOpenTimeout });
    }

    /// Clears the link-open timeout.
    pub fn clear_link_open_timeout(&mut self)
        ensures
            *final(self) == (Watchdog { link_opening_timeout: None, ..*old(self) }),
    {
        self.link_opening_timeout = None;
    }

    /// Records an outbound expiration, keeping the earlier one.
    pub fn outbound_expiration(&mut self, expiration: (u64, u16))
        ensures
            *final(self) == (Watchdog {
                outbound_expiration: keep_earlier(
                    old(self).outbound_expiration,
                    expiration.0,
                    WatchdogEvent::OutboundExpiration(expiration.1),
                ),
                ..*old(self)
            }),
    {
        if let Some(current) = self.outbound_expiration {
            if current.at < expiration.0 {
                return ;
            }
            self.outbound_expiration = Some(Deadline { at: expiration.0, event: WatchdogEvent::OutboundExpiration(expiration.1) });
        } else {
            self.outbound_expiration = Some(Deadline { at: expiration.0, event: WatchdogEvent::OutboundExpiration(expiration.1) });
        }
    }

    /// Records an inbound expiration, keeping the earlier one.
    pub fn inbound_expiration(&mut self, expiration: (u64, u16))
        ensures
            *final(self) == (Watchdog {
                inbound_expiration: keep_earlier(
                    old(self).inbound_expiration,
                    expiration.0,
                    WatchdogEvent::InboundExpiration(expiration.1),
                ),
                ..*old(self)
            }),
    {
        if let Some(current) = self.inbound_expiration {
            if current.at < expiration.0 {
                return ;
            }
            self.inbound_expiration = Some(Deadline { at: expiration.0, event: WatchdogEvent::InboundExpiration(expiration.1) });
        } else {
            self.inbound_expiration = Some(Deadline { at: expiration.0, event: WatchdogEvent::InboundExpiration(expiration.1) });
        }
    }

    /// Clears the outbound expiration if it is the one of `seq_zero`.
    pub fn clear_outbound_expiration(&mut self, seq_zero: u16)
        ensures
            *final(self) == (if old(self).outbound_expiration matches Some(Deadline { event: WatchdogEvent::OutboundExpiration(c), .. })
                && c == seq_zero {
                Watchdog { outbound_expiration: None, ..*old(self) }
            } else {
                *old(self)
            }),
    {
        if let Some(Deadline { event: WatchdogEvent::OutboundExpiration(current), .. }) = self.outbound_expiration {
            if current == seq_zero {
                self.outbound_expiration = None;
            }
        }
    }

    /// Clears the inbound expiration if it is the one of `seq_zero`.
    pub fn clear_inbound_expiration(&mut self, seq_zero: u16)
        ensures
            *final(self) == (if old(self).inbound_expiration matches Some(Deadline { event: WatchdogEvent::InboundExpiration(c), .. })
                && c == seq_zero {
                Watchdog { inbound_expiration: None, ..*old(self) }
            } else {
                *old(self)
            }),
    {
        if let Some(Deadline { event: WatchdogEvent::InboundExpiration(current), .. }) = self.inbound_expiration {
            if current == seq_zero {
                self.inbound_expiration = None;
            }
        }
    }

    /// Takes an expired event: clears the deadline it came from and returns it.
    pub fn take(&mut self, event: WatchdogEvent) -> (r: WatchdogEvent)
        ensures
            r == event,
            match event {
                WatchdogEvent::LinkOpenTimeout => *final(self) == (Watchdog {
                    link_opening_timeout: None,
                    ..*old(self)
                }),
                WatchdogEvent::OutboundExpiration(s) => (if old(self).outbound_expiration matches Some(Deadline { event: WatchdogEvent::OutboundExpiration(c), .. })
                    && c == s {
                    *final(self) == Watchdog { outbound_expiration: None, ..*old(self) }
                } else {
                    *final(self) == *old(self)
                }),
                WatchdogEvent::InboundExpiration(s) => (if old(self).inbound_expiration matches Some(Deadline { event: WatchdogEvent::InboundExpiration(c), .. })
                    && c == s {
                    *final(self) == Watchdog { inbound_expiration: None, ..*old(self) }
                } else {
                    *final(self) == *old(self)
                }),
            },
    {
        match event {
            WatchdogEvent::LinkOpenTimeout => self.clear_link_open_timeout(),
            WatchdogEvent::OutboundExpiration(seq_zero) => self.clear_outbound_expiration(seq_zero),
            WatchdogEvent::InboundExpiration(seq_zero) => self.clear_inbound_expiration(seq_zero),
        }
        event
    }
}

/// A recorded expiration is never later than the one just recorded, and it
/// is never later than the one recorded before.
pub proof fn lemma_keep_earlier(current: Option<Deadline>, at: u64, event: WatchdogEvent)
    ensures
        keep_earlier(current, at, event) is Some,
        keep_earlier(current, at, event).unwrap().at <= at,
        current matches Some(c) ==> keep_earlier(current, at, event).unwrap().at <= c.at,
{
}

} // verus!
