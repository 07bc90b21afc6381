//! Core of a desktop Pomodoro timer: a single countdown record that is
//! started, paused, reset and reconfigured by foreground commands, queried
//! with on-the-fly reconciliation of elapsed wall-clock time, and watched by
//! a periodic poller that detects expiry.
//!
//! Wall-clock time never enters the library directly: every operation that
//! needs it takes the current instant as a plain `u64` (whole seconds on a
//! monotonic clock), so the whole state machine is a total, verified
//! function of its inputs. The surrounding process owns the clock, the lock
//! around the shared record, and the delivery of the expiry notification.

pub mod laws;
pub mod timer;
