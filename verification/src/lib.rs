//! Verified core of a lightweight launcher that keeps a companion executable
//! and its configuration file present and current on disk, and that turns
//! global-shortcut firings into actions.
//!
//! The crate models the two coordination-bearing subsystems as data and
//! verified transition functions:
//!
//! - the resource integrity watchdog: a probe over the two managed files, a
//!   reconciliation step that rewrites whatever is missing or stale from an
//!   in-memory payload, and a monitor/healer pair coupled by two single-slot
//!   rendezvous channels;
//! - the hotkey dispatch loop: ordered registration of shortcut bindings, a
//!   cooperative poll step, drain-on-stop, and the stateful "bring the running
//!   instance to front" binding.
//!
//! Filesystem, process and window-system effects are performed by a thin
//! unverified driver; this crate owns every decision the driver acts on.

pub mod dispatcher;
pub mod invoker;
pub mod resource;
pub mod settings;
pub mod supervisor;
pub mod text;
pub mod tracker;
