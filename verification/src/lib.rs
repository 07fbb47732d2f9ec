//! Control logic of a neural amp modeler plug-in.
//!
//! The host runs two threads. The main thread loads models and impulse responses, restores saved
//! states and looks after what the audio thread asks for ([`main_thread`], [`restore`],
//! [`housekeeping`], [`chores`]). The audio thread takes commands at the start of each callback
//! ([`events`], [`callback`]), cuts each block at the events of the host ([`schedule`]) and leads
//! its samples past or through the chain ([`orchestrator`], [`sub_block`]). Commands travel
//! through a ring with sequence numbers and acknowledgments ([`command_scheduler`]).
//!
//! A change of latency is never made while the host does not expect it: what would change it
//! waits until the host restarts the plug-in ([`activation`]).
//!
//! What holds across functions is stated as laws, in modules of their own: of the samples of a block
//! ([`block_laws`]), the host's events ([`event_laws`]), commands and callbacks ([`command_laws`],
//! [`rt_laws`]), activations ([`activation_laws`]), loading ([`load_laws`], [`main_laws`]), the
//! session ([`session_laws`]), and what the GUI, the host and the log are told ([`gui_laws`]).
//!
//! Models, resamplers and engines are built and run elsewhere. Here they are handles together
//! with the figures that decisions depend on ([`payload`]).

pub mod activation;
pub mod activation_laws;
pub mod block_laws;
pub mod callback;
pub mod channels;
pub mod chores;
pub mod command_laws;
pub mod command_scheduler;
pub mod crossfade;
pub mod dry_delay;
pub mod errors;
pub mod event_laws;
pub mod events;
pub mod gestures;
pub mod gui;
pub mod gui_laws;
pub mod housekeeping;
pub mod instances;
pub mod load_laws;
pub mod logging;
pub mod main_laws;
pub mod main_thread;
pub mod metadata;
pub mod orchestrator;
pub mod params;
pub mod payload;
pub mod processor;
pub mod restore;
pub mod ring;
pub mod rt_laws;
pub mod schedule;
pub mod session_laws;
pub mod shared;
pub mod status;
pub mod sub_block;
