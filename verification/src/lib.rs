//! Core of an indoor air-quality monitor: the SCD30 sensor wire protocol
//! (command framing, CRC-8 checksums, big-endian field reconstruction), the
//! cooperative priority scheduling of the sampling and alert tasks, and the
//! indication policy that maps a CO2 reading to a color and an alert decision.
//!
//! Floating-point readings are carried as their IEEE-754 single-precision bit
//! patterns (`u32`); the ordering the indication policy needs is modeled
//! exactly on those bits.

use vstd::prelude::*;

mod bus;
mod checksum;
mod data;
mod firmware_version;
mod indication;
mod scd30;
mod scheduler;
mod unit;

pub use bus::Bus;
pub use bus::SimBus;
pub use bus::SimReply;
pub use bus::Transaction;
pub use bus::TransportError;
pub use checksum::crc8;
pub use checksum::crc8_compute;
pub use checksum::crc8_feed;
pub use checksum::crc8_over;
pub use checksum::crc8_step;
pub use checksum::crc8_steps;
pub use data::Data;
pub use data::be_u16;
pub use data::be_u32;
pub use data::decode_measurement;
pub use data::decode_measurement_spec;
pub use firmware_version::FirmwareVersion;
pub use indication::CO2_ALERT_BITS;
pub use indication::CO2_RED_BITS;
pub use indication::CO2_YELLOW_BITS;
pub use indication::IndicatorState;
pub use indication::classify;
pub use indication::classify_spec;
pub use indication::indicator_levels;
pub use indication::indicator_levels_spec;
pub use indication::f32_eq;
pub use indication::f32_gt;
pub use indication::f32_is_nan;
pub use indication::f32_le;
pub use indication::f32_lt;
pub use indication::f32_mag;
pub use indication::f32_sign;
pub use indication::lemma_classify_alert;
pub use indication::lemma_classify_green;
pub use indication::lemma_classify_red_quiet;
pub use indication::lemma_classify_yellow;
pub use scd30::DEFAULT_ADDRESS;
pub use scd30::SCD30;
pub use scd30::data_ready_command;
pub use scd30::firmware_version_command;
pub use scd30::lemma_start_frame_checksum;
pub use scd30::read_measurement_command;
pub use scd30::start_measurement_frame;
pub use scheduler::ALERT_BURST_MS;
pub use scheduler::Action;
pub use scheduler::CyclePlan;
pub use scheduler::SAMPLE_PERIOD_MS;
pub use scheduler::Scheduler;
pub use scheduler::TaskState;
pub use scheduler::lemma_alert_coalesced;
pub use scheduler::lemma_alert_has_priority;
pub use scheduler::lemma_no_overlapping_firings;
pub use scheduler::lemma_sample_firing_deferred;
pub use scheduler::lemma_wf_preserved;
pub use scheduler::plan_cycle;
pub use scheduler::plan_cycle_spec;
pub use unit::Unit;
