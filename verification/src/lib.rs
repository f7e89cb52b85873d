//! The KVM backend of a virtual machine monitor, with its decisions verified.
//!
//! [`vm`] creates a VM, maps its memory and drives its interrupt lines;
//! [`vcpu`] runs a vCPU and decodes why it left the guest ([`exit`]); [`kick`]
//! forces a running vCPU out. Every ioctl and every signal is passed in
//! as a closure. A function's `requires` names the calls it may make, and its
//! `ensures` says what becomes of each answer.

pub mod error;
pub mod exit;
pub mod host;
pub mod irq;
pub mod kick;
pub mod kind;
pub mod memory;
pub mod slot_laws;
pub mod text;
pub mod vcpu;
pub mod vm;

pub use error::Error;
pub use exit::VcpuExit;
pub use memory::MemoryRegion;
pub use vcpu::{KvmVcpu, KvmVcpuHandle};
pub use vm::KvmVm;
