//! A small hardware-abstraction layer over memory-mapped 32-bit peripheral
//! registers, modelled on plain register words so that every update can be
//! verified: GPIO pin configuration (mode, speed, alternate function) packed
//! into shared configuration registers, and interrupt enabling across a bank
//! of enable registers.

pub mod fields;
pub mod gpio;
pub mod nvic;
