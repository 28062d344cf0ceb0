//! A value that a component either keeps itself or has kept for it.
//!
//! A controllable value has two possible owners. While the caller supplies a
//! value (the controlled input is `Some`), the caller owns it: reads return the
//! caller's value and writes are only reported to the caller. While the caller
//! supplies none, the value lives in an internal store that is seeded once from
//! a default; writes go to the store, and the store's observer reports every
//! change to a new concrete value exactly once.
//!
//! Everything here works on plain values. [`store`] holds the uncontrolled
//! store and [`facade`] the controllable value over it; both rest on the
//! decisions of [`rules`]. A reactive runtime keeps a
//! [`facade::ControllableValue`] in one of its cells, hands every access the
//! controlled input's present value, and does what the returned
//! [`facade::Notice`] says. [`separator`] computes the attributes of a
//! separator element.
pub mod rules;
pub mod store;
pub mod facade;
pub mod separator;
