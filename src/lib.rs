//! Integer-level logic of a four-group bivariate Gaussian mixture sampler:
//! group labels, per-group counts and dataset validation, the burn-in /
//! record schedule of a chain run, and the order-statistic indices of the
//! posterior summary.

pub mod group;
pub mod labels;
pub mod quantile;
pub mod schedule;
