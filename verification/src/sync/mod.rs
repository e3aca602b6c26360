//! Kernel inter-thread communication objects.

pub mod mq;
