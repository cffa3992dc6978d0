//! The two interfaces of an instance: the directory of plots and
//! instances, and the trust lists with the transfers they admit.

pub mod baton;
pub mod instance;
