//! Client-side core of `kudoctl`: the layered configuration resolver and the
//! instance resource client of the Kudo cluster controller.

pub mod config;
pub mod instance;
