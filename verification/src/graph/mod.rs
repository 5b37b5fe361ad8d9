//! Navigation layout graphs.
pub mod layout;
pub mod vda_lif;
