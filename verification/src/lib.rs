//! Write path of a personal data repository whose accounts are bound to keys
//! held on an external ledger.

pub mod binding;
pub mod challenge;
pub mod collab;
pub mod commit;
pub mod content_id;
pub mod create_account;
pub mod crypto;
pub mod direct_writes;
pub mod entropy;
pub mod error;
pub mod hexcode;
pub mod index_action;
pub mod lexicon;
pub mod model;
pub mod plc_types;
pub mod pre_create_account;
pub mod pre_direct_writes;
pub mod pre_index_action;
pub mod resolver;
pub mod sequencer;
pub mod text;
pub mod write_flow;
pub mod writes;
