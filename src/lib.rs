//! Request types for creating a checkout session, and their verified
//! form encoding.

pub mod checkout_session;
pub mod form;
pub mod values;
