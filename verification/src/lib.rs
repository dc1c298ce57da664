//! Domain core of a logistics back end: shipments and their status machine,
//! payments and webhook handling, complaints, users and the rules that the
//! services apply between repository calls.
pub mod text;
pub mod ids;
pub mod clock;
pub mod money;
pub mod error;
pub mod shipment_status;
pub mod payment_status;
pub mod support_status;
pub mod user_status;
pub mod reply;
pub mod address;
pub mod recipient;
pub mod package;
pub mod proof_of_delivery;
pub mod shipment;
pub mod payment;
pub mod support;
pub mod user;
pub mod gateway;
pub mod payment_rules;
pub mod shipment_rules;
pub mod support_rules;
pub mod user_rules;
pub mod jwt;
pub mod dto;
pub mod rows;
pub mod routes;
