//! Event management: creation of events, sponsorship, ticket sales with a
//! presale discount, withdrawal of the treasury, and closing of sales.
//!
//! Every instruction is a verified transition over the event account and the
//! plain values of the accounts it reads; the token movements it asks for are
//! returned as `TokenInstruction`s for the caller to carry out.

pub mod collections;
pub mod cuentas;
pub mod gestion_de_eventos;
pub mod instrucciones;
pub mod leyes;
pub mod utils;
