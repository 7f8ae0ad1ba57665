pub mod evento;

pub use evento::Evento;
