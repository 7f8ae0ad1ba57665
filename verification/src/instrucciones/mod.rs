pub mod cerrar_evento;
pub mod comprar_tickets;
pub mod crear_evento;
pub mod sponsor;
pub mod withdraw_funds;
