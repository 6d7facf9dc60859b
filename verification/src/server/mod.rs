//! The server's side of a device: from the commands of a client to what the
//! hardware is told.

pub mod generic_command_manager;
pub mod scalar_laws;
pub mod rotation_laws;
pub mod hardware;
pub mod libo_shark;
