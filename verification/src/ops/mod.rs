pub mod caddy;
pub mod hugo;
pub mod sync;
pub mod upgrade;
pub mod caddy_deploy;
pub mod hugo_deploy;
