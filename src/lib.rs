//! Persistence-integrity core of a small inventory and sales application:
//! validation and planning of atomic sales, forward-only schema migration
//! planning, and the checks and steps of backup and restore of the store file.

pub mod categorias;
pub mod models;
pub mod esquema;
pub mod fechas;
pub mod marca;
pub mod respaldo;
pub mod rutas;
pub mod texto;
pub mod venta;
