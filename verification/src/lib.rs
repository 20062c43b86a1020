//! Reglas de negocio de la operación de files turísticos: estados, cascadas,
//! fechas de vencimiento, distribución de pagos y saldos a favor.

pub mod paginacion;
pub mod texto;
pub mod estados;
pub mod cascada;
pub mod fechas;
pub mod pagos;
pub mod registro_pago;
pub mod contabilidad;
pub mod lectura;
pub mod edicion;
pub mod saldo;
pub mod confirmacion;
pub mod creacion;
pub mod tipos;
pub mod servicios;
pub mod usuarios;
pub mod precios;
pub mod asignacion;
pub mod notificaciones;
pub mod cambios;
pub mod chat;
pub mod mi_entidad;
pub mod unicidad;
pub mod proveedores;
