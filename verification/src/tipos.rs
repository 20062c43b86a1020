//! Tipos de datos que intercambian los servicios con sus repositorios y
//! gestores: conteos, filtros, resultados de limpieza, alcances de listados
//! y tokens de sesión.

use vstd::prelude::*;

verus! {

/// Un conteo agrupado por clave.
#[derive(Debug, Clone)]
pub struct CountByType {
    pub key: String,
    pub count: i64,
}

/// Filtros de las notificaciones de un usuario.
#[derive(Debug, Clone, Default)]
pub struct NotificationFilters {
    pub notification_type: Option<String>,
    pub category: Option<String>,
    pub priority: Option<String>,
    pub is_read: Option<bool>,
    pub is_dismissed: Option<bool>,
}

/// Un conteo de notificaciones por prioridad.
#[derive(Debug, Clone)]
pub struct PriorityCount {
    pub priority: String,
    pub count: i64,
}

/// Lo borrado en una limpieza de notificaciones.
#[derive(Debug, Clone, Default)]
pub struct CleanupResult {
    pub deleted_expired: i64,
    pub deleted_low: i64,
    pub deleted_normal: i64,
    pub deleted_high: i64,
    pub deleted_urgent: i64,
    pub total_deleted: i64,
}

/// Qué personas puede listar un usuario según su rol.
#[derive(Debug)]
pub enum PersonaListScope {
    /// Sin restricción (superadministradores y administradores).
    All,
    /// Los gerentes ven las personas que crearon o que tienen usuarios en su entidad.
    GerenteScope { created_by_user_id: i32, id_entidad: i32 },
    /// Nada: gerentes sin entidad válida.
    Empty,
}

/// Qué usuarios puede listar un usuario según su rol.
#[derive(Debug)]
pub enum UserListScope {
    /// Sin restricción (superadministradores y administradores).
    All,
    /// Los usuarios de una agencia.
    AgenciaScope { id_entidad: i32 },
    /// Los gerentes de cadena de la cadena, y los gerentes y usuarios de sus hoteles.
    HotelCadenaScope { id_cadena: i32 },
    /// Los gerentes y usuarios de un hotel.
    HotelScope { id_hotel: i32 },
    /// Nada: gerentes sin entidad válida.
    Empty,
}

/// Un token de sesión generado.
#[derive(Debug, Clone)]
pub struct SessionTokenData {
    /// Token opaco que recibe el cliente.
    pub token: String,
    /// Hash del token, el que se guarda.
    pub token_hash: String,
}

} // verus!
