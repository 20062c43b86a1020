//! Notificaciones: a quién se reparte una notificación, qué filtros se usan
//! para listar las de un usuario, y los textos de los avisos del sistema.

use vstd::prelude::*;
use crate::tipos::{NotificationFilters, CountByType};
use crate::texto::{texto, unir};
use crate::cambios::CamposCambiados;

verus! {

/// A quién se reparte una notificación.
#[derive(Debug, Clone)]
pub enum Destinatarios {
    /// A un usuario.
    Usuario(i32),
    /// A los usuarios con esos roles.
    Roles(Vec<String>),
    /// A todos los usuarios activos.
    Todos,
}

/// Una notificación dirigida a un usuario va solo a él; si no, a los roles
/// indicados; sin ninguno de los dos, a todos.
pub fn destinatarios(usuario: Option<i32>, roles: Option<Vec<String>>) -> (r: Destinatarios)
    ensures
        match usuario {
            Some(u) => r matches Destinatarios::Usuario(x) && x == u,
            None => match roles {
                Some(rs) => r matches Destinatarios::Roles(v) && v@ == rs@,
                None => r matches Destinatarios::Todos,
            },
        },
{
    match usuario {
        Some(u) => Destinatarios::Usuario(u),
        None => match roles {
            Some(rs) => Destinatarios::Roles(rs),
            None => Destinatarios::Todos,
        },
    }
}

/// Los filtros de las notificaciones de un usuario: nunca las descartadas y,
/// si se piden solo las no leídas, solo esas.
pub fn filtros_de_usuario(solo_no_leidas: bool) -> (r: NotificationFilters)
    ensures
        r.notification_type is None,
        r.category is None,
        r.priority is None,
        r.is_read == (if solo_no_leidas { Some(false) } else { None::<bool> }),
        r.is_dismissed == Some(false),
{
    NotificationFilters {
        notification_type: None,
        category: None,
        priority: None,
        is_read: if solo_no_leidas { Some(false) } else { None },
        is_dismissed: Some(false),
    }
}

/// El aviso de un inicio de sesión: con la IP si se conoce.
pub fn mensaje_de_inicio_de_sesion(ip: Option<&str>) -> (r: String)
    ensures
        r@ == match ip {
            Some(i) => "Inicio de sesión desde IP: "@ + i@,
            None => "Inicio de sesión detectado"@,
        },
{
    proof {
        reveal_strlit("Inicio de sesión desde IP: ");
        reveal_strlit("Inicio de sesión detectado");
    }
    match ip {
        Some(i) => unir(texto("Inicio de sesión desde IP: "), i),
        None => texto("Inicio de sesión detectado"),
    }
}

/// Qué le pasó a una entidad del sistema.
#[derive(Debug, Clone, Copy, PartialEq, Eq, Structural)]
pub enum Evento {
    Creada,
    Actualizada,
    Eliminada,
}

/// El título y el mensaje del aviso a los administradores sobre una entidad.
pub open spec fn spec_aviso_de_entidad(evento: Evento, tipo: Seq<char>, nombre: Seq<char>) -> (Seq<char>, Seq<char>) {
    match evento {
        Evento::Creada => ("Nuevo "@ + tipo + " creado"@, "Se ha creado un nuevo "@ + tipo + ": "@ + nombre),
        Evento::Actualizada => (tipo + " actualizado"@, "Se ha actualizado "@ + tipo + ": "@ + nombre),
        Evento::Eliminada => (tipo + " eliminado"@, "Se ha eliminado "@ + tipo + ": "@ + nombre),
    }
}

/// Escribe el título y el mensaje del aviso sobre una entidad.
pub fn aviso_de_entidad(evento: Evento, tipo: &str, nombre: &str) -> (r: (String, String))
    ensures
        (r.0@, r.1@) == spec_aviso_de_entidad(evento, tipo@, nombre@),
{
    proof {
        reveal_strlit("Nuevo ");
        reveal_strlit(" creado");
        reveal_strlit("Se ha creado un nuevo ");
        reveal_strlit(": ");
        reveal_strlit(" actualizado");
        reveal_strlit("Se ha actualizado ");
        reveal_strlit(" eliminado");
        reveal_strlit("Se ha eliminado ");
    }
    match evento {
        Evento::Creada => {
            let t = unir(unir(texto("Nuevo "), tipo), " creado");
            let m = unir(unir(unir(texto("Se ha creado un nuevo "), tipo), ": "), nombre);
            (t, m)
        },
        Evento::Actualizada => {
            let t = unir(texto(tipo), " actualizado");
            let m = unir(unir(unir(texto("Se ha actualizado "), tipo), ": "), nombre);
            (t, m)
        },
        Evento::Eliminada => {
            let t = unir(texto(tipo), " eliminado");
            let m = unir(unir(unir(texto("Se ha eliminado "), tipo), ": "), nombre);
            (t, m)
        },
    }
}

/// La suma de los conteos.
pub open spec fn suma_conteos(cs: Seq<CountByType>) -> int
    decreases cs.len(),
{
    if cs.len() == 0 {
        0
    } else {
        suma_conteos(cs.drop_last()) + cs.last().count
    }
}

/// ¿Caben en `i64` todas las sumas parciales de los conteos?
pub open spec fn sumas_parciales_caben(cs: Seq<CountByType>) -> bool {
    forall|n: int| 0 <= n <= cs.len() ==> i64::MIN <= #[trigger] suma_conteos(cs.take(n)) <= i64::MAX
}

/// El total de registros de actividad: la suma de los conteos por tipo.
pub fn total_de_conteos(cs: &Vec<CountByType>) -> (r: i64)
    requires
        sumas_parciales_caben(cs@),
    ensures
        r == suma_conteos(cs@),
{
    let mut s: i64 = 0;
    let mut i: usize = 0;
    while i < cs.len()
        invariant
            i <= cs.len(),
            sumas_parciales_caben(cs@),
            s == suma_conteos(cs@.take(i as int)),
        decreases cs.len() - i,
    {
        assert(cs@.take(i as int + 1).drop_last() == cs@.take(i as int));
        assert(cs@.take(i as int + 1).last() == cs@[i as int]);
        assert(i64::MIN <= suma_conteos(cs@.take(i as int + 1)) <= i64::MAX);
        s = s + cs[i].count;
        i = i + 1;
    }
    assert(cs@.take(cs.len() as int) == cs@);
    s
}

/// Prioridad de una notificación.
#[derive(Debug, Clone, Copy, PartialEq, Eq, Structural)]
pub enum Prioridad {
    Baja,
    Normal,
    Alta,
    Urgente,
}

/// La clase de registro que se actualizó.
#[derive(Debug, Clone, Copy, PartialEq, Eq, Structural)]
pub enum EntidadActualizada {
    Agencia,
    CadenaHotelera,
    Conductor,
    Entrada,
    File,
    Guia,
    Hotel,
    Pago,
    Restaurante,
    Tour,
    Transporte,
    Vehiculo,
}

/// El aviso a los administradores por una actualización: si se envía y con
/// qué prioridad, según los campos que cambiaron. Sube a normal cuando cambia
/// el SOAT de un conductor, los idiomas o especialidades de un guía, o el
/// nombre, el tipo de atención o la capacidad de un restaurante. Un file, un
/// pago o un tour sin cambios no se avisan; el cambio de estado de un file es
/// de prioridad alta, como todo cambio de un pago.
pub open spec fn spec_prioridad_de_actualizacion(e: EntidadActualizada, campos: Seq<Seq<char>>) -> Option<
    Prioridad,
> {
    match e {
        EntidadActualizada::Conductor => Some(
            if campos.contains("tiene_soat"@) {
                Prioridad::Normal
            } else {
                Prioridad::Baja
            },
        ),
        EntidadActualizada::Guia => Some(
            if campos.contains("idiomas"@) || campos.contains("especialidades"@) {
                Prioridad::Normal
            } else {
                Prioridad::Baja
            },
        ),
        EntidadActualizada::Restaurante => Some(
            if campos.contains("nombre"@) || campos.contains("tipo_atencion"@) || campos.contains("capacidad"@) {
                Prioridad::Normal
            } else {
                Prioridad::Baja
            },
        ),
        EntidadActualizada::File => if campos.len() == 0 {
            None
        } else if campos.contains("status"@) {
            Some(Prioridad::Alta)
        } else {
            Some(Prioridad::Normal)
        },
        EntidadActualizada::Pago => if campos.len() == 0 {
            None
        } else {
            Some(Prioridad::Alta)
        },
        EntidadActualizada::Tour => if campos.len() == 0 {
            None
        } else {
            Some(Prioridad::Baja)
        },
        _ => Some(Prioridad::Baja),
    }
}

/// Decide el aviso por una actualización (`None`: no se avisa).
pub fn prioridad_de_actualizacion(e: EntidadActualizada, campos: &CamposCambiados) -> (r: Option<Prioridad>)
    ensures
        r == spec_prioridad_de_actualizacion(e, campos.nombres()),
{
    proof {
        reveal_strlit("tiene_soat");
        reveal_strlit("idiomas");
        reveal_strlit("especialidades");
        reveal_strlit("nombre");
        reveal_strlit("tipo_atencion");
        reveal_strlit("capacidad");
        reveal_strlit("status");
    }
    let vacio = campos.campos.len() == 0;
    match e {
        EntidadActualizada::Conductor => Some(
            if campos.incluye("tiene_soat") {
                Prioridad::Normal
            } else {
                Prioridad::Baja
            },
        ),
        EntidadActualizada::Guia => Some(
            if campos.incluye("idiomas") || campos.incluye("especialidades") {
                Prioridad::Normal
            } else {
                Prioridad::Baja
            },
        ),
        EntidadActualizada::Restaurante => Some(
            if campos.incluye("nombre") || campos.incluye("tipo_atencion") || campos.incluye("capacidad") {
                Prioridad::Normal
            } else {
                Prioridad::Baja
            },
        ),
        EntidadActualizada::File => if vacio {
            None
        } else if campos.incluye("status") {
            Some(Prioridad::Alta)
        } else {
            Some(Prioridad::Normal)
        },
        EntidadActualizada::Pago => if vacio {
            None
        } else {
            Some(Prioridad::Alta)
        },
        EntidadActualizada::Tour => if vacio {
            None
        } else {
            Some(Prioridad::Baja)
        },
        _ => Some(Prioridad::Baja),
    }
}

/// ¿Se avisa al dueño de una cuenta que se actualizó? Solo si la actualizó
/// otro usuario.
pub fn se_avisa_al_dueno(id_cuenta: i32, actualizado_por: i32) -> (r: bool)
    ensures
        r == (id_cuenta != actualizado_por),
{
    id_cuenta != actualizado_por
}

} // verus!
