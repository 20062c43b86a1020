//! La entidad propia de un usuario (su agencia, su hotel o su cadena
//! hotelera): en qué orden se busca y qué se responde si no la tiene.

use vstd::prelude::*;
use crate::creacion::UserRole;
use crate::texto::texto;

verus! {

/// La clase de entidad que se busca.
#[derive(Debug, Clone, Copy, PartialEq, Eq, Structural)]
pub enum EntidadPropia {
    Agencia,
    Hotel,
    CadenaHotelera,
}

/// Una búsqueda en el repositorio de la entidad.
#[derive(Debug, Clone, Copy, PartialEq, Eq, Structural)]
pub enum Busqueda {
    /// Por el id de la entidad del usuario.
    PorId(i32),
    /// Por la persona encargada de la entidad.
    PorEncargado(i32),
}

/// ¿El rol está ligado a esa clase de entidad por su id de entidad?
pub open spec fn rol_de(tipo: EntidadPropia, rol: UserRole) -> bool {
    match tipo {
        EntidadPropia::Agencia => rol == UserRole::Agencias || rol == UserRole::AgenciasContador,
        EntidadPropia::Hotel => rol == UserRole::Hoteles,
        EntidadPropia::CadenaHotelera => rol == UserRole::HotelesGerenteCadena,
    }
}

/// Las búsquedas, en orden: primero por el id de entidad, si el rol está
/// ligado a esa clase de entidad y el usuario tiene uno; después por el
/// encargado, si el usuario es una persona (no para hoteles).
pub open spec fn spec_busquedas(
    tipo: EntidadPropia,
    rol: UserRole,
    id_entidad: Option<i32>,
    id_persona: Option<i32>,
) -> Seq<Busqueda> {
    let por_id = match id_entidad {
        Some(e) => if rol_de(tipo, rol) { seq![Busqueda::PorId(e)] } else { Seq::empty() },
        None => Seq::empty(),
    };
    let por_encargado = match id_persona {
        Some(p) => if tipo != EntidadPropia::Hotel { seq![Busqueda::PorEncargado(p)] } else { Seq::empty() },
        None => Seq::empty(),
    };
    por_id + por_encargado
}

/// Las búsquedas que se hacen, en orden, para dar con la entidad propia de un
/// usuario; la primera que encuentra algo es la respuesta.
pub fn busquedas_de_mi_entidad(
    tipo: EntidadPropia,
    rol: UserRole,
    id_entidad: Option<i32>,
    id_persona: Option<i32>,
) -> (r: Vec<Busqueda>)
    ensures
        r@ == spec_busquedas(tipo, rol, id_entidad, id_persona),
{
    let mut r: Vec<Busqueda> = Vec::new();
    let ligado = match tipo {
        EntidadPropia::Agencia => rol == UserRole::Agencias || rol == UserRole::AgenciasContador,
        EntidadPropia::Hotel => rol == UserRole::Hoteles,
        EntidadPropia::CadenaHotelera => rol == UserRole::HotelesGerenteCadena,
    };
    match id_entidad {
        Some(e) => if ligado {
            r.push(Busqueda::PorId(e));
        },
        None => {},
    }
    match id_persona {
        Some(p) => if tipo != EntidadPropia::Hotel {
            r.push(Busqueda::PorEncargado(p));
        },
        None => {},
    }
    assert(r@ == spec_busquedas(tipo, rol, id_entidad, id_persona));
    r
}

/// El mensaje cuando el usuario no tiene entidad propia.
pub fn mensaje_sin_entidad(tipo: EntidadPropia) -> (r: String)
    ensures
        r@ == match tipo {
            EntidadPropia::Agencia => "No tienes una agencia asociada"@,
            EntidadPropia::Hotel => "No tienes un hotel asociado"@,
            EntidadPropia::CadenaHotelera => "No tienes una cadena hotelera asociada"@,
        },
{
    match tipo {
        EntidadPropia::Agencia => texto("No tienes una agencia asociada"),
        EntidadPropia::Hotel => texto("No tienes un hotel asociado"),
        EntidadPropia::CadenaHotelera => texto("No tienes una cadena hotelera asociada"),
    }
}

} // verus!
