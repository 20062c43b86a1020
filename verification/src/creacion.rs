//! Creación de un file: a qué entidad pertenece según el rol de quien lo
//! crea, de qué tipo es la entidad, y el orden de sus tours.

use vstd::prelude::*;
use crate::fechas::Fecha;
use crate::lectura::{leer_fecha_iso, fecha_iso};
use crate::texto::texto;

verus! {

/// Rol de un usuario.
#[derive(Debug, Clone, Copy, PartialEq, Eq, Structural)]
pub enum UserRole {
    SuperAdmin,
    Admin,
    Agencias,
    AgenciasContador,
    AgenciasGerente,
    Hoteles,
    HotelesGerente,
    HotelesGerenteCadena,
    Guias,
}

/// ¿Es un rol de hotel? (hoteles, gerente de hotel o gerente de cadena).
pub open spec fn es_rol_de_hotel(rol: UserRole) -> bool {
    rol == UserRole::Hoteles || rol == UserRole::HotelesGerente || rol == UserRole::HotelesGerenteCadena
}

/// El tipo de entidad del file que crea un usuario con ese rol: "hoteles" para
/// los roles de hotel, "agencias" para los demás.
pub fn entidad_de_rol(rol: UserRole) -> (r: &'static str)
    ensures
        es_rol_de_hotel(rol) ==> r@ == "hoteles"@,
        !es_rol_de_hotel(rol) ==> r@ == "agencias"@,
{
    proof {
        reveal_strlit("hoteles");
        reveal_strlit("agencias");
    }
    match rol {
        UserRole::Hoteles | UserRole::HotelesGerente | UserRole::HotelesGerenteCadena => "hoteles",
        _ => "agencias",
    }
}

/// Por qué no se crea un file.
#[derive(Debug, Clone, Copy, PartialEq, Eq, Structural)]
pub enum ErrorCreacion {
    /// Un usuario de agencia o de hotel sin entidad configurada.
    SinEntidadConfigurada,
    /// Un gerente de cadena que no eligió hotel.
    DebeSeleccionarHotel,
    /// El hotel elegido no existe.
    HotelInvalido,
    /// El hotel elegido es de otra cadena (operación prohibida).
    HotelDeOtraCadena,
    /// Un administrador que no eligió entidad.
    DebeSeleccionarEntidad,
    /// El pedido no trae tours.
    SinTours,
    FechaInicioInvalida,
    FechaFinInvalida,
}

impl ErrorCreacion {
    /// ¿Es una operación prohibida (y no un dato inválido)?
    pub fn es_prohibido(&self) -> (r: bool)
        ensures
            r == (*self == ErrorCreacion::HotelDeOtraCadena),
    {
        match self {
            ErrorCreacion::HotelDeOtraCadena => true,
            _ => false,
        }
    }

    /// El mensaje del error.
    pub fn mensaje(&self) -> (r: String)
        ensures
            r@ == mensaje_creacion(*self),
    {
        proof {
            reveal_strlit("Usuario sin id_entidad configurado");
            reveal_strlit("Debe seleccionar un hotel para crear el file");
            reveal_strlit("Hotel inválido");
            reveal_strlit("El hotel seleccionado no pertenece a tu cadena");
            reveal_strlit("Debe seleccionar una entidad para crear el file");
            reveal_strlit("Debe especificar al menos un tour para el file");
            reveal_strlit("fecha_inicio inválida");
            reveal_strlit("fecha_fin inválida");
        }
        match self {
            ErrorCreacion::SinEntidadConfigurada => texto("Usuario sin id_entidad configurado"),
            ErrorCreacion::DebeSeleccionarHotel => texto("Debe seleccionar un hotel para crear el file"),
            ErrorCreacion::HotelInvalido => texto("Hotel inválido"),
            ErrorCreacion::HotelDeOtraCadena => texto("El hotel seleccionado no pertenece a tu cadena"),
            ErrorCreacion::DebeSeleccionarEntidad => texto("Debe seleccionar una entidad para crear el file"),
            ErrorCreacion::SinTours => texto("Debe especificar al menos un tour para el file"),
            ErrorCreacion::FechaInicioInvalida => texto("fecha_inicio inválida"),
            ErrorCreacion::FechaFinInvalida => texto("fecha_fin inválida"),
        }
    }
}

/// El mensaje de un error de creación.
pub open spec fn mensaje_creacion(e: ErrorCreacion) -> Seq<char> {
    match e {
        ErrorCreacion::SinEntidadConfigurada => "Usuario sin id_entidad configurado"@,
        ErrorCreacion::DebeSeleccionarHotel => "Debe seleccionar un hotel para crear el file"@,
        ErrorCreacion::HotelInvalido => "Hotel inválido"@,
        ErrorCreacion::HotelDeOtraCadena => "El hotel seleccionado no pertenece a tu cadena"@,
        ErrorCreacion::DebeSeleccionarEntidad => "Debe seleccionar una entidad para crear el file"@,
        ErrorCreacion::SinTours => "Debe especificar al menos un tour para el file"@,
        ErrorCreacion::FechaInicioInvalida => "fecha_inicio inválida"@,
        ErrorCreacion::FechaFinInvalida => "fecha_fin inválida"@,
    }
}

/// La entidad del file, o el hotel que hay que consultar antes de fijarla.
#[derive(Debug, Clone, Copy, PartialEq, Eq, Structural)]
pub enum EntidadDelFile {
    /// La entidad ya está resuelta.
    Resuelta(i32),
    /// Un gerente de cadena eligió este hotel: hay que comprobar su cadena.
    HotelPorComprobar(i32),
}

/// La entidad de un file nuevo: agencias y hoteles usan la suya; un gerente de
/// cadena elige un hotel (que luego se comprueba); los demás eligen la entidad.
pub open spec fn spec_resolver_entidad(rol: UserRole, propia: Option<i32>, pedida: Option<i32>) -> Result<
    EntidadDelFile,
    ErrorCreacion,
> {
    match rol {
        UserRole::Agencias | UserRole::Hoteles | UserRole::HotelesGerente => match propia {
            Some(e) => Ok(EntidadDelFile::Resuelta(e)),
            None => Err(ErrorCreacion::SinEntidadConfigurada),
        },
        UserRole::HotelesGerenteCadena => match pedida {
            Some(h) => Ok(EntidadDelFile::HotelPorComprobar(h)),
            None => Err(ErrorCreacion::DebeSeleccionarHotel),
        },
        _ => match pedida {
            Some(e) => Ok(EntidadDelFile::Resuelta(e)),
            None => Err(ErrorCreacion::DebeSeleccionarEntidad),
        },
    }
}

/// Resuelve la entidad de un file nuevo según el rol de quien lo crea, su
/// entidad propia y la que trae el pedido.
pub fn resolver_entidad(rol: UserRole, propia: Option<i32>, pedida: Option<i32>) -> (r: Result<EntidadDelFile, ErrorCreacion>)
    ensures
        r == spec_resolver_entidad(rol, propia, pedida),
{
    match rol {
        UserRole::Agencias | UserRole::Hoteles | UserRole::HotelesGerente => match propia {
            Some(e) => Ok(EntidadDelFile::Resuelta(e)),
            None => Err(ErrorCreacion::SinEntidadConfigurada),
        },
        UserRole::HotelesGerenteCadena => match pedida {
            Some(h) => Ok(EntidadDelFile::HotelPorComprobar(h)),
            None => Err(ErrorCreacion::DebeSeleccionarHotel),
        },
        _ => match pedida {
            Some(e) => Ok(EntidadDelFile::Resuelta(e)),
            None => Err(ErrorCreacion::DebeSeleccionarEntidad),
        },
    }
}

/// Un file nuevo lleva al menos un tour.
pub fn exigir_tours(cantidad: usize) -> (r: Result<(), ErrorCreacion>)
    ensures
        r == if cantidad == 0 {
            Err::<(), ErrorCreacion>(ErrorCreacion::SinTours)
        } else {
            Ok(())
        },
{
    if cantidad == 0 {
        Err(ErrorCreacion::SinTours)
    } else {
        Ok(())
    }
}

/// El hotel elegido por un gerente de cadena: debe existir (`cadena_del_hotel`
/// es su cadena, o nada si no se encontró) y ser de la cadena del gerente (su
/// entidad propia, o cero si no la tiene).
pub fn comprobar_hotel_de_cadena(hotel: i32, cadena_del_hotel: Option<i32>, propia: Option<i32>) -> (r: Result<i32, ErrorCreacion>)
    ensures
        r == match cadena_del_hotel {
            None => Err(ErrorCreacion::HotelInvalido),
            Some(c) => if c != match propia {
                Some(p) => p,
                None => 0,
            } {
                Err(ErrorCreacion::HotelDeOtraCadena)
            } else {
                Ok(hotel)
            },
        },
{
    let cadena = match propia {
        Some(p) => p,
        None => 0,
    };
    match cadena_del_hotel {
        None => Err(ErrorCreacion::HotelInvalido),
        Some(c) => if c != cadena {
            Err(ErrorCreacion::HotelDeOtraCadena)
        } else {
            Ok(hotel)
        },
    }
}

/// El orden de cada tour de un file nuevo: el que trae, o su posición (desde 1).
pub open spec fn ordenes(pedidos: Seq<Option<i32>>) -> Seq<i32> {
    Seq::new(
        pedidos.len(),
        |i: int| match pedidos[i] {
            Some(o) => o,
            None => (i + 1) as i32,
        },
    )
}

/// Los órdenes de los tours de un file nuevo.
pub fn ordenes_de_tours(pedidos: &Vec<Option<i32>>) -> (r: Vec<i32>)
    ensures
        r@ == ordenes(pedidos@),
{
    let mut r: Vec<i32> = Vec::new();
    let mut i: usize = 0;
    while i < pedidos.len()
        invariant
            i <= pedidos.len(),
            r@.len() == i,
            forall|k: int| 0 <= k < i ==> #[trigger] r@[k] == ordenes(pedidos@)[k],
        decreases pedidos.len() - i,
    {
        let o = match pedidos[i] {
            Some(o) => o,
            None => {
                #[verifier::truncate]
                let x = (i + 1) as i32;
                x
            },
        };
        r.push(o);
        i = i + 1;
    }
    assert(r@ == ordenes(pedidos@));
    r
}

/// Las fechas de un file creado con sus servicios, leídas como año-mes-día.
pub fn fechas_del_file(inicio: &str, fin: &str) -> (r: Result<(Fecha, Fecha), ErrorCreacion>)
    ensures
        r == match (fecha_iso(inicio@), fecha_iso(fin@)) {
            (None, _) => Err(ErrorCreacion::FechaInicioInvalida),
            (Some(_), None) => Err(ErrorCreacion::FechaFinInvalida),
            (Some(a), Some(b)) => Ok((a, b)),
        },
{
    match leer_fecha_iso(inicio) {
        None => Err(ErrorCreacion::FechaInicioInvalida),
        Some(a) => match leer_fecha_iso(fin) {
            None => Err(ErrorCreacion::FechaFinInvalida),
            Some(b) => Ok((a, b)),
        },
    }
}

} // verus!
