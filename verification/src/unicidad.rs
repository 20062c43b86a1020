//! Claves que no se repiten: el RUC de una agencia, el documento de una
//! persona, el email y el nombre de un usuario, la placa de un vehículo y la
//! tarifa de un tour por tipo de entidad. Cómo se escriben, cuándo se
//! comprueban al actualizar, y qué se responde si ya existen.

use vstd::prelude::*;
use crate::lectura::{recortar, recortado};
use crate::texto::{i64_a_texto, mismo_texto, texto, texto_entero, unir};

verus! {

/// La clave que ya existe.
#[derive(Debug, Clone)]
pub enum Duplicado {
    /// Otra agencia tiene ese RUC.
    RucDeAgencia(String),
    /// Otra persona tiene ese tipo y número de documento.
    DocumentoDePersona(String, String),
    /// Ya hay una tarifa del tour para ese tipo de entidad.
    TarifaDeTour(i32, String),
    /// Otro usuario tiene ese email.
    EmailDeUsuario(String),
    /// Otro usuario tiene ese nombre de usuario.
    NombreDeUsuario(String),
    /// Otra persona tiene ese número de documento (al crear un usuario con su persona).
    DocumentoRegistrado(String),
    /// Otro vehículo tiene esa placa.
    PlacaDeVehiculo(String),
}

impl Duplicado {
    /// El mensaje del conflicto.
    pub fn mensaje(&self) -> (r: String)
        ensures
            r@ == match self {
                Duplicado::RucDeAgencia(ruc) => "Ya existe una agencia con RUC "@ + ruc@,
                Duplicado::DocumentoDePersona(t, n) => "Ya existe una persona con "@ + t@ + " "@ + n@,
                Duplicado::TarifaDeTour(tour, tipo) => "Ya existe una tarifa para tour "@ + texto_entero(
                    *tour as int,
                ) + " con tipo_entidad '"@ + tipo@ + "'"@,
                Duplicado::EmailDeUsuario(e) => "Email "@ + e@ + " ya registrado"@,
                Duplicado::NombreDeUsuario(u) => "Username "@ + u@ + " ya existe"@,
                Duplicado::DocumentoRegistrado(n) => "Documento "@ + n@ + " ya registrado"@,
                Duplicado::PlacaDeVehiculo(p) => "Placa "@ + p@ + " ya existe"@,
            },
    {
        proof {
            reveal_strlit("Ya existe una agencia con RUC ");
            reveal_strlit("Ya existe una persona con ");
            reveal_strlit(" ");
            reveal_strlit("Ya existe una tarifa para tour ");
            reveal_strlit(" con tipo_entidad '");
            reveal_strlit("'");
            reveal_strlit("Email ");
            reveal_strlit(" ya registrado");
            reveal_strlit("Username ");
            reveal_strlit(" ya existe");
            reveal_strlit("Documento ");
            reveal_strlit("Placa ");
        }
        match self {
            Duplicado::RucDeAgencia(ruc) => unir(texto("Ya existe una agencia con RUC "), ruc.as_str()),
            Duplicado::DocumentoDePersona(t, n) => unir(
                unir(unir(texto("Ya existe una persona con "), t.as_str()), " "),
                n.as_str(),
            ),
            Duplicado::TarifaDeTour(tour, tipo) => {
                let numero = i64_a_texto(*tour as i64);
                let r = unir(unir(texto("Ya existe una tarifa para tour "), numero.as_str()), " con tipo_entidad '");
                unir(unir(r, tipo.as_str()), "'")
            },
            Duplicado::EmailDeUsuario(e) => unir(unir(texto("Email "), e.as_str()), " ya registrado"),
            Duplicado::NombreDeUsuario(u) => unir(unir(texto("Username "), u.as_str()), " ya existe"),
            Duplicado::DocumentoRegistrado(n) => unir(unir(texto("Documento "), n.as_str()), " ya registrado"),
            Duplicado::PlacaDeVehiculo(p) => unir(unir(texto("Placa "), p.as_str()), " ya existe"),
        }
    }
}

/// El RUC que hay que comprobar al actualizar una agencia: el pedido, si
/// trae uno distinto del actual.
pub fn ruc_a_verificar(pedido: Option<&str>, actual: &str) -> (r: Option<String>)
    ensures
        match pedido {
            Some(p) => if p@ != actual@ {
                r matches Some(x) && x@ == p@
            } else {
                r is None
            },
            None => r is None,
        },
{
    match pedido {
        Some(p) => if mismo_texto(p, actual) {
            None
        } else {
            Some(texto(p))
        },
        None => None,
    }
}

/// El documento que queda tras una actualización: cada parte pedida reemplaza
/// a la actual.
pub open spec fn documento_nuevo(
    tipo_pedido: Option<Seq<char>>,
    nro_pedido: Option<Seq<char>>,
    tipo_actual: Seq<char>,
    nro_actual: Seq<char>,
) -> (Seq<char>, Seq<char>) {
    (
        match tipo_pedido {
            Some(t) => t,
            None => tipo_actual,
        },
        match nro_pedido {
            Some(n) => n,
            None => nro_actual,
        },
    )
}

/// El documento que hay que comprobar al actualizar una persona: el que queda,
/// si cambia el tipo o el número.
pub fn documento_a_verificar(
    tipo_pedido: Option<&str>,
    nro_pedido: Option<&str>,
    tipo_actual: &str,
    nro_actual: &str,
) -> (r: Option<(String, String)>)
    ensures
        ({
            let pedido_t = match tipo_pedido {
                Some(t) => Some(t@),
                None => None,
            };
            let pedido_n = match nro_pedido {
                Some(n) => Some(n@),
                None => None,
            };
            let nuevo = documento_nuevo(pedido_t, pedido_n, tipo_actual@, nro_actual@);
            if nuevo.0 != tipo_actual@ || nuevo.1 != nro_actual@ {
                r matches Some((t, n)) && t@ == nuevo.0 && n@ == nuevo.1
            } else {
                r is None
            }
        }),
{
    let t: &str = match tipo_pedido {
        Some(t) => t,
        None => tipo_actual,
    };
    let n: &str = match nro_pedido {
        Some(n) => n,
        None => nro_actual,
    };
    if mismo_texto(t, tipo_actual) && mismo_texto(n, nro_actual) {
        None
    } else {
        Some((texto(t), texto(n)))
    }
}

/// Lo que `str::to_lowercase` hace de un texto.
pub uninterp spec fn minusculas(s: Seq<char>) -> Seq<char>;

/// Lo que `str::to_uppercase` hace de un texto.
pub uninterp spec fn mayusculas(s: Seq<char>) -> Seq<char>;

/// `str::to_lowercase` de std: el texto en minúsculas (según Unicode; no
/// depende de la configuración regional). Lo que devuelve es función del texto.
#[verifier::external_body]
fn en_minusculas(s: &str) -> (r: String)
    ensures
        r@ == minusculas(s@),
{
    s.to_lowercase()
}

/// `str::to_uppercase` de std: el texto en mayúsculas (según Unicode; no
/// depende de la configuración regional). Lo que devuelve es función del texto.
#[verifier::external_body]
fn en_mayusculas(s: &str) -> (r: String)
    ensures
        r@ == mayusculas(s@),
{
    s.to_uppercase()
}

/// El email de una cuenta como se guarda: en minúsculas.
pub fn email_normalizado(email: &str) -> (r: String)
    ensures
        r@ == minusculas(email@),
{
    en_minusculas(email)
}

/// El email que hay que comprobar al actualizar una cuenta: el pedido en
/// minúsculas, si es distinto del actual.
pub fn email_a_verificar(pedido: Option<&str>, actual: &str) -> (r: Option<String>)
    ensures
        match pedido {
            Some(p) => if minusculas(p@) != actual@ {
                r matches Some(x) && x@ == minusculas(p@)
            } else {
                r is None
            },
            None => r is None,
        },
{
    match pedido {
        Some(p) => {
            let e = en_minusculas(p);
            if mismo_texto(e.as_str(), actual) {
                None
            } else {
                Some(e)
            }
        },
        None => None,
    }
}

/// ¿Cambia la placa de un vehículo? La pedida, en mayúsculas, es distinta de
/// la actual.
pub fn placa_cambia(pedido: Option<&str>, actual: &str) -> (r: bool)
    ensures
        r == match pedido {
            Some(p) => mayusculas(p@) != actual@,
            None => false,
        },
{
    match pedido {
        Some(p) => {
            let m = en_mayusculas(p);
            !mismo_texto(m.as_str(), actual)
        },
        None => false,
    }
}

/// ¿Falta el nombre? Es vacío o solo espacios.
pub fn nombre_vacio(nombre: &str) -> (r: bool)
    ensures
        r == (recortado(nombre@).len() == 0),
{
    recortar(nombre).is_empty()
}

} // verus!
