//! Tarifas de entradas por rango de edad: la coherencia de los rangos, la
//! estructura de precios por defecto y la elección del precio aplicable.

use vstd::prelude::*;
use crate::texto::{texto, unir, i64_a_texto, texto_entero};

verus! {

/// El precio de una entrada para un tipo de turista y un rango de edades.
#[derive(Debug, Clone)]
pub struct RangoPrecio {
    pub id_entrada: i32,
    /// "general", "nacional" o "extranjero".
    pub tipo_precio: String,
    pub edad_minima: i32,
    /// Sin máximo, el rango no tiene tope.
    pub edad_maxima: Option<i32>,
    /// Precio en céntimos.
    pub precio: i64,
    pub descripcion: Option<String>,
}

/// Por qué se rechazan precios de entradas.
#[derive(Debug, Clone, Copy, PartialEq, Eq, Structural)]
pub enum ErrorPrecio {
    /// La edad máxima es menor que la mínima.
    RangoInvertido,
    /// Lo mismo, dentro de un lote: con las edades del precio rechazado.
    RangoInvertidoEnLote { maxima: i32, minima: i32 },
    /// Un precio del lote es de otra entrada.
    OtraEntrada,
}

/// El mensaje de un error de precios.
pub open spec fn mensaje_precio(e: ErrorPrecio) -> Seq<char> {
    match e {
        ErrorPrecio::RangoInvertido => "La edad máxima no puede ser menor que la edad mínima"@,
        ErrorPrecio::RangoInvertidoEnLote { maxima, minima } => "La edad máxima ("@ + texto_entero(maxima as int)
            + ") no puede ser menor que la edad mínima ("@ + texto_entero(minima as int) + ")"@,
        ErrorPrecio::OtraEntrada => "Todos los precios deben pertenecer a la misma entrada"@,
    }
}

impl ErrorPrecio {
    /// El mensaje del error.
    pub fn mensaje(&self) -> (r: String)
        ensures
            r@ == mensaje_precio(*self),
    {
        proof {
            reveal_strlit("La edad máxima no puede ser menor que la edad mínima");
            reveal_strlit("La edad máxima (");
            reveal_strlit(") no puede ser menor que la edad mínima (");
            reveal_strlit(")");
            reveal_strlit("Todos los precios deben pertenecer a la misma entrada");
        }
        match self {
            ErrorPrecio::RangoInvertido => texto("La edad máxima no puede ser menor que la edad mínima"),
            ErrorPrecio::RangoInvertidoEnLote { maxima, minima } => {
                let r = unir(texto("La edad máxima ("), i64_a_texto(*maxima as i64).as_str());
                let r = unir(r, ") no puede ser menor que la edad mínima (");
                let r = unir(r, i64_a_texto(*minima as i64).as_str());
                unir(r, ")")
            },
            ErrorPrecio::OtraEntrada => texto("Todos los precios deben pertenecer a la misma entrada"),
        }
    }
}

/// ¿Es incoherente el rango? (tiene máximo y es menor que el mínimo).
pub open spec fn rango_invertido(minima: i32, maxima: Option<i32>) -> bool {
    match maxima {
        Some(m) => m < minima,
        None => false,
    }
}

/// Comprueba el rango de edades de un precio.
pub fn validar_rango(p: &RangoPrecio) -> (r: Result<(), ErrorPrecio>)
    ensures
        rango_invertido(p.edad_minima, p.edad_maxima) ==> r == Err::<(), ErrorPrecio>(ErrorPrecio::RangoInvertido),
        !rango_invertido(p.edad_minima, p.edad_maxima) ==> r is Ok,
{
    match p.edad_maxima {
        Some(m) => if m < p.edad_minima {
            Err(ErrorPrecio::RangoInvertido)
        } else {
            Ok(())
        },
        None => Ok(()),
    }
}

/// El primer error de un lote de precios (entre los `n` primeros): con
/// `id_entrada`, también los de otra entrada.
pub open spec fn primer_error_de_lote(ps: Seq<RangoPrecio>, id_entrada: Option<i32>, n: int) -> Option<ErrorPrecio>
    decreases n,
{
    if n <= 0 {
        None
    } else {
        match primer_error_de_lote(ps, id_entrada, n - 1) {
            Some(e) => Some(e),
            None => {
                let p = ps[n - 1];
                if id_entrada matches Some(e) && p.id_entrada != e {
                    Some(ErrorPrecio::OtraEntrada)
                } else if rango_invertido(p.edad_minima, p.edad_maxima) {
                    Some(ErrorPrecio::RangoInvertidoEnLote { maxima: p.edad_maxima.unwrap(), minima: p.edad_minima })
                } else {
                    None
                }
            },
        }
    }
}

/// Comprueba un lote de precios en orden; si se reemplazan los de una entrada
/// (`id_entrada`), todos deben ser de esa entrada.
pub fn validar_lote(precios: &Vec<RangoPrecio>, id_entrada: Option<i32>) -> (r: Result<(), ErrorPrecio>)
    ensures
        match primer_error_de_lote(precios@, id_entrada, precios@.len() as int) {
            Some(e) => r == Err::<(), ErrorPrecio>(e),
            None => r is Ok,
        },
{
    let mut i: usize = 0;
    while i < precios.len()
        invariant
            i <= precios.len(),
            primer_error_de_lote(precios@, id_entrada, i as int) is None,
        decreases precios.len() - i,
    {
        let p = &precios[i];
        match id_entrada {
            Some(e) => if p.id_entrada != e {
                proof {
                    lema_primer_error_estable(precios@, id_entrada, i as int + 1);
                }
                return Err(ErrorPrecio::OtraEntrada);
            },
            None => {},
        }
        match p.edad_maxima {
            Some(m) => if m < p.edad_minima {
                proof {
                    lema_primer_error_estable(precios@, id_entrada, i as int + 1);
                }
                return Err(ErrorPrecio::RangoInvertidoEnLote { maxima: m, minima: p.edad_minima });
            },
            None => {},
        }
        i = i + 1;
    }
    Ok(())
}

/// Un error encontrado en un prefijo es el primero del lote entero.
proof fn lema_primer_error_estable(ps: Seq<RangoPrecio>, id_entrada: Option<i32>, n: int)
    requires
        0 <= n <= ps.len(),
        primer_error_de_lote(ps, id_entrada, n) is Some,
    ensures
        primer_error_de_lote(ps, id_entrada, ps.len() as int) == primer_error_de_lote(ps, id_entrada, n),
    decreases ps.len() - n,
{
    if n < ps.len() {
        lema_primer_error_estable(ps, id_entrada, n + 1);
    }
}

/// Los precios por defecto de una entrada nueva, todos "general" y gratuitos:
/// niño (0 a 8 años), adolescente (9 a 16) y adulto (17 en adelante).
pub fn precios_por_defecto(id_entrada: i32) -> (r: Vec<RangoPrecio>)
    ensures
        r@.len() == 3,
        forall|i: int| 0 <= i < 3 ==> (#[trigger] r@[i]).id_entrada == id_entrada && r@[i].tipo_precio@ == "general"@
            && r@[i].precio == 0,
        r@[0].edad_minima == 0 && r@[0].edad_maxima == Some(8i32),
        r@[1].edad_minima == 9 && r@[1].edad_maxima == Some(16i32),
        r@[2].edad_minima == 17 && r@[2].edad_maxima is None,
        r@[0].descripcion matches Some(d) && d@ == "Niño (gratis)"@,
        r@[1].descripcion matches Some(d) && d@ == "Adolescente"@,
        r@[2].descripcion matches Some(d) && d@ == "Adulto"@,
{
    proof {
        reveal_strlit("general");
        reveal_strlit("Niño (gratis)");
        reveal_strlit("Adolescente");
        reveal_strlit("Adulto");
    }
    let mut r: Vec<RangoPrecio> = Vec::new();
    r.push(
        RangoPrecio {
            id_entrada,
            tipo_precio: texto("general"),
            edad_minima: 0,
            edad_maxima: Some(8),
            precio: 0,
            descripcion: Some(texto("Niño (gratis)")),
        },
    );
    r.push(
        RangoPrecio {
            id_entrada,
            tipo_precio: texto("general"),
            edad_minima: 9,
            edad_maxima: Some(16),
            precio: 0,
            descripcion: Some(texto("Adolescente")),
        },
    );
    r.push(
        RangoPrecio {
            id_entrada,
            tipo_precio: texto("general"),
            edad_minima: 17,
            edad_maxima: None,
            precio: 0,
            descripcion: Some(texto("Adulto")),
        },
    );
    r
}

/// El precio aplicable a un turista: el de su tipo (nacional o extranjero) si
/// lo hay; si no, el general; si tampoco, ninguno.
pub fn elegir_precio(especifico: Option<i64>, general: Option<i64>) -> (r: Option<i64>)
    ensures
        r == (match especifico {
            Some(p) => Some(p),
            None => general,
        }),
{
    match especifico {
        Some(p) => Some(p),
        None => general,
    }
}

/// El mensaje cuando no hay precio para la entrada, la edad y el tipo de turista.
pub fn mensaje_sin_precio(id_entrada: i32, edad: i32, tipo_turista: &str) -> (r: String)
    ensures
        r@ == "No se encontró precio para entrada "@ + texto_entero(id_entrada as int) + " con edad "@
            + texto_entero(edad as int) + " y tipo "@ + tipo_turista@,
{
    proof {
        reveal_strlit("No se encontró precio para entrada ");
        reveal_strlit(" con edad ");
        reveal_strlit(" y tipo ");
    }
    let r = unir(texto("No se encontró precio para entrada "), i64_a_texto(id_entrada as i64).as_str());
    let r = unir(r, " con edad ");
    let r = unir(r, i64_a_texto(edad as i64).as_str());
    let r = unir(r, " y tipo ");
    unir(r, tipo_turista)
}

} // verus!
