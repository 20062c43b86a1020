//! Lectura de las fechas y horas que llegan escritas en los pedidos.
//!
//! El recorte de espacios es el de `str::trim` y la lectura de fechas y horas
//! la hace `chrono` con un formato de `strftime`; lo que ambos devuelven se
//! nombra aquí sin escribirlo, y las reglas de los pedidos (texto vacío,
//! elección del formato de la hora) se verifican sobre esos nombres.

use vstd::prelude::*;
use chrono::Datelike;
use chrono::Timelike;
use crate::fechas::Fecha;

verus! {

/// Una hora del día, con los nanosegundos que `chrono` guarda (un segundo
/// intercalar se guarda como el segundo 59 con más de mil millones de
/// nanosegundos).
#[derive(Debug, Clone, Copy, PartialEq, Eq, Structural)]
pub struct Hora {
    pub hora: u32,
    pub minuto: u32,
    pub segundo: u32,
    pub nanosegundo: u32,
}

/// ¿Es un espacio? Los 25 caracteres con la propiedad White_Space de Unicode.
pub open spec fn es_espacio(c: char) -> bool {
    let n = c as int;
    ||| 0x9 <= n <= 0xd
    ||| n == 0x20
    ||| n == 0x85
    ||| n == 0xa0
    ||| n == 0x1680
    ||| 0x2000 <= n <= 0x200a
    ||| n == 0x2028
    ||| n == 0x2029
    ||| n == 0x202f
    ||| n == 0x205f
    ||| n == 0x3000
}

/// El texto sin los espacios del principio.
pub open spec fn sin_espacios_al_inicio(s: Seq<char>) -> Seq<char>
    decreases s.len(),
{
    if s.len() > 0 && es_espacio(s[0]) {
        sin_espacios_al_inicio(s.drop_first())
    } else {
        s
    }
}

/// El texto sin los espacios del final.
pub open spec fn sin_espacios_al_final(s: Seq<char>) -> Seq<char>
    decreases s.len(),
{
    if s.len() > 0 && es_espacio(s.last()) {
        sin_espacios_al_final(s.drop_last())
    } else {
        s
    }
}

/// Lo que `str::trim` deja de un texto: sin los espacios (White_Space de
/// Unicode) del principio ni del final.
pub open spec fn recortado(s: Seq<char>) -> Seq<char> {
    sin_espacios_al_final(sin_espacios_al_inicio(s))
}

/// Lo que `chrono::NaiveDate::parse_from_str` lee de un texto con un formato:
/// (año, mes, día), o nada si no se puede leer.
pub uninterp spec fn fecha_leida(s: Seq<char>, formato: Seq<char>) -> Option<(int, int, int)>;

/// Lo que `chrono::NaiveTime::parse_from_str` lee de un texto con un formato:
/// (hora, minuto, segundo, nanosegundo), o nada si no se puede leer.
pub uninterp spec fn hora_leida(s: Seq<char>, formato: Seq<char>) -> Option<(int, int, int, int)>;

/// `str::trim` de std: el texto sin los espacios del principio y del final,
/// donde espacio es un carácter con la propiedad White_Space de Unicode.
#[verifier::external_body]
pub(crate) fn recortar(s: &str) -> (r: &str)
    ensures
        r@ == recortado(s@),
{
    s.trim()
}

/// `chrono::NaiveDate::parse_from_str`: la fecha escrita en `s` según
/// `formato`. Lo que devuelve es función de los dos textos, y toda fecha de
/// `chrono` existe en el calendario.
#[verifier::external_body]
fn leer_fecha(s: &str, formato: &str) -> (r: Option<Fecha>)
    ensures
        match r {
            Some(f) => fecha_leida(s@, formato@) == Some((f.anio as int, f.mes as int, f.dia as int))
                && f.valida(),
            None => fecha_leida(s@, formato@) is None,
        },
{
    match chrono::NaiveDate::parse_from_str(s, formato) {
        Ok(d) => Some(Fecha { anio: d.year(), mes: d.month(), dia: d.day() }),
        Err(_) => None,
    }
}

/// `chrono::NaiveTime::parse_from_str`: la hora escrita en `s` según
/// `formato`. Lo que devuelve es función de los dos textos.
#[verifier::external_body]
fn leer_hora(s: &str, formato: &str) -> (r: Option<Hora>)
    ensures
        match r {
            Some(h) => hora_leida(s@, formato@) == Some(
                (h.hora as int, h.minuto as int, h.segundo as int, h.nanosegundo as int),
            ),
            None => hora_leida(s@, formato@) is None,
        },
{
    match chrono::NaiveTime::parse_from_str(s, formato) {
        Ok(t) => Some(Hora { hora: t.hour(), minuto: t.minute(), segundo: t.second(), nanosegundo: t.nanosecond() }),
        Err(_) => None,
    }
}

/// La fecha que se lee de un texto en formato año-mes-día.
pub open spec fn fecha_iso(s: Seq<char>) -> Option<Fecha> {
    match fecha_leida(s, "%Y-%m-%d"@) {
        Some((a, m, d)) => Some(Fecha { anio: a as i32, mes: m as u32, dia: d as u32 }),
        None => None,
    }
}

/// Lee una fecha escrita como año-mes-día (`2024-03-15`).
pub fn leer_fecha_iso(s: &str) -> (r: Option<Fecha>)
    ensures
        r == fecha_iso(s@),
        r matches Some(f) ==> f.valida(),
{
    let r = leer_fecha(s, "%Y-%m-%d");
    proof {
        reveal_strlit("%Y-%m-%d");
    }
    r
}

/// La fecha de un pedido: el texto recortado, si no queda vacío, leído como
/// año-mes-día.
pub open spec fn spec_fecha_de_pedido(s: Option<Seq<char>>) -> Option<Fecha> {
    match s {
        Some(t) => if recortado(t).len() == 0 {
            None
        } else {
            fecha_iso(recortado(t))
        },
        None => None,
    }
}

/// Lee la fecha de un campo opcional de un pedido; un texto en blanco o
/// ilegible no da fecha.
pub fn fecha_de_pedido(s: &Option<String>) -> (r: Option<Fecha>)
    ensures
        r == spec_fecha_de_pedido(
            match s {
                Some(t) => Some(t@),
                None => None,
            },
        ),
{
    match s {
        Some(t) => {
            let u = recortar(t.as_str());
            if u.is_empty() {
                None
            } else {
                leer_fecha_iso(u)
            }
        },
        None => None,
    }
}

/// La hora que se lee de un texto según su formato.
pub open spec fn hora_con_formato(s: Seq<char>, formato: Seq<char>) -> Option<Hora> {
    match hora_leida(s, formato) {
        Some((h, m, sg, n)) => Some(Hora { hora: h as u32, minuto: m as u32, segundo: sg as u32, nanosegundo: n as u32 }),
        None => None,
    }
}

/// La hora de un pedido: el texto recortado, si no queda vacío, leído como
/// `HH:MM` si ocupa cinco bytes y como `HH:MM:SS` si no.
pub open spec fn spec_hora_de_pedido(s: Option<Seq<char>>) -> Option<Hora> {
    match s {
        Some(t) => {
            let u = recortado(t);
            if u.len() == 0 {
                None
            } else if vstd::utf8::encode_utf8(u).len() as usize == 5 {
                hora_con_formato(u, "%H:%M"@)
            } else {
                hora_con_formato(u, "%H:%M:%S"@)
            }
        },
        None => None,
    }
}

/// Lee la hora de un campo opcional de un pedido; un texto en blanco o
/// ilegible no da hora.
pub fn hora_de_pedido(s: &Option<String>) -> (r: Option<Hora>)
    ensures
        r == spec_hora_de_pedido(
            match s {
                Some(t) => Some(t@),
                None => None,
            },
        ),
{
    match s {
        Some(t) => {
            let u = recortar(t.as_str());
            let n = u.len();
            assert(n == vstd::utf8::encode_utf8(u@).len() as usize);
            if u.is_empty() {
                None
            } else if n == 5 {
                let h = leer_hora(u, "%H:%M");
                proof {
                    reveal_strlit("%H:%M");
                }
                h
            } else {
                let h = leer_hora(u, "%H:%M:%S");
                proof {
                    reveal_strlit("%H:%M:%S");
                }
                h
            }
        },
        None => None,
    }
}

} // verus!
