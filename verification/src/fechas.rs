//! Fechas de calendario y reglas de vencimiento de pagos.
//!
//! Las fechas se guardan como año, mes y día; el calendario es el gregoriano
//! proléptico con el rango de años de `chrono`, que hace el trabajo de
//! calendario (crear fechas, día anterior, sumar días, día de la semana).

use vstd::prelude::*;
use chrono::Datelike;
use chrono::Timelike;
use crate::texto::{mismo_texto, digito, digitos, dos_digitos};

verus! {

/// Primer año que `chrono::NaiveDate` puede representar.
pub const ANIO_MINIMO: i32 = -262143;

/// Último año que `chrono::NaiveDate` puede representar.
pub const ANIO_MAXIMO: i32 = 262142;

/// Una fecha de calendario.
#[derive(Debug, Clone, Copy, PartialEq, Eq, Structural)]
pub struct Fecha {
    pub anio: i32,
    pub mes: u32,
    pub dia: u32,
}

/// ¿Es bisiesto el año en el calendario gregoriano?
pub open spec fn es_bisiesto(anio: int) -> bool {
    anio % 4 == 0 && (anio % 100 != 0 || anio % 400 == 0)
}

/// Número de días del mes `mes` (1..=12) del año `anio`.
pub open spec fn dias_del_mes(anio: int, mes: int) -> int {
    if mes == 2 {
        if es_bisiesto(anio) {
            29
        } else {
            28
        }
    } else if mes == 4 || mes == 6 || mes == 9 || mes == 11 {
        30
    } else {
        31
    }
}

/// ¿Existe la fecha en el calendario y en el rango de años representable?
pub open spec fn fecha_valida(anio: int, mes: int, dia: int) -> bool {
    ANIO_MINIMO <= anio <= ANIO_MAXIMO && 1 <= mes <= 12 && 1 <= dia <= dias_del_mes(anio, mes)
}

impl Fecha {
    /// ¿Es una fecha existente y representable?
    pub open spec fn valida(self) -> bool {
        fecha_valida(self.anio as int, self.mes as int, self.dia as int)
    }

    /// Crea la fecha si existe en el calendario; `None` si no.
    pub fn new(anio: i32, mes: u32, dia: u32) -> (r: Option<Fecha>)
        ensures
            r == (if fecha_valida(anio as int, mes as int, dia as int) {
                Some(Fecha { anio, mes, dia })
            } else {
                None::<Fecha>
            }),
    {
        crear_fecha(anio, mes, dia)
    }

    /// ¿Es esta fecha anterior a `otra`?
    pub open spec fn antes_de(self, otra: Fecha) -> bool {
        self.anio < otra.anio || (self.anio == otra.anio && (self.mes < otra.mes || (self.mes
            == otra.mes && self.dia < otra.dia)))
    }

    /// ¿Es esta fecha anterior a `otra`? (orden de calendario)
    pub fn es_anterior_a(&self, otra: &Fecha) -> (r: bool)
        ensures
            r == self.antes_de(*otra),
    {
        self.anio < otra.anio || (self.anio == otra.anio && (self.mes < otra.mes || (self.mes
            == otra.mes && self.dia < otra.dia)))
    }
}

/// El día anterior a una fecha válida; `None` para la primera fecha representable.
pub open spec fn spec_dia_anterior(f: Fecha) -> Option<Fecha> {
    if f.dia > 1 {
        Some(Fecha { anio: f.anio, mes: f.mes, dia: (f.dia - 1) as u32 })
    } else if f.mes > 1 {
        Some(
            Fecha {
                anio: f.anio,
                mes: (f.mes - 1) as u32,
                dia: dias_del_mes(f.anio as int, f.mes - 1) as u32,
            },
        )
    } else if f.anio > ANIO_MINIMO {
        Some(Fecha { anio: (f.anio - 1) as i32, mes: 12, dia: 31 })
    } else {
        None
    }
}

/// La fecha `k` días después de `f`, para `k` entre 0 y 28 (cruza a lo sumo
/// un fin de mes).
pub open spec fn spec_sumar_dias(f: Fecha, k: int) -> Fecha {
    let dm = dias_del_mes(f.anio as int, f.mes as int);
    if f.dia + k <= dm {
        Fecha { anio: f.anio, mes: f.mes, dia: (f.dia + k) as u32 }
    } else if f.mes < 12 {
        Fecha { anio: f.anio, mes: (f.mes + 1) as u32, dia: (f.dia + k - dm) as u32 }
    } else {
        Fecha { anio: (f.anio + 1) as i32, mes: 1, dia: (f.dia + k - dm) as u32 }
    }
}

/// Desplazamiento de cada mes en la fórmula de Sakamoto del día de la semana.
pub open spec fn desplazamiento_mes(mes: int) -> int {
    if mes == 1 {
        0
    } else if mes == 2 {
        3
    } else if mes == 3 {
        2
    } else if mes == 4 {
        5
    } else if mes == 5 {
        0
    } else if mes == 6 {
        3
    } else if mes == 7 {
        5
    } else if mes == 8 {
        1
    } else if mes == 9 {
        4
    } else if mes == 10 {
        6
    } else if mes == 11 {
        2
    } else {
        4
    }
}

/// Día de la semana contado desde el lunes (lunes = 0, ..., domingo = 6).
pub open spec fn dia_semana_desde_lunes(anio: int, mes: int, dia: int) -> int {
    let y = if mes < 3 {
        anio - 1
    } else {
        anio
    };
    let desde_domingo = (y + y / 4 - y / 100 + y / 400 + desplazamiento_mes(mes) + dia) % 7;
    (desde_domingo + 6) % 7
}

/// `chrono::NaiveDate::from_ymd_opt`: la fecha si existe en el calendario
/// gregoriano proléptico y en el rango de años de chrono; `None` si no.
#[verifier::external_body]
fn crear_fecha(anio: i32, mes: u32, dia: u32) -> (r: Option<Fecha>)
    ensures
        r == (if fecha_valida(anio as int, mes as int, dia as int) {
            Some(Fecha { anio, mes, dia })
        } else {
            None::<Fecha>
        }),
{
    chrono::NaiveDate::from_ymd_opt(anio, mes, dia).map(
        |d| Fecha { anio: d.year(), mes: d.month(), dia: d.day() },
    )
}

/// `chrono::NaiveDate::pred_opt`: el día anterior, o `None` en la primera
/// fecha representable.
#[verifier::external_body]
fn dia_anterior(f: Fecha) -> (r: Option<Fecha>)
    requires
        f.valida(),
    ensures
        r == spec_dia_anterior(f),
{
    let d = chrono::NaiveDate::from_ymd_opt(f.anio, f.mes, f.dia).unwrap();
    d.pred_opt().map(|p| Fecha { anio: p.year(), mes: p.month(), dia: p.day() })
}

/// `NaiveDate - TimeDelta::days(1)` de chrono: el día anterior. Entra en
/// pánico en la primera fecha representable, que `requires` excluye.
#[verifier::external_body]
pub(crate) fn restar_un_dia(f: Fecha) -> (r: Fecha)
    requires
        f.valida(),
        spec_dia_anterior(f) is Some,
    ensures
        r == spec_dia_anterior(f).unwrap(),
{
    let d = chrono::NaiveDate::from_ymd_opt(f.anio, f.mes, f.dia).unwrap();
    let p = d - chrono::Duration::days(1);
    Fecha { anio: p.year(), mes: p.month(), dia: p.day() }
}

/// `NaiveDate + TimeDelta::days(k)` de chrono para `k` entre 0 y 28. Entra en
/// pánico si el resultado sale del rango representable, que `requires` excluye.
#[verifier::external_body]
pub(crate) fn sumar_dias(f: Fecha, k: u32) -> (r: Fecha)
    requires
        f.valida(),
        k <= 28,
        spec_sumar_dias(f, k as int).valida(),
    ensures
        r == spec_sumar_dias(f, k as int),
{
    let d = chrono::NaiveDate::from_ymd_opt(f.anio, f.mes, f.dia).unwrap();
    let s = d + chrono::Duration::days(k as i64);
    Fecha { anio: s.year(), mes: s.month(), dia: s.day() }
}

/// `Datelike::weekday` y `Weekday::num_days_from_monday` de chrono: el día de
/// la semana de la fecha (lunes = 0, ..., domingo = 6) en el calendario
/// gregoriano proléptico.
#[verifier::external_body]
fn dia_de_la_semana(f: Fecha) -> (r: u32)
    requires
        f.valida(),
    ensures
        r == dia_semana_desde_lunes(f.anio as int, f.mes as int, f.dia as int),
{
    let d = chrono::NaiveDate::from_ymd_opt(f.anio, f.mes, f.dia).unwrap();
    d.weekday().num_days_from_monday()
}

/// `std::time::SystemTime::now` y `duration_since(UNIX_EPOCH)`: los segundos
/// enteros transcurridos desde la época Unix, o nada si el reloj del sistema
/// marca una hora anterior a ella. Depende del reloj: no se afirma nada del
/// valor.
#[verifier::external_body]
fn segundos_desde_la_epoca() -> (r: Option<u64>) {
    std::time::SystemTime::now().duration_since(std::time::UNIX_EPOCH).ok().map(|d| d.as_secs())
}

/// Lo que `chrono::DateTime::from_timestamp(segundos, 0)` da de un instante:
/// (año, mes, día, segundos desde la medianoche) en UTC, o nada si la fecha
/// no es representable.
pub uninterp spec fn instante_de_timestamp(segundos: int) -> Option<(int, int, int, int)>;

/// `chrono::DateTime::from_timestamp(segundos, 0)`: la fecha y los segundos
/// desde la medianoche, en UTC, del instante a `segundos` de la época Unix;
/// `None` si la fecha sale del rango de `chrono`. Lo que devuelve es función
/// de `segundos`; la fecha es una fecha de `chrono` (válida), los segundos
/// son el resto euclídeo por 86400, y un instante no anterior a la época cae
/// en 1970 o después.
#[verifier::external_body]
fn leer_timestamp(segundos: i64) -> (r: Option<(Fecha, u32)>)
    ensures
        match r {
            Some(x) => instante_de_timestamp(segundos as int) == Some(
                (x.0.anio as int, x.0.mes as int, x.0.dia as int, x.1 as int),
            ) && x.0.valida() && x.1 < 86400 && (segundos >= 0 ==> x.0.anio >= 1970),
            None => instante_de_timestamp(segundos as int) is None,
        },
{
    chrono::DateTime::from_timestamp(segundos, 0).map(
        |t| {
            let d = t.date_naive();
            (Fecha { anio: d.year(), mes: d.month(), dia: d.day() }, t.time().num_seconds_from_midnight())
        },
    )
}

/// La fecha y los segundos desde la medianoche, en UTC, según el reloj del
/// sistema; nada si el reloj no se puede leer (marca una hora anterior a 1970
/// o fuera del rango de fechas).
pub(crate) fn ahora_utc() -> (r: Option<(Fecha, u32)>)
    ensures
        r matches Some(x) ==> x.0.valida() && x.0.anio >= 1970 && x.1 < 86400,
{
    match segundos_desde_la_epoca() {
        None => None,
        Some(s) => if s <= 0x7fff_ffff_ffff_ffffu64 {
            leer_timestamp(s as i64)
        } else {
            None
        },
    }
}

/// Diferencia de la hora de Perú con UTC (UTC-5), en segundos.
pub const DESFASE_PERU: u32 = 18000;

/// La fecha y los segundos desde la medianoche en Perú (UTC-5) para un
/// instante en UTC: cinco horas antes, lo que cae en el día anterior cuando
/// en UTC aún no son las cinco de la mañana.
pub open spec fn spec_hora_de_peru(utc: Fecha, segundos: int) -> (Fecha, int) {
    if segundos >= DESFASE_PERU {
        (utc, segundos - DESFASE_PERU)
    } else {
        (spec_dia_anterior(utc).unwrap(), segundos + 86400 - DESFASE_PERU)
    }
}

/// El día anterior a una fecha válida, si existe, es válido.
pub proof fn lema_dia_anterior_valido(f: Fecha)
    requires
        f.valida(),
    ensures
        spec_dia_anterior(f) matches Some(g) ==> g.valida(),
{
}

/// Pasa un instante de UTC a la hora de Perú.
pub fn hora_de_peru(utc: Fecha, segundos: u32) -> (r: (Fecha, u32))
    requires
        utc.valida(),
        segundos < 86400,
        segundos < DESFASE_PERU ==> spec_dia_anterior(utc) is Some,
    ensures
        (r.0, r.1 as int) == spec_hora_de_peru(utc, segundos as int),
        r.0.valida(),
        r.1 < 86400,
{
    proof {
        lema_dia_anterior_valido(utc);
    }
    if segundos >= DESFASE_PERU {
        (utc, segundos - DESFASE_PERU)
    } else {
        (restar_un_dia(utc), segundos + (86400 - DESFASE_PERU))
    }
}

/// El mes siguiente al de la fecha: (año, mes).
pub open spec fn mes_siguiente(f: Fecha) -> (int, int) {
    if f.mes == 12 {
        (f.anio + 1, 1)
    } else {
        (f.anio as int, f.mes + 1)
    }
}

/// El último día del mes de `f`. Si el mes siguiente no es representable
/// (diciembre del último año), vale el día del día anterior a `f`.
pub open spec fn spec_ultimo_dia(f: Fecha) -> int {
    let (y, m) = mes_siguiente(f);
    if fecha_valida(y, m, 1) {
        dias_del_mes(f.anio as int, f.mes as int)
    } else {
        match spec_dia_anterior(f) {
            Some(p) => p.dia as int,
            None => f.dia as int,
        }
    }
}

/// Retorna el número del último día del mes de la fecha dada: el día anterior
/// al primero del mes siguiente.
pub fn ultimo_dia_del_mes(fecha: Fecha) -> (r: u32)
    requires
        fecha.valida(),
    ensures
        r == spec_ultimo_dia(fecha),
{
    let (y, m) = if fecha.mes == 12 {
        (fecha.anio + 1, 1u32)
    } else {
        (fecha.anio, fecha.mes + 1)
    };
    let primero = match crear_fecha(y, m, 1) {
        Some(p) => p,
        None => fecha,
    };
    let anterior = match dia_anterior(primero) {
        Some(a) => a,
        None => fecha,
    };
    anterior.dia
}

/// Fecha de vencimiento de un pago según el tipo de vencimiento y la fecha del tour:
/// - "semanal": el domingo de la misma semana del tour;
/// - "quincenal": el 15 si el tour es hasta el 15; si no, el 30 o el último día
///   del mes (el menor); el 31 pasa al 15 del mes siguiente;
/// - "mensual" y cualquier otro valor: el último día del mes del tour.
///
/// Cuando una fecha calculada no es representable, vale la fecha del tour.
pub open spec fn spec_vencimiento(tipo: Seq<char>, f: Fecha) -> Fecha {
    if tipo == "semanal"@ {
        spec_sumar_dias(f, 6 - dia_semana_desde_lunes(f.anio as int, f.mes as int, f.dia as int))
    } else if tipo == "quincenal"@ {
        if f.dia <= 15 {
            Fecha { anio: f.anio, mes: f.mes, dia: 15 }
        } else {
            let ultimo = spec_ultimo_dia(f);
            let dv = if ultimo < 30 {
                ultimo
            } else {
                30
            };
            if f.dia <= dv {
                Fecha { anio: f.anio, mes: f.mes, dia: dv as u32 }
            } else {
                let (y, m) = mes_siguiente(f);
                if fecha_valida(y, m, 15) {
                    Fecha { anio: y as i32, mes: m as u32, dia: 15 }
                } else {
                    f
                }
            }
        }
    } else {
        let ultimo = spec_ultimo_dia(f);
        if fecha_valida(f.anio as int, f.mes as int, ultimo) {
            Fecha { anio: f.anio, mes: f.mes, dia: ultimo as u32 }
        } else {
            f
        }
    }
}

/// Calcula la fecha de vencimiento según el tipo de vencimiento y la fecha del tour.
pub fn calcular_fecha_vencimiento(tipo: &str, fecha_tour: Fecha) -> (r: Fecha)
    requires
        fecha_tour.valida(),
        tipo@ == "semanal"@ ==> spec_sumar_dias(
            fecha_tour,
            6 - dia_semana_desde_lunes(
                fecha_tour.anio as int,
                fecha_tour.mes as int,
                fecha_tour.dia as int,
            ),
        ).valida(),
    ensures
        r == spec_vencimiento(tipo@, fecha_tour),
{
    if mismo_texto(tipo, "semanal") {
        let dia = dia_de_la_semana(fecha_tour);
        if dia == 6 {
            assert(spec_sumar_dias(fecha_tour, 0) == fecha_tour);
            fecha_tour
        } else {
            sumar_dias(fecha_tour, 6 - dia)
        }
    } else if mismo_texto(tipo, "quincenal") {
        let day = fecha_tour.dia;
        if day <= 15 {
            match crear_fecha(fecha_tour.anio, fecha_tour.mes, 15) {
                Some(f) => f,
                None => fecha_tour,
            }
        } else {
            let ultimo_dia = ultimo_dia_del_mes(fecha_tour);
            let dia_vencimiento = if ultimo_dia < 30 {
                ultimo_dia
            } else {
                30
            };
            if day <= dia_vencimiento {
                match crear_fecha(fecha_tour.anio, fecha_tour.mes, dia_vencimiento) {
                    Some(f) => f,
                    None => fecha_tour,
                }
            } else {
                let (y, m) = if fecha_tour.mes == 12 {
                    (fecha_tour.anio + 1, 1u32)
                } else {
                    (fecha_tour.anio, fecha_tour.mes + 1)
                };
                match crear_fecha(y, m, 15) {
                    Some(f) => f,
                    None => fecha_tour,
                }
            }
        }
    } else {
        let ultimo = ultimo_dia_del_mes(fecha_tour);
        match crear_fecha(fecha_tour.anio, fecha_tour.mes, ultimo) {
            Some(f) => f,
            None => fecha_tour,
        }
    }
}


/// `n` con al menos cuatro dígitos, completado con ceros a la izquierda.
pub open spec fn cuatro_digitos_o_mas(n: nat) -> Seq<char> {
    let d = digitos(n);
    if d.len() < 4 {
        Seq::new((4 - d.len()) as nat, |i: int| '0') + d
    } else {
        d
    }
}

/// El año como lo escribe `chrono`: cuatro dígitos entre 0 y 9999; fuera de
/// ese rango, con signo y al menos cuatro dígitos.
pub open spec fn anio_escrito(y: int) -> Seq<char> {
    if 0 <= y <= 9999 {
        dos_digitos(y / 100) + dos_digitos(y % 100)
    } else if y < 0 {
        seq!['-'] + cuatro_digitos_o_mas((-y) as nat)
    } else {
        seq!['+'] + cuatro_digitos_o_mas(y as nat)
    }
}

/// La fecha como la escribe `chrono`: año-mes-día, mes y día con dos dígitos.
pub open spec fn fecha_escrita(f: Fecha) -> Seq<char> {
    anio_escrito(f.anio as int) + seq!['-'] + dos_digitos(f.mes as int) + seq!['-'] + dos_digitos(f.dia as int)
}

/// `Display` de `chrono::NaiveDate`: el año (cuatro dígitos, o con signo fuera
/// de 0..=9999), el mes y el día con dos dígitos, separados por guiones.
#[verifier::external_body]
pub(crate) fn escribir_fecha(f: Fecha) -> (r: String)
    requires
        f.valida(),
    ensures
        r@ == fecha_escrita(f),
{
    chrono::NaiveDate::from_ymd_opt(f.anio, f.mes, f.dia).unwrap().to_string()
}


/// ¿Es una fecha existente y representable?
pub fn es_fecha_valida(f: Fecha) -> (r: bool)
    ensures
        r == f.valida(),
{
    Fecha::new(f.anio, f.mes, f.dia).is_some()
}

/// ¿Tiene día anterior la fecha? (Solo la primera fecha representable no lo tiene.)
pub fn tiene_dia_anterior(f: Fecha) -> (r: bool)
    requires
        f.valida(),
    ensures
        r == (spec_dia_anterior(f) is Some),
{
    dia_anterior(f).is_some()
}

/// ¿Es representable la fecha `k` días después (hasta 28)? Solo deja de
/// serlo al pasar del último año representable.
pub fn suma_de_dias_representable(f: Fecha, k: u32) -> (r: bool)
    requires
        f.valida(),
        k <= 28,
    ensures
        r == spec_sumar_dias(f, k as int).valida(),
{
    !(f.anio == ANIO_MAXIMO && f.mes == 12 && f.dia + k > 31)
}

/// ¿Es representable el domingo de la semana de la fecha?
pub fn domingo_representable(f: Fecha) -> (r: bool)
    requires
        f.valida(),
    ensures
        r == spec_sumar_dias(f, 6 - dia_semana_desde_lunes(f.anio as int, f.mes as int, f.dia as int)).valida(),
{
    let d = dia_de_la_semana(f);
    assert(0 <= dia_semana_desde_lunes(f.anio as int, f.mes as int, f.dia as int) < 7);
    suma_de_dias_representable(f, 6 - d)
}

/// La fecha de hoy (UTC) según el reloj; nada si el reloj no se puede leer.
pub fn fecha_de_hoy() -> (r: Option<Fecha>)
    ensures
        r matches Some(f) ==> f.valida() && f.anio >= 1970,
{
    match ahora_utc() {
        Some(x) => Some(x.0),
        None => None,
    }
}


/// Sumar días no lleva a una fecha anterior.
proof fn lema_sumar_dias_no_retrocede(f: Fecha, k: int)
    requires
        f.valida(),
        0 <= k <= 28,
    ensures
        !spec_sumar_dias(f, k).antes_de(f),
{
}

/// Ningún vencimiento cae antes de la fecha del tour: el domingo de la semana,
/// el 15, el 30 o fin de mes, o el 15 del mes siguiente, son posteriores o
/// iguales. Vale para toda fecha válida salvo las de diciembre del último año
/// representable, donde el fin de mes mensual (sin mes siguiente en el
/// calendario de `chrono`) resulta el día anterior a la fecha.
pub proof fn ley_vencimiento_no_anterior_al_tour(tipo: Seq<char>, f: Fecha)
    requires
        f.valida(),
        !(f.anio == ANIO_MAXIMO && f.mes == 12),
    ensures
        !spec_vencimiento(tipo, f).antes_de(f),
{
    let (y, m) = mes_siguiente(f);
    assert(fecha_valida(y, m, 1));
    if tipo == "semanal"@ {
        let dow = dia_semana_desde_lunes(f.anio as int, f.mes as int, f.dia as int);
        assert(0 <= dow < 7);
        lema_sumar_dias_no_retrocede(f, 6 - dow);
    }
}

/// Días del año (contado desde marzo) antes del primero de cada mes.
pub open spec fn dias_antes_del_mes(mes: int) -> int {
    if mes == 3 { 0 } else if mes == 4 { 31 } else if mes == 5 { 61 } else if mes == 6 { 92 }
    else if mes == 7 { 122 } else if mes == 8 { 153 } else if mes == 9 { 184 } else if mes == 10 { 214 }
    else if mes == 11 { 245 } else if mes == 12 { 275 } else if mes == 1 { 306 } else { 337 }
}

/// El número de un día en la cuenta continua del calendario gregoriano
/// proléptico: dos días consecutivos tienen números consecutivos, así que la
/// resta de dos números es la cantidad de días entre las fechas.
pub open spec fn numero_de_dia(f: Fecha) -> int {
    let y: int = if f.mes < 3 { f.anio - 1 } else { f.anio as int };
    365 * y + y / 4 - y / 100 + y / 400 + dias_antes_del_mes(f.mes as int) + f.dia
}

/// Al pasar de un año al siguiente, la cuenta de múltiplos de `d` sube en uno
/// justo cuando el año nuevo es múltiplo de `d`.
proof fn lema_salto_de_division(y: int, d: int)
    requires
        d == 4 || d == 100 || d == 400,
    ensures
        (y + 1) / d - y / d == if (y + 1) % d == 0 { 1int } else { 0 },
{
    if d == 4 {
        assert((y + 1) / 4 - y / 4 == if (y + 1) % 4 == 0 { 1int } else { 0 });
    } else if d == 100 {
        assert((y + 1) / 100 - y / 100 == if (y + 1) % 100 == 0 { 1int } else { 0 });
    } else {
        assert((y + 1) / 400 - y / 400 == if (y + 1) % 400 == 0 { 1int } else { 0 });
    }
}

/// Del 28 o 29 de febrero al 1 de marzo hay un día.
proof fn lema_fin_de_febrero(anio: int)
    requires
        i32::MIN < anio < i32::MAX,
    ensures
        numero_de_dia(Fecha { anio: anio as i32, mes: 3, dia: 1 }) == numero_de_dia(
            Fecha { anio: anio as i32, mes: 2, dia: dias_del_mes(anio, 2) as u32 },
        ) + 1,
{
    lema_salto_de_division(anio - 1, 4);
    lema_salto_de_division(anio - 1, 100);
    lema_salto_de_division(anio - 1, 400);
}

/// Del último día de un mes al primero del siguiente hay un día.
proof fn lema_cambio_de_mes(anio: int, mes: int)
    requires
        1 <= mes <= 12,
        i32::MIN < anio < i32::MAX,
    ensures
        ({
            let ultimo = Fecha { anio: anio as i32, mes: mes as u32, dia: dias_del_mes(anio, mes) as u32 };
            let primero = if mes < 12 {
                Fecha { anio: anio as i32, mes: (mes + 1) as u32, dia: 1 }
            } else {
                Fecha { anio: (anio + 1) as i32, mes: 1, dia: 1 }
            };
            numero_de_dia(primero) == numero_de_dia(ultimo) + 1
        }),
{
    if mes == 2 {
        lema_fin_de_febrero(anio);
    }
}

/// Sumar `k` días (hasta 28) avanza `k` en la cuenta de días.
proof fn lema_sumar_dias_numero(f: Fecha, k: int)
    requires
        f.valida(),
        0 <= k <= 28,
    ensures
        numero_de_dia(spec_sumar_dias(f, k)) == numero_de_dia(f) + k,
        1 <= spec_sumar_dias(f, k).mes <= 12,
{
    let dm = dias_del_mes(f.anio as int, f.mes as int);
    if f.dia + k > dm {
        lema_cambio_de_mes(f.anio as int, f.mes as int);
    }
}

/// El día de la semana (lunes = 0) sigue la cuenta de días: es el número del
/// día más uno, módulo siete.
proof fn lema_dia_semana_y_numero(f: Fecha)
    requires
        1 <= f.mes <= 12,
    ensures
        dia_semana_desde_lunes(f.anio as int, f.mes as int, f.dia as int) == (numero_de_dia(f) + 1) % 7,
{
    let y: int = if f.mes < 3 { f.anio - 1 } else { f.anio as int };
    let s = y + y / 4 - y / 100 + y / 400 + desplazamiento_mes(f.mes as int) + f.dia;
    let q: int = (dias_antes_del_mes(f.mes as int) - desplazamiento_mes(f.mes as int) - 5) / 7;
    assert(dias_antes_del_mes(f.mes as int) - desplazamiento_mes(f.mes as int) - 5 == 7 * q);
    assert(numero_de_dia(f) == s + 5 + 7 * (52 * y + q));
    let n = 52 * y + q;
    assert((s % 7 + 6) % 7 == (s + 5 + 7 * n + 1) % 7) by (nonlinear_arith);
}

/// La fecha de vencimiento cae a lo sumo 30 días después de la del tour y
/// nunca antes; la semanal es un domingo, a lo sumo 6 días después; y
/// cualquier tipo que no es semanal ni quincenal vence como el mensual. Vale
/// para toda fecha válida salvo, en el vencimiento mensual, los días 2 a 31 de
/// diciembre del último año representable, donde el fin de mes (sin mes
/// siguiente en el calendario de `chrono`) resulta el día anterior a la fecha.
pub proof fn ley_vencimiento_dentro_de_un_mes(tipo: Seq<char>, f: Fecha)
    requires
        f.valida(),
        !(tipo != "semanal"@ && tipo != "quincenal"@ && f.anio == ANIO_MAXIMO && f.mes == 12 && f.dia >= 2),
    ensures
        ({
            let v = spec_vencimiento(tipo, f);
            &&& 0 <= numero_de_dia(v) - numero_de_dia(f) <= 30
            &&& tipo == "semanal"@ ==> dia_semana_desde_lunes(v.anio as int, v.mes as int, v.dia as int) == 6
                && numero_de_dia(v) - numero_de_dia(f) <= 6
            &&& tipo != "semanal"@ && tipo != "quincenal"@ ==> v == spec_vencimiento("mensual"@, f)
        }),
{
    let v = spec_vencimiento(tipo, f);
    let (y, m) = mes_siguiente(f);
    if tipo == "semanal"@ {
        let dow = dia_semana_desde_lunes(f.anio as int, f.mes as int, f.dia as int);
        assert(0 <= dow < 7);
        lema_sumar_dias_numero(f, 6 - dow);
        lema_dia_semana_y_numero(f);
        lema_dia_semana_y_numero(v);
        let n = numero_de_dia(f);
        assert((n + 6 - dow + 1) % 7 == 6) by (nonlinear_arith)
            requires dow == (n + 1) % 7;
        assert(numero_de_dia(v) - numero_de_dia(f) == 6 - dow);
        assert(dia_semana_desde_lunes(v.anio as int, v.mes as int, v.dia as int) == 6);
    } else if tipo == "quincenal"@ {
        if f.dia > 15 && fecha_valida(y, m, 1) {
            let dm = dias_del_mes(f.anio as int, f.mes as int);
            if f.dia > (if dm < 30 { dm } else { 30 }) && fecha_valida(y, m, 15) {
                lema_cambio_de_mes(f.anio as int, f.mes as int);
            }
        }
        if f.dia > 15 && !fecha_valida(y, m, 1) {
            assert(f.anio == ANIO_MAXIMO && f.mes == 12);
        }
        assert(0 <= numero_de_dia(v) - numero_de_dia(f));
        assert(numero_de_dia(v) - numero_de_dia(f) <= 30);
    } else {
        if !fecha_valida(y, m, 1) {
            assert(f.anio == ANIO_MAXIMO && f.mes == 12 && f.dia == 1);
        }
        reveal_strlit("mensual");
        reveal_strlit("semanal");
        reveal_strlit("quincenal");
        assert("mensual"@[0] != "semanal"@[0]);
        assert("mensual"@ != "quincenal"@);
        assert(0 <= numero_de_dia(v) - numero_de_dia(f));
        assert(numero_de_dia(v) - numero_de_dia(f) <= 30);
        assert(v == spec_vencimiento("mensual"@, f));
    }
}

} // verus!
