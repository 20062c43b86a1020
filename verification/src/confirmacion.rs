//! Confirmación de una reserva: qué files pueden confirmarse, la política de
//! pago de la entidad y la deuda que se crea por cada tour del file, con su
//! fecha de vencimiento.

use vstd::prelude::*;
use crate::fechas::{
    Fecha, spec_dia_anterior, spec_sumar_dias, spec_vencimiento, dia_semana_desde_lunes,
    calcular_fecha_vencimiento, restar_un_dia, sumar_dias, es_fecha_valida, tiene_dia_anterior,
    suma_de_dias_representable, domingo_representable,
};
use crate::pagos::{monto_acotado, MONTO_MAXIMO};
use crate::estados::{es_confirmable, es_estado_confirmable};
use crate::edicion::{LineaEntrada, monto_entradas, sumar_entradas, lineas_acotadas, precio_o_cero, LINEAS_MAXIMAS};
use crate::texto::{mismo_texto, texto, unir};

verus! {

// ===================== Qué files pueden confirmarse =====================

/// Por qué no se confirma una reserva.
#[derive(Debug, Clone)]
pub enum ErrorConfirmacion {
    /// El file no está reservado.
    EstadoNoConfirmable { status: String },
    /// El file ya tiene registros de pago.
    YaTienePagos,
    /// El file no tiene tours.
    SinTours,
}

/// El mensaje de un error de confirmación.
pub open spec fn mensaje_confirmacion(e: ErrorConfirmacion) -> Seq<char> {
    match e {
        ErrorConfirmacion::EstadoNoConfirmable { status } => "El file no puede ser confirmado. Estado actual: '"@
            + status@ + "'. Estados válidos para confirmación: reservado"@,
        ErrorConfirmacion::YaTienePagos => "Este file ya tiene registros de pago asociados"@,
        ErrorConfirmacion::SinTours => "El file no tiene tours asociados. No se puede confirmar sin file_tours."@,
    }
}

impl ErrorConfirmacion {
    /// El mensaje del error.
    pub fn mensaje(&self) -> (r: String)
        ensures
            r@ == mensaje_confirmacion(*self),
    {
        proof {
            reveal_strlit("El file no puede ser confirmado. Estado actual: '");
            reveal_strlit("'. Estados válidos para confirmación: reservado");
            reveal_strlit("Este file ya tiene registros de pago asociados");
            reveal_strlit("El file no tiene tours asociados. No se puede confirmar sin file_tours.");
        }
        match self {
            ErrorConfirmacion::EstadoNoConfirmable { status } => {
                let r = texto("El file no puede ser confirmado. Estado actual: '");
                let r = unir(r, status.as_str());
                unir(r, "'. Estados válidos para confirmación: reservado")
            },
            ErrorConfirmacion::YaTienePagos => texto("Este file ya tiene registros de pago asociados"),
            ErrorConfirmacion::SinTours => texto("El file no tiene tours asociados. No se puede confirmar sin file_tours."),
        }
    }
}

/// Solo se confirma un file reservado, y sin registros de pago.
pub fn validar_confirmacion(status: &str, hay_pagos: bool) -> (r: Result<(), ErrorConfirmacion>)
    ensures
        !es_confirmable(status@) ==> (r matches Err(ErrorConfirmacion::EstadoNoConfirmable { status: s }) && s@
            == status@),
        es_confirmable(status@) && hay_pagos ==> (r matches Err(ErrorConfirmacion::YaTienePagos)),
        es_confirmable(status@) && !hay_pagos ==> r is Ok,
{
    if !es_estado_confirmable(status) {
        Err(ErrorConfirmacion::EstadoNoConfirmable { status: texto(status) })
    } else if hay_pagos {
        Err(ErrorConfirmacion::YaTienePagos)
    } else {
        Ok(())
    }
}

// ===================== Política de pago =====================

/// La política de pago de la entidad del file.
#[derive(Debug, Clone)]
pub struct PoliticaPago {
    /// Si se paga antes del primer tour.
    pub pago_anticipado: bool,
    /// "semanal", "quincenal" o "mensual".
    pub tipo_vencimiento: Option<String>,
}

/// ¿Es un file de hoteles?
pub fn es_de_hoteles(entidad: &Option<String>) -> (r: bool)
    ensures
        r == (match entidad {
            Some(e) => e@ == "hoteles"@,
            None => false,
        }),
{
    match entidad {
        Some(e) => mismo_texto(e.as_str(), "hoteles"),
        None => false,
    }
}

/// La política de los hoteles: sin pago anticipado, vencimiento mensual.
pub fn politica_de_hoteles() -> (r: PoliticaPago)
    ensures
        !r.pago_anticipado,
        r.tipo_vencimiento matches Some(t) && t@ == "mensual"@,
{
    PoliticaPago { pago_anticipado: false, tipo_vencimiento: Some(texto("mensual")) }
}

/// El tipo de vencimiento de la política: el configurado, o "mensual".
pub open spec fn tipo_de_politica(p: PoliticaPago) -> Seq<char> {
    match p.tipo_vencimiento {
        Some(t) => t@,
        None => "mensual"@,
    }
}

// ===================== Fecha de vencimiento =====================

/// La fecha más temprana entre las de los tours.
pub open spec fn fecha_minima(fs: Seq<Option<Fecha>>) -> Option<Fecha>
    decreases fs.len(),
{
    if fs.len() == 0 {
        None
    } else {
        let pre = fecha_minima(fs.drop_last());
        match fs.last() {
            Some(f) => match pre {
                Some(p) => if f.antes_de(p) {
                    Some(f)
                } else {
                    Some(p)
                },
                None => Some(f),
            },
            None => pre,
        }
    }
}

/// La fecha más temprana entre las de los tours.
pub fn buscar_fecha_minima(fechas: &Vec<Option<Fecha>>) -> (r: Option<Fecha>)
    ensures
        r == fecha_minima(fechas@),
        r matches Some(f) ==> fechas@.contains(Some(f)),
{
    let mut r: Option<Fecha> = None;
    let mut i: usize = 0;
    while i < fechas.len()
        invariant
            i <= fechas.len(),
            r == fecha_minima(fechas@.take(i as int)),
            r matches Some(f) ==> fechas@.take(i as int).contains(Some(f)),
        decreases fechas.len() - i,
    {
        assert(fechas@.take(i as int + 1).drop_last() == fechas@.take(i as int));
        assert(fechas@.take(i as int + 1).last() == fechas@[i as int]);
        let ghost antes = r;
        match fechas[i] {
            Some(f) => {
                r = match r {
                    Some(p) => if f.es_anterior_a(&p) { Some(f) } else { Some(p) },
                    None => Some(f),
                };
            },
            None => {},
        }
        proof {
            assert(fechas@.take(i as int + 1)[i as int] == fechas@[i as int]);
            if let Some(x) = antes {
                let k = choose|k: int| 0 <= k < fechas@.take(i as int).len() && fechas@.take(i as int)[k] == Some(x);
                assert(fechas@.take(i as int + 1)[k] == Some(x));
            }
        }
        i = i + 1;
    }
    assert(fechas@.take(fechas.len() as int) == fechas@);
    r
}

/// La fecha de pago anticipado: el día anterior al primer tour; sin fechas de
/// tour, una semana después de hoy.
pub open spec fn spec_pago_anticipado(fechas: Seq<Option<Fecha>>, hoy: Fecha) -> Fecha {
    match fecha_minima(fechas) {
        Some(f) => spec_dia_anterior(f).unwrap(),
        None => spec_sumar_dias(hoy, 7),
    }
}

/// ¿Están las fechas dentro del calendario y tienen día anterior? (restar un
/// día a la primera fecha representable hace fallar a `chrono`).
pub open spec fn fechas_con_anterior(fechas: Seq<Option<Fecha>>) -> bool {
    forall|i: int| 0 <= i < fechas.len() ==> ((#[trigger] fechas[i]) matches Some(f) ==> f.valida()
        && spec_dia_anterior(f) is Some)
}

/// Calcula la fecha de pago anticipado.
pub fn fecha_de_pago_anticipado(fechas: &Vec<Option<Fecha>>, hoy: Fecha) -> (r: Fecha)
    requires
        fechas_con_anterior(fechas@),
        hoy.valida(),
        spec_sumar_dias(hoy, 7).valida(),
    ensures
        r == spec_pago_anticipado(fechas@, hoy),
{
    match buscar_fecha_minima(fechas) {
        Some(f) => {
            proof {
                let k = choose|k: int| 0 <= k < fechas@.len() && fechas@[k] == Some(f);
                assert(fechas@[k] == Some(f));
            }
            restar_un_dia(f)
        },
        None => sumar_dias(hoy, 7),
    }
}

/// ¿Se puede calcular el vencimiento de ese tipo para la fecha? (el domingo
/// de la semana debe existir en el calendario de `chrono`).
pub open spec fn vencimiento_calculable(tipo: Seq<char>, f: Fecha) -> bool {
    &&& f.valida()
    &&& tipo == "semanal"@ ==> spec_sumar_dias(
        f,
        6 - dia_semana_desde_lunes(f.anio as int, f.mes as int, f.dia as int),
    ).valida()
}

// ===================== Deudas de la confirmación =====================

/// Un tour del file que se confirma, con las entradas que tiene asignadas.
#[derive(Debug, Clone)]
pub struct TourAConfirmar {
    pub id: i32,
    /// Precio aplicado en céntimos.
    pub precio_aplicado: Option<i64>,
    pub fecha_tour: Option<Fecha>,
    pub entradas: Vec<LineaEntrada>,
}

/// Vista de un tour que se confirma.
pub struct TourAConfirmarV {
    pub id: i32,
    pub precio: Option<i64>,
    pub fecha: Option<Fecha>,
    pub entradas: Seq<(Seq<char>, Option<i64>, i32)>,
}

impl DeepView for TourAConfirmar {
    type V = TourAConfirmarV;

    open spec fn deep_view(&self) -> TourAConfirmarV {
        TourAConfirmarV {
            id: self.id,
            precio: self.precio_aplicado,
            fecha: self.fecha_tour,
            entradas: self.entradas.deep_view(),
        }
    }
}

/// La deuda que se crea para un tour (pendiente, sin pagado, cuota cero).
#[derive(Debug, Clone, Copy, PartialEq, Eq, Structural)]
pub struct DeudaNueva {
    pub id_file_tour: i32,
    /// El precio aplicado del tour (cero si no lo tiene).
    pub monto_total: i64,
    pub fecha_vencimiento: Fecha,
    /// Si el tour tiene entradas.
    pub entradas: bool,
    /// El monto de sus entradas, si las tiene.
    pub entrada_precio: Option<i128>,
}

/// La deuda de un tour: su vencimiento es el anticipado si lo hay; si no, el
/// de la política según la fecha del tour (o hoy, si no la tiene).
pub open spec fn deuda_de(t: TourAConfirmarV, anticipado: Option<Fecha>, tipo: Seq<char>, hoy: Fecha) -> DeudaNueva {
    DeudaNueva {
        id_file_tour: t.id,
        monto_total: precio_o_cero(t.precio) as i64,
        fecha_vencimiento: match anticipado {
            Some(f) => f,
            None => spec_vencimiento(
                tipo,
                match t.fecha {
                    Some(f) => f,
                    None => hoy,
                },
            ),
        },
        entradas: t.entradas.len() > 0,
        entrada_precio: if t.entradas.len() > 0 {
            Some(monto_entradas(t.entradas, true) as i128)
        } else {
            None
        },
    }
}

/// Cómo queda el file al confirmarlo.
#[derive(Debug, Clone)]
pub struct FileConfirmado {
    pub status: String,
    /// Monto total en céntimos.
    pub monto_total: i64,
}

/// El file confirmado pasa a "confirmado", con el monto total del pedido si
/// trae uno, o el que ya tenía.
pub fn file_confirmado(monto_pedido: Option<i64>, monto_actual: i64) -> (r: FileConfirmado)
    ensures
        r.status@ == "confirmado"@,
        r.monto_total == match monto_pedido {
            Some(m) => m,
            None => monto_actual,
        },
{
    FileConfirmado {
        status: texto("confirmado"),
        monto_total: match monto_pedido {
            Some(m) => m,
            None => monto_actual,
        },
    }
}

/// Las deudas de la confirmación y la fecha de vencimiento que se informa.
#[derive(Debug, Clone)]
pub struct PlanConfirmacion {
    pub deudas: Vec<DeudaNueva>,
    /// La fecha anticipada, o el vencimiento de la primera deuda.
    pub fecha_vencimiento: Fecha,
}

/// ¿Se pueden calcular todas las deudas? Entradas acotadas, y vencimientos
/// calculables (si no hay pago anticipado) para la fecha de cada tour o hoy.
pub open spec fn confirmacion_calculable(ts: Seq<TourAConfirmarV>, tipo: Seq<char>, anticipado: bool, hoy: Fecha) -> bool {
    forall|i: int| 0 <= i < ts.len() ==> {
        &&& (#[trigger] ts[i]).entradas.len() <= LINEAS_MAXIMAS
        &&& lineas_acotadas(ts[i].entradas)
        &&& !anticipado ==> vencimiento_calculable(
            tipo,
            match ts[i].fecha {
                Some(f) => f,
                None => hoy,
            },
        )
    }
}

/// Las fechas de los tours.
pub open spec fn fechas_de(ts: Seq<TourAConfirmarV>) -> Seq<Option<Fecha>> {
    ts.map_values(|t: TourAConfirmarV| t.fecha)
}

/// Planifica las deudas de la confirmación de un file con `tours`: una deuda
/// pendiente por tour, por su precio aplicado y con el monto de sus entradas;
/// con pago anticipado, todas vencen el día anterior al primer tour (o en una
/// semana si ningún tour tiene fecha); si no, según la política y la fecha
/// del tour. Sin tours se rechaza.
pub fn planificar_confirmacion(tours: &Vec<TourAConfirmar>, politica: &PoliticaPago, hoy: Fecha) -> (r: Result<
    PlanConfirmacion,
    ErrorConfirmacion,
>)
    requires
        hoy.valida(),
        confirmacion_calculable(tours.deep_view(), tipo_de_politica(*politica), politica.pago_anticipado, hoy),
        tours@.len() > 0 && politica.pago_anticipado ==> {
            &&& fechas_con_anterior(fechas_de(tours.deep_view()))
            &&& spec_sumar_dias(hoy, 7).valida()
        },
    ensures
        ({
            let ts = tours.deep_view();
            let anticipado = if politica.pago_anticipado {
                Some(spec_pago_anticipado(fechas_de(ts), hoy))
            } else {
                None
            };
            match r {
                Err(e) => ts.len() == 0 && e matches ErrorConfirmacion::SinTours,
                Ok(p) => {
                    &&& ts.len() > 0
                    &&& p.deudas@.len() == ts.len()
                    &&& forall|i: int| 0 <= i < ts.len() ==> #[trigger] p.deudas@[i] == deuda_de(
                        ts[i],
                        anticipado,
                        tipo_de_politica(*politica),
                        hoy,
                    )
                    &&& p.fecha_vencimiento == match anticipado {
                        Some(f) => f,
                        None => p.deudas@[0].fecha_vencimiento,
                    }
                },
            }
        }),
{
    let ghost ts = tours.deep_view();
    if tours.len() == 0 {
        return Err(ErrorConfirmacion::SinTours);
    }
    let tipo: &str = match &politica.tipo_vencimiento {
        Some(t) => t.as_str(),
        None => "mensual",
    };
    proof {
        reveal_strlit("mensual");
    }
    assert(tipo@ == tipo_de_politica(*politica));
    let anticipado: Option<Fecha> = if politica.pago_anticipado {
        let mut fechas: Vec<Option<Fecha>> = Vec::new();
        let mut k: usize = 0;
        while k < tours.len()
            invariant
                k <= tours.len(),
                ts == tours.deep_view(),
                fechas@ == fechas_de(ts).take(k as int),
            decreases tours.len() - k,
        {
            assert(ts[k as int] == tours@[k as int].deep_view());
            fechas.push(tours[k].fecha_tour);
            assert(fechas_de(ts).take(k as int + 1) == fechas_de(ts).take(k as int).push(ts[k as int].fecha));
            k = k + 1;
        }
        assert(fechas_de(ts).take(tours.len() as int) == fechas_de(ts));
        Some(fecha_de_pago_anticipado(&fechas, hoy))
    } else {
        None
    };
    let mut deudas: Vec<DeudaNueva> = Vec::new();
    let mut i: usize = 0;
    while i < tours.len()
        invariant
            i <= tours.len(),
            ts == tours.deep_view(),
            ts.len() == tours.len(),
            hoy.valida(),
            tipo@ == tipo_de_politica(*politica),
            confirmacion_calculable(ts, tipo@, politica.pago_anticipado, hoy),
            anticipado is Some == politica.pago_anticipado,
            deudas@.len() == i,
            forall|q: int| 0 <= q < i ==> #[trigger] deudas@[q] == deuda_de(ts[q], anticipado, tipo@, hoy),
        decreases tours.len() - i,
    {
        let t = &tours[i];
        assert(ts[i as int] == t.deep_view());
        let venc = match anticipado {
            Some(f) => f,
            None => {
                let f = match t.fecha_tour {
                    Some(f) => f,
                    None => hoy,
                };
                calcular_fecha_vencimiento(tipo, f)
            },
        };
        let tiene = t.entradas.len() > 0;
        let ep: Option<i128> = if tiene {
            Some(sumar_entradas(&t.entradas, true))
        } else {
            None
        };
        let monto: i64 = match t.precio_aplicado {
            Some(p) => p,
            None => 0,
        };
        deudas.push(
            DeudaNueva { id_file_tour: t.id, monto_total: monto, fecha_vencimiento: venc, entradas: tiene, entrada_precio: ep },
        );
        i = i + 1;
    }
    let fecha = match anticipado {
        Some(f) => f,
        None => deudas[0].fecha_vencimiento,
    };
    Ok(PlanConfirmacion { deudas, fecha_vencimiento: fecha })
}

/// ¿Puede planificarse la confirmación? Hoy es una fecha válida, las deudas
/// pueden calcularse, y con pago anticipado las fechas de los tours tienen día
/// anterior y la semana siguiente a hoy es representable.
pub open spec fn confirmacion_planificable(ts: Seq<TourAConfirmarV>, politica: PoliticaPago, hoy: Fecha) -> bool {
    &&& hoy.valida()
    &&& confirmacion_calculable(ts, tipo_de_politica(politica), politica.pago_anticipado, hoy)
    &&& ts.len() > 0 && politica.pago_anticipado ==> {
        &&& fechas_con_anterior(fechas_de(ts))
        &&& spec_sumar_dias(hoy, 7).valida()
    }
}

/// ¿Están acotados los precios de las líneas?
fn lineas_dentro_de_cota(lineas: &Vec<LineaEntrada>) -> (r: bool)
    ensures
        r == lineas_acotadas(lineas.deep_view()),
{
    let ghost ls = lineas.deep_view();
    let mut i: usize = 0;
    while i < lineas.len()
        invariant
            i <= lineas.len(),
            ls == lineas.deep_view(),
            forall|j: int| 0 <= j < i ==> ((#[trigger] ls[j]).1 matches Some(p) ==> monto_acotado(p as int)),
        decreases lineas.len() - i,
    {
        assert(ls[i as int] == lineas@[i as int].deep_view());
        match lineas[i].precio_unitario {
            Some(p) => if !(-MONTO_MAXIMO <= p && p <= MONTO_MAXIMO) {
                return false;
            },
            None => {},
        }
        i = i + 1;
    }
    true
}

/// Comprueba lo que `planificar_confirmacion` necesita de sus datos.
pub fn confirmacion_es_planificable(tours: &Vec<TourAConfirmar>, politica: &PoliticaPago, hoy: Fecha) -> (r: bool)
    ensures
        r == confirmacion_planificable(tours.deep_view(), *politica, hoy),
{
    let ghost ts = tours.deep_view();
    let ghost tipo = tipo_de_politica(*politica);
    if !es_fecha_valida(hoy) {
        return false;
    }
    proof {
        reveal_strlit("semanal");
        reveal_strlit("mensual");
        assert("mensual"@[0] != "semanal"@[0]);
    }
    let semanal = match &politica.tipo_vencimiento {
        Some(t) => mismo_texto(t.as_str(), "semanal"),
        None => false,
    };
    assert(semanal == (tipo == "semanal"@));
    let anticipado = politica.pago_anticipado;
    let mut i: usize = 0;
    while i < tours.len()
        invariant
            i <= tours.len(),
            ts == tours.deep_view(),
            tipo == tipo_de_politica(*politica),
            semanal == (tipo == "semanal"@),
            anticipado == politica.pago_anticipado,
            hoy.valida(),
            forall|j: int| 0 <= j < i ==> {
                &&& (#[trigger] ts[j]).entradas.len() <= LINEAS_MAXIMAS
                &&& lineas_acotadas(ts[j].entradas)
                &&& !anticipado ==> vencimiento_calculable(
                    tipo,
                    match ts[j].fecha {
                        Some(f) => f,
                        None => hoy,
                    },
                )
                &&& anticipado ==> (ts[j].fecha matches Some(f) ==> f.valida() && spec_dia_anterior(f) is Some)
            },
        decreases tours.len() - i,
    {
        let t = &tours[i];
        assert(ts[i as int] == t.deep_view());
        if t.entradas.len() as u64 > LINEAS_MAXIMAS {
            return false;
        }
        if !lineas_dentro_de_cota(&t.entradas) {
            return false;
        }
        let f = match t.fecha_tour {
            Some(f) => f,
            None => hoy,
        };
        if !anticipado {
            if !es_fecha_valida(f) {
                return false;
            }
            if semanal && !domingo_representable(f) {
                return false;
            }
        } else {
            match t.fecha_tour {
                Some(g) => {
                    assert(fechas_de(ts)[i as int] == ts[i as int].fecha);
                    if !es_fecha_valida(g) {
                        return false;
                    }
                    if !tiene_dia_anterior(g) {
                        return false;
                    }
                },
                None => {},
            }
        }
        i = i + 1;
    }
    if anticipado && tours.len() > 0 {
        assert forall|j: int| 0 <= j < fechas_de(ts).len() implies ((#[trigger] fechas_de(ts)[j]) matches Some(f)
            ==> f.valida() && spec_dia_anterior(f) is Some) by {
            assert(fechas_de(ts)[j] == ts[j].fecha);
        }
        suma_de_dias_representable(hoy, 7)
    } else {
        true
    }
}

} // verus!
