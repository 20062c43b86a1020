//! Saldo a favor: cancelaciones y no-shows de files y de tours, el traspaso de
//! boletos turísticos y de lo pagado a los tours siguientes, la ventana
//! horaria de cada operación, el resumen del saldo de una entidad y su uso.

use vstd::prelude::*;
use crate::pagos::{
    RegistroPago, RegistroVista, Filtro, Campo, suma, sumar, registros_acotados, MONTO_MAXIMO,
    TOLERANCIA, monto_acotado,
};
use crate::contabilidad::{primera_deuda_del_tour, buscar_primera_deuda, lema_cota_sumas};
use crate::edicion::{precio_o_cero, LINEAS_MAXIMAS, cota_aporte};
use crate::registro_pago::min;
use crate::texto::{mismo_texto, texto, unir, i64_a_texto, texto_entero};
use crate::fechas::{Fecha, escribir_fecha, fecha_escrita, ahora_utc, hora_de_peru, spec_hora_de_peru};
use crate::pagos::{Anulacion, anulaciones, anular_registros, ids_que_cumplen, seleccionar_ids};

verus! {

// ===================== Tours y entradas del file =====================

/// Un tour del file, con su orden, su status y su precio aplicado (céntimos).
#[derive(Debug, Clone)]
pub struct TourDelFile {
    pub id: i32,
    pub orden: i32,
    pub status: String,
    pub precio_aplicado: Option<i64>,
    pub fecha_tour: Option<Fecha>,
}

/// Vista de un tour del file: activo si no está cancelado ni en no-show.
pub struct TourV {
    pub id: i32,
    pub orden: i32,
    pub activo: bool,
    pub precio: Option<i64>,
    pub fecha: Option<Fecha>,
}

impl DeepView for TourDelFile {
    type V = TourV;

    open spec fn deep_view(&self) -> TourV {
        TourV {
            id: self.id,
            orden: self.orden,
            activo: self.status@ != "cancelado"@ && self.status@ != "no_show"@,
            precio: self.precio_aplicado,
            fecha: self.fecha_tour,
        }
    }
}

/// ¿Está activo el tour (ni cancelado ni en no-show)?
fn tour_activo(t: &TourDelFile) -> (r: bool)
    ensures
        r == t.deep_view().activo,
{
    !mismo_texto(t.status.as_str(), "cancelado") && !mismo_texto(t.status.as_str(), "no_show")
}

/// Una entrada asignada al tour que se cancela: si es boleto turístico (BTG o
/// BTP), el precio unitario de su tarifa si se encontró, y su cantidad.
#[derive(Debug, Clone, Copy)]
pub struct EntradaDelTour {
    pub id: i32,
    pub boleto_turistico: bool,
    pub precio_unitario: Option<i64>,
    pub cantidad: i32,
}

/// El costo de una entrada: precio por cantidad, o cero sin precio.
pub open spec fn costo(e: EntradaDelTour) -> int {
    match e.precio_unitario {
        Some(p) => p * e.cantidad,
        None => 0,
    }
}

/// El costo de los boletos turísticos entre las entradas.
pub open spec fn monto_boletos(es: Seq<EntradaDelTour>) -> int
    decreases es.len(),
{
    if es.len() == 0 {
        0
    } else {
        monto_boletos(es.drop_last()) + if es.last().boleto_turistico {
            costo(es.last())
        } else {
            0
        }
    }
}

/// Los ids de los boletos turísticos entre las entradas.
pub open spec fn ids_boletos(es: Seq<EntradaDelTour>) -> Seq<i32>
    decreases es.len(),
{
    if es.len() == 0 {
        Seq::empty()
    } else if es.last().boleto_turistico {
        ids_boletos(es.drop_last()).push(es.last().id)
    } else {
        ids_boletos(es.drop_last())
    }
}

/// ¿Están acotados los precios unitarios de las entradas?
pub open spec fn entradas_acotadas(es: Seq<EntradaDelTour>) -> bool {
    forall|i: int| 0 <= i < es.len() ==> ((#[trigger] es[i]).precio_unitario matches Some(p) ==> monto_acotado(
        p as int,
    ))
}

/// El costo de `n` entradas acotadas está acotado por `n` veces la cota del aporte.
proof fn lema_monto_boletos_acotado(es: Seq<EntradaDelTour>)
    requires
        entradas_acotadas(es),
    ensures
        -(es.len() * cota_aporte()) <= monto_boletos(es) <= es.len() * cota_aporte(),
    decreases es.len(),
{
    if es.len() > 0 {
        let pre = es.drop_last();
        assert forall|i: int| 0 <= i < pre.len() implies ((#[trigger] pre[i]).precio_unitario matches Some(p)
            ==> monto_acotado(p as int)) by {
            assert(pre[i] == es[i]);
        }
        lema_monto_boletos_acotado(pre);
        let e = es.last();
        assert(es[es.len() - 1] == e);
        match e.precio_unitario {
            Some(p) => {
                assert(-cota_aporte() <= p * e.cantidad <= cota_aporte()) by (nonlinear_arith)
                    requires
                        -MONTO_MAXIMO <= p <= MONTO_MAXIMO,
                        -0x8000_0000 <= e.cantidad < 0x8000_0000,
                        cota_aporte() == MONTO_MAXIMO * 0x8000_0000,
                        MONTO_MAXIMO > 0;
            },
            None => {},
        }
        assert(pre.len() * cota_aporte() + cota_aporte() == es.len() * cota_aporte()) by (nonlinear_arith)
            requires pre.len() + 1 == es.len();
    }
}

/// Los boletos turísticos del tour: sus ids y su costo total.
fn boletos_del_tour(es: &Vec<EntradaDelTour>) -> (r: (Vec<i32>, i128))
    requires
        es.len() <= LINEAS_MAXIMAS,
        entradas_acotadas(es@),
    ensures
        r.0@ == ids_boletos(es@),
        r.1 == monto_boletos(es@),
        -(LINEAS_MAXIMAS * cota_aporte()) <= r.1 <= LINEAS_MAXIMAS * cota_aporte(),
{
    let mut ids: Vec<i32> = Vec::new();
    let mut monto: i128 = 0;
    let mut i: usize = 0;
    while i < es.len()
        invariant
            i <= es.len() <= LINEAS_MAXIMAS,
            entradas_acotadas(es@),
            ids@ == ids_boletos(es@.take(i as int)),
            monto == monto_boletos(es@.take(i as int)),
            -(LINEAS_MAXIMAS * cota_aporte()) <= monto <= LINEAS_MAXIMAS * cota_aporte(),
        decreases es.len() - i,
    {
        let ghost pre = es@.take(i as int + 1);
        assert(pre.drop_last() == es@.take(i as int));
        assert(pre.last() == es@[i as int]);
        assert forall|j: int| 0 <= j < pre.len() implies ((#[trigger] pre[j]).precio_unitario matches Some(p)
            ==> monto_acotado(p as int)) by {
            assert(pre[j] == es@[j]);
        }
        proof {
            lema_monto_boletos_acotado(pre);
            assert((i + 1) * cota_aporte() <= LINEAS_MAXIMAS * cota_aporte()) by (nonlinear_arith)
                requires i + 1 <= LINEAS_MAXIMAS, cota_aporte() > 0;
        }
        let e = es[i];
        if e.boleto_turistico {
            ids.push(e.id);
            match e.precio_unitario {
                Some(p) => {
                    assert(p * e.cantidad == costo(e));
                    monto = monto + p as i128 * e.cantidad as i128;
                },
                None => {},
            }
        }
        i = i + 1;
    }
    assert(es@.take(es.len() as int) == es@);
    (ids, monto)
}

// ===================== El tour siguiente y los tours posteriores =====================

/// El primer tour activo (en el orden de la lista) con orden mayor que `orden`.
pub open spec fn siguiente_activo(ts: Seq<TourV>, orden: int) -> Option<int>
    decreases ts.len(),
{
    if ts.len() == 0 {
        None
    } else {
        match siguiente_activo(ts.drop_last(), orden) {
            Some(i) => Some(i),
            None => if ts.last().activo && ts.last().orden > orden {
                Some(ts.len() - 1)
            } else {
                None
            },
        }
    }
}

/// Los índices (entre los `n` primeros) de los tours activos con orden mayor
/// que `orden`, en el orden de la lista.
pub open spec fn posteriores(ts: Seq<TourV>, orden: int, n: int) -> Seq<usize>
    decreases n,
{
    if n <= 0 {
        Seq::empty()
    } else {
        let pre = posteriores(ts, orden, n - 1);
        if ts[n - 1].activo && ts[n - 1].orden > orden {
            pre.push((n - 1) as usize)
        } else {
            pre
        }
    }
}

/// Posición en que se inserta un tour de orden `k` en la secuencia ordenada
/// `s`: después de todos los primeros con orden `<= k`.
pub open spec fn pos_por_orden(s: Seq<usize>, ts: Seq<TourV>, k: int) -> int
    decreases s.len(),
{
    if s.len() == 0 {
        0
    } else if ts[s[0] as int].orden <= k {
        1 + pos_por_orden(s.drop_first(), ts, k)
    } else {
        0
    }
}

/// Los índices `cands` ordenados por el orden de sus tours; entre tours de
/// igual orden se conserva el de `cands` (orden estable).
pub open spec fn ordenados_por_orden(cands: Seq<usize>, ts: Seq<TourV>) -> Seq<usize>
    decreases cands.len(),
{
    if cands.len() == 0 {
        Seq::empty()
    } else {
        let s = ordenados_por_orden(cands.drop_last(), ts);
        let i = cands.last();
        let p = pos_por_orden(s, ts, ts[i as int].orden as int);
        s.take(p).push(i) + s.skip(p)
    }
}

/// El primer tour activo posterior a `orden`.
fn buscar_siguiente_activo(tours: &Vec<TourDelFile>, orden: i32) -> (r: Option<usize>)
    ensures
        match r {
            Some(k) => siguiente_activo(tours.deep_view(), orden as int) == Some(k as int) && k < tours@.len(),
            None => siguiente_activo(tours.deep_view(), orden as int) is None,
        },
{
    let ghost ts = tours.deep_view();
    let mut r: Option<usize> = None;
    let mut i: usize = 0;
    while i < tours.len()
        invariant
            i <= tours.len(),
            ts == tours.deep_view(),
            ts.len() == tours.len(),
            r matches Some(k) ==> k < i,
            siguiente_activo(ts.take(i as int), orden as int) == match r {
                Some(k) => Some(k as int),
                None => None::<int>,
            },
        decreases tours.len() - i,
    {
        assert(ts.take(i as int + 1).drop_last() == ts.take(i as int));
        assert(ts[i as int] == tours@[i as int].deep_view());
        if r.is_none() && tour_activo(&tours[i]) && tours[i].orden > orden {
            r = Some(i);
        }
        i = i + 1;
    }
    assert(ts.take(tours.len() as int) == ts);
    r
}

/// `pos_por_orden` avanza de a uno sobre un prefijo de órdenes `<= k`.
proof fn lema_pos_por_orden_paso(s: Seq<usize>, ts: Seq<TourV>, k: int, p: int)
    requires
        0 <= p < s.len(),
        ts[s[p] as int].orden <= k,
    ensures
        pos_por_orden(s.skip(p), ts, k) == 1 + pos_por_orden(s.skip(p + 1), ts, k),
{
    assert(s.skip(p).drop_first() == s.skip(p + 1));
    assert(s.skip(p)[0] == s[p]);
}

/// Los tours activos posteriores a `orden`, ordenados de forma estable por su orden.
pub fn tours_posteriores(tours: &Vec<TourDelFile>, orden: i32) -> (r: Vec<usize>)
    ensures
        r@ == ordenados_por_orden(posteriores(tours.deep_view(), orden as int, tours@.len() as int), tours.deep_view()),
        forall|j: int| 0 <= j < r@.len() ==> #[trigger] r@[j] < tours@.len(),
{
    let ghost ts = tours.deep_view();
    let mut cands: Vec<usize> = Vec::new();
    let mut i: usize = 0;
    while i < tours.len()
        invariant
            i <= tours.len(),
            ts == tours.deep_view(),
            ts.len() == tours.len(),
            cands@ == posteriores(ts, orden as int, i as int),
            forall|q: int| 0 <= q < cands@.len() ==> #[trigger] cands@[q] < i,
        decreases tours.len() - i,
    {
        assert(ts[i as int] == tours@[i as int].deep_view());
        if tour_activo(&tours[i]) && tours[i].orden > orden {
            cands.push(i);
        }
        i = i + 1;
    }
    let mut s: Vec<usize> = Vec::new();
    let mut j: usize = 0;
    while j < cands.len()
        invariant
            j <= cands.len(),
            ts == tours.deep_view(),
            ts.len() == tours.len(),
            forall|q: int| 0 <= q < cands@.len() ==> #[trigger] cands@[q] < tours@.len(),
            s@ == ordenados_por_orden(cands@.take(j as int), ts),
            s@.len() == j,
            forall|q: int| 0 <= q < s@.len() ==> #[trigger] s@[q] < tours@.len(),
        decreases cands.len() - j,
    {
        assert(cands@.take(j as int + 1).drop_last() == cands@.take(j as int));
        let c = cands[j];
        assert(ts[c as int] == tours@[c as int].deep_view());
        let k = tours[c].orden;
        let mut p: usize = 0;
        assert(s@.skip(0) == s@);
        while p < s.len() && tours[s[p]].orden <= k
            invariant
                p <= s@.len(),
                ts == tours.deep_view(),
                forall|q: int| 0 <= q < s@.len() ==> #[trigger] s@[q] < tours@.len(),
                pos_por_orden(s@, ts, k as int) == p + pos_por_orden(s@.skip(p as int), ts, k as int),
            decreases s@.len() - p,
        {
            assert(ts[s@[p as int] as int] == tours@[s@[p as int] as int].deep_view());
            proof {
                lema_pos_por_orden_paso(s@, ts, k as int, p as int);
            }
            p = p + 1;
        }
        proof {
            if p < s@.len() {
                assert(s@.skip(p as int)[0] == s@[p as int]);
                assert(ts[s@[p as int] as int] == tours@[s@[p as int] as int].deep_view());
            }
        }
        let ghost antes = s@;
        s.insert(p, c);
        assert(s@ == antes.take(p as int).push(c) + antes.skip(p as int));
        assert forall|q: int| 0 <= q < s@.len() implies #[trigger] s@[q] < tours@.len() by {
            if q < p {
                assert(s@[q] == antes[q]);
            } else if q > p {
                assert(s@[q] == antes[q - 1]);
            }
        }
        j = j + 1;
    }
    assert(cands@.take(cands.len() as int) == cands@);
    s
}


// ===================== Traspaso de lo pagado a los tours posteriores =====================

/// La deuda de un tour que recibe lo pagado de otro: su id, su nuevo monto
/// pagado y si queda pagada (lo pendiente no pasa de la tolerancia).
#[derive(Debug, Clone, Copy, PartialEq, Eq, Structural)]
pub struct DeudaTransferida {
    pub id: i32,
    pub monto_pagado: i128,
    pub pagada: bool,
}

/// Lo que recibe un tour posterior de lo pagado en el tour cancelado.
#[derive(Debug, Clone, Copy)]
pub struct TransferenciaPago {
    pub id_file_tour: i32,
    pub monto: i128,
    /// La deuda del tour que lo registra, si la tiene.
    pub deuda: Option<DeudaTransferida>,
}

/// Reparte `restante` entre los tours del orden dado: cada uno recibe lo que
/// le falta pagar (su precio aplicado, más los boletos si es el destino de
/// ellos, menos lo ya pagado), hasta que no quede nada. Devuelve los traspasos
/// y lo que sobra.
pub open spec fn transferencias(
    ts: Seq<TourV>,
    orden: Seq<usize>,
    rs: Seq<RegistroVista>,
    restante: int,
    destino: Option<i32>,
    boletos: int,
) -> (Seq<TransferenciaPago>, int)
    decreases orden.len(),
{
    if orden.len() == 0 || restante <= 0 {
        (Seq::empty(), restante)
    } else {
        let t = ts[orden[0] as int];
        let extra = if destino == Some(t.id) {
            boletos
        } else {
            0
        };
        let total = precio_o_cero(t.precio) + extra;
        let pagado = suma(rs, Filtro::DeudasYPagosDelTour(Some(t.id)), Campo::Pagado);
        let pendiente = total - pagado;
        if pendiente <= 0 {
            transferencias(ts, orden.drop_first(), rs, restante, destino, boletos)
        } else {
            let a = min(restante, pendiente);
            let deuda = match primera_deuda_del_tour(rs, t.id) {
                Some(i) => Some(
                    DeudaTransferida {
                        id: rs[i].id,
                        monto_pagado: (rs[i].monto_pagado + a) as i128,
                        pagada: rs[i].monto_total + extra - (rs[i].monto_pagado + a) <= TOLERANCIA,
                    },
                ),
                None => None,
            };
            let resto = transferencias(ts, orden.drop_first(), rs, restante - a, destino, boletos);
            (seq![TransferenciaPago { id_file_tour: t.id, monto: a as i128, deuda }] + resto.0, resto.1)
        }
    }
}

/// Cota de los montos con que se trabaja al cancelar un tour.
pub open spec fn cota_cancelacion() -> int {
    1329227995784915872903807060280344576
}

/// Traspasa `restante` a los tours posteriores en el orden dado.
fn transferir_pagado(
    tours: &Vec<TourDelFile>,
    orden: &Vec<usize>,
    registros: &Vec<RegistroPago>,
    restante: i128,
    destino: Option<i32>,
    boletos: i128,
) -> (r: (Vec<TransferenciaPago>, i128))
    requires
        forall|j: int| 0 <= j < orden@.len() ==> #[trigger] orden@[j] < tours@.len(),
        forall|j: int| 0 <= j < tours@.len() ==> ((#[trigger] tours@[j]).precio_aplicado matches Some(p)
            ==> monto_acotado(p as int)),
        registros_acotados(registros.deep_view()),
        -cota_cancelacion() <= restante <= cota_cancelacion(),
        -cota_cancelacion() <= boletos <= cota_cancelacion(),
    ensures
        (r.0@, r.1 as int) == transferencias(
            tours.deep_view(),
            orden@,
            registros.deep_view(),
            restante as int,
            destino,
            boletos as int,
        ),
        r.1 <= restante,
        r.1 == restante || r.1 >= 0,
{
    let ghost ts = tours.deep_view();
    let ghost rs = registros.deep_view();
    let ghost total = transferencias(ts, orden@, rs, restante as int, destino, boletos as int);
    proof {
        lema_cota_sumas(registros.len() as int);
    }
    let mut hechas: Vec<TransferenciaPago> = Vec::new();
    let mut rest = restante;
    let mut j: usize = 0;
    assert(orden@.skip(0) == orden@);
    while j < orden.len() && rest > 0
        invariant
            j <= orden@.len(),
            ts == tours.deep_view(),
            rs == registros.deep_view(),
            forall|q: int| 0 <= q < orden@.len() ==> #[trigger] orden@[q] < tours@.len(),
            forall|q: int| 0 <= q < tours@.len() ==> ((#[trigger] tours@[q]).precio_aplicado matches Some(p)
                ==> monto_acotado(p as int)),
            registros_acotados(rs),
            -cota_cancelacion() <= restante <= cota_cancelacion(),
            -cota_cancelacion() <= boletos <= cota_cancelacion(),
            18446744073709551615 * MONTO_MAXIMO < 1329227995784915872903807060280344576,
            rest <= restante,
            rest == restante || rest >= 0,
            ({
                let r = transferencias(ts, orden@.skip(j as int), rs, rest as int, destino, boletos as int);
                &&& hechas@ + r.0 == total.0
                &&& r.1 == total.1
            }),
        decreases orden@.len() - j,
    {
        assert(orden@.skip(j as int).drop_first() == orden@.skip(j as int + 1));
        assert(orden@.skip(j as int)[0] == orden@[j as int]);
        let k = orden[j];
        let t = &tours[k];
        assert(ts[k as int] == tours@[k as int].deep_view());
        let extra: i128 = if destino == Some(t.id) { boletos } else { 0 };
        let precio: i128 = match t.precio_aplicado {
            Some(p) => p as i128,
            None => 0,
        };
        let pagado = sumar(registros, &Filtro::DeudasYPagosDelTour(Some(t.id)), Campo::Pagado);
        let pendiente = precio + extra - pagado;
        if pendiente > 0 {
            let a = if rest <= pendiente { rest } else { pendiente };
            let deuda = match buscar_primera_deuda(registros, t.id) {
                Some(i) => {
                    assert(rs[i as int] == registros@[i as int].deep_view());
                    let d = &registros[i];
                    let nuevo = d.monto_pagado as i128 + a;
                    Some(
                        DeudaTransferida {
                            id: d.id,
                            monto_pagado: nuevo,
                            pagada: d.monto_total as i128 + extra - nuevo <= TOLERANCIA as i128,
                        },
                    )
                },
                None => None,
            };
            let ghost antes = hechas@;
            hechas.push(TransferenciaPago { id_file_tour: t.id, monto: a, deuda });
            assert(hechas@ == antes + seq![TransferenciaPago { id_file_tour: t.id, monto: a, deuda }]);
            rest = rest - a;
        }
        j = j + 1;
    }
    proof {
        if j < orden@.len() {
            assert(rest <= 0);
        } else {
            assert(orden@.skip(j as int).len() == 0);
        }
        assert(hechas@ + Seq::<TransferenciaPago>::empty() == hechas@);
    }
    (hechas, rest)
}


// ===================== Traspaso de boletos turísticos =====================

/// La deuda del tour destino con los boletos recibidos: nuevo monto total y
/// nuevo monto de entradas (y queda marcada con entradas).
#[derive(Debug, Clone, Copy, PartialEq, Eq, Structural)]
pub struct DeudaConBoletos {
    pub id: i32,
    pub monto_total: i128,
    pub entrada_precio: i128,
}

/// El traspaso de los boletos turísticos de un tour cancelado al siguiente.
#[derive(Debug, Clone)]
pub struct TraspasoBoletos {
    /// El tour que los recibe.
    pub destino: i32,
    /// Las entradas que pasan al destino.
    pub entradas: Vec<i32>,
    /// Su costo.
    pub monto: i128,
    /// La deuda del destino y sus nuevos montos, si la tiene.
    pub deuda_destino: Option<DeudaConBoletos>,
    /// Los demás registros del destino, cuyo monto total pasa a ser el de su deuda.
    pub otros_registros_destino: Vec<i32>,
    /// (deuda del tour cancelado, deuda del destino): el comprobante pasa de una a otra.
    pub comprobante: Option<(i32, i32)>,
    /// Nuevo precio aplicado del tour cancelado: su precio menos los boletos, sin bajar de cero.
    pub precio_origen: i128,
    /// Nuevo precio aplicado del destino: su precio más los boletos.
    pub precio_destino: i128,
}

/// Lo positivo de `x`, o cero.
pub open spec fn no_negativo(x: int) -> int {
    if x > 0 {
        x
    } else {
        0
    }
}

/// Los ids de los registros del tour (entre los `n` primeros) salvo `excluido`.
pub open spec fn otros_del_tour(rs: Seq<RegistroVista>, tour: i32, excluido: i32, n: int) -> Seq<i32>
    decreases n,
{
    if n <= 0 {
        Seq::empty()
    } else {
        let pre = otros_del_tour(rs, tour, excluido, n - 1);
        if rs[n - 1].id_file_tour == Some(tour) && rs[n - 1].id != excluido {
            pre.push(rs[n - 1].id)
        } else {
            pre
        }
    }
}

/// La deuda del destino con los boletos: monto total y monto de entradas
/// suben en el costo de los boletos.
pub open spec fn deuda_con_boletos(rs: Seq<RegistroVista>, destino: i32, monto: int) -> Option<DeudaConBoletos> {
    match primera_deuda_del_tour(rs, destino) {
        Some(i) => Some(
            DeudaConBoletos {
                id: rs[i].id,
                monto_total: (rs[i].monto_total + monto) as i128,
                entrada_precio: (precio_o_cero(rs[i].entrada_precio) + monto) as i128,
            },
        ),
        None => None,
    }
}

/// Los registros de un tour salvo uno.
fn otros_registros(registros: &Vec<RegistroPago>, tour: i32, excluido: i32) -> (r: Vec<i32>)
    ensures
        r@ == otros_del_tour(registros.deep_view(), tour, excluido, registros@.len() as int),
{
    let ghost rs = registros.deep_view();
    let mut r: Vec<i32> = Vec::new();
    let mut i: usize = 0;
    while i < registros.len()
        invariant
            i <= registros.len(),
            rs == registros.deep_view(),
            rs.len() == registros.len(),
            r@ == otros_del_tour(rs, tour, excluido, i as int),
        decreases registros.len() - i,
    {
        assert(rs[i as int] == registros@[i as int].deep_view());
        if registros[i].id_file_tour == Some(tour) && registros[i].id != excluido {
            r.push(registros[i].id);
        }
        i = i + 1;
    }
    r
}

// ===================== Cierre de los registros del tour cancelado =====================

/// La escritura de un registro del tour cancelado (además de su estado, su
/// tipo y sus notas): nuevo monto total, y los campos que cambian.
#[derive(Debug, Clone, Copy, PartialEq, Eq, Structural)]
pub struct CierreDePago {
    pub id_pago: i32,
    pub monto_total: i128,
    pub monto_pagado: Option<i128>,
    pub entrada_precio: Option<i128>,
    pub saldo_a_favor: Option<i128>,
}

/// El precio final del tour cancelado: su precio menos los boletos
/// traspasados (sin bajar de cero) si se traspasó algo; si no, su precio.
pub open spec fn precio_final(precio: Option<i64>, traspasado: int) -> int {
    if traspasado > 0 {
        no_negativo(precio_o_cero(precio) - traspasado)
    } else {
        precio_o_cero(precio)
    }
}

/// El cierre del registro `i` del tour cancelado: toma el precio final; si se
/// traspasaron boletos, lo pagado queda en cero y el monto de entradas baja en
/// los boletos (sin bajar de cero); lo que sobró del traspaso de lo pagado va
/// a la primera deuda del tour, como saldo a favor autorizado o, si no se pasa
/// a saldo, como su monto pagado.
pub open spec fn cierre_de(
    rs: Seq<RegistroVista>,
    i: int,
    tour: i32,
    final_: int,
    traspasado: int,
    sobrante: int,
    a_saldo: bool,
) -> CierreDePago {
    let r = rs[i];
    let recibe = sobrante > 0 && primera_deuda_del_tour(rs, tour) == Some(i);
    CierreDePago {
        id_pago: r.id,
        monto_total: final_ as i128,
        monto_pagado: if recibe && !a_saldo {
            Some(sobrante as i128)
        } else if traspasado > 0 {
            Some(0)
        } else {
            None
        },
        entrada_precio: if traspasado > 0 {
            match r.entrada_precio {
                Some(e) => Some(no_negativo(e - traspasado) as i128),
                None => None,
            }
        } else {
            None
        },
        saldo_a_favor: if recibe && a_saldo {
            Some(sobrante as i128)
        } else {
            None
        },
    }
}

/// Los cierres de las deudas, pagos y pagos finales del tour (entre los `n`
/// primeros registros), en su orden.
pub open spec fn cierres(
    rs: Seq<RegistroVista>,
    tour: i32,
    final_: int,
    traspasado: int,
    sobrante: int,
    a_saldo: bool,
    n: int,
) -> Seq<CierreDePago>
    decreases n,
{
    if n <= 0 {
        Seq::empty()
    } else {
        let pre = cierres(rs, tour, final_, traspasado, sobrante, a_saldo, n - 1);
        if crate::pagos::cumple(Filtro::DeudasYPagosDelTour(Some(tour)), rs[n - 1]) {
            pre.push(cierre_de(rs, n - 1, tour, final_, traspasado, sobrante, a_saldo))
        } else {
            pre
        }
    }
}

/// Los cierres de los registros del tour cancelado.
fn cerrar_registros(
    registros: &Vec<RegistroPago>,
    tour: i32,
    final_: i128,
    traspasado: i128,
    sobrante: i128,
    a_saldo: bool,
) -> (r: Vec<CierreDePago>)
    requires
        registros_acotados(registros.deep_view()),
        -cota_cancelacion() <= traspasado <= cota_cancelacion(),
    ensures
        r@ == cierres(
            registros.deep_view(),
            tour,
            final_ as int,
            traspasado as int,
            sobrante as int,
            a_saldo,
            registros@.len() as int,
        ),
{
    let ghost rs = registros.deep_view();
    let primera = buscar_primera_deuda(registros, tour);
    let mut r: Vec<CierreDePago> = Vec::new();
    let mut i: usize = 0;
    while i < registros.len()
        invariant
            i <= registros.len(),
            rs == registros.deep_view(),
            rs.len() == registros.len(),
            registros_acotados(rs),
            -cota_cancelacion() <= traspasado <= cota_cancelacion(),
            match primera {
                Some(k) => primera_deuda_del_tour(rs, tour) == Some(k as int),
                None => primera_deuda_del_tour(rs, tour) is None,
            },
            r@ == cierres(rs, tour, final_ as int, traspasado as int, sobrante as int, a_saldo, i as int),
        decreases registros.len() - i,
    {
        assert(rs[i as int] == registros@[i as int].deep_view());
        assert(crate::pagos::registro_acotado(rs[i as int]));
        if crate::pagos::cumple_filtro(&Filtro::DeudasYPagosDelTour(Some(tour)), &registros[i]) {
            let d = &registros[i];
            let recibe = sobrante > 0 && primera == Some(i);
            let monto_pagado: Option<i128> = if recibe && !a_saldo {
                Some(sobrante)
            } else if traspasado > 0 {
                Some(0)
            } else {
                None
            };
            let entrada_precio: Option<i128> = if traspasado > 0 {
                match d.entrada_precio {
                    Some(e) => {
                        let x = e as i128 - traspasado;
                        Some(if x > 0 { x } else { 0 })
                    },
                    None => None,
                }
            } else {
                None
            };
            let saldo: Option<i128> = if recibe && a_saldo {
                Some(sobrante)
            } else {
                None
            };
            r.push(
                CierreDePago {
                    id_pago: d.id,
                    monto_total: final_,
                    monto_pagado,
                    entrada_precio,
                    saldo_a_favor: saldo,
                },
            );
        }
        i = i + 1;
    }
    r
}


// ===================== Plan de la cancelación o no-show de un tour =====================

/// Todo lo que se escribe al cancelar un tour (o registrar su no-show).
#[derive(Debug, Clone)]
pub struct PlanCancelacionTour {
    /// El traspaso de los boletos turísticos al tour siguiente, si lo hay.
    pub traspaso_boletos: Option<TraspasoBoletos>,
    /// Lo pagado en el tour que pasa a los tours posteriores.
    pub transferencias: Vec<TransferenciaPago>,
    /// Lo pagado que no encontró tour al que pasar.
    pub sobrante: i128,
    /// El precio final del tour cancelado.
    pub precio_final: i128,
    /// Las escrituras de las deudas, pagos y pagos finales del tour.
    pub cierres: Vec<CierreDePago>,
}

/// ¿Hay boletos que traspasar? Hay boletos turísticos y un tour siguiente activo.
pub open spec fn hay_traspaso(ts: Seq<TourV>, orden: int, es: Seq<EntradaDelTour>) -> bool {
    ids_boletos(es).len() > 0 && siguiente_activo(ts, orden) is Some
}

/// El costo de los boletos traspasados (cero si no hay traspaso).
pub open spec fn traspasado(ts: Seq<TourV>, orden: int, es: Seq<EntradaDelTour>) -> int {
    if hay_traspaso(ts, orden, es) {
        monto_boletos(es)
    } else {
        0
    }
}

/// El id del tour siguiente activo, si lo hay.
pub open spec fn id_siguiente(ts: Seq<TourV>, orden: int) -> Option<i32> {
    match siguiente_activo(ts, orden) {
        Some(k) => Some(ts[k].id),
        None => None,
    }
}

/// ¿Están acotados los precios de los tours?
pub open spec fn tours_acotados(tours: Seq<TourDelFile>) -> bool {
    forall|j: int| 0 <= j < tours.len() ==> ((#[trigger] tours[j]).precio_aplicado matches Some(p) ==> monto_acotado(
        p as int,
    ))
}

/// Decide la cancelación (o el no-show) del tour `cancelado` de un file con
/// `tours` y `registros`, cuyas entradas son `entradas`:
/// 1. si tiene boletos turísticos y hay un tour siguiente activo (el primero
///    de la lista con orden mayor), los boletos pasan a ese tour, cuya deuda
///    sube en su costo, y los precios aplicados de ambos se ajustan;
/// 2. lo pagado en el tour pasa a los tours activos posteriores, de menor a
///    mayor orden, cubriendo lo que le falta pagar a cada uno;
/// 3. las deudas, pagos y pagos finales del tour toman el precio final, y lo
///    que sobró va a su primera deuda, como saldo a favor si `a_saldo`.
pub fn planificar_cancelacion_de_tour(
    cancelado: &TourDelFile,
    tours: &Vec<TourDelFile>,
    registros: &Vec<RegistroPago>,
    entradas: &Vec<EntradaDelTour>,
    a_saldo: bool,
) -> (r: PlanCancelacionTour)
    requires
        cancelado.precio_aplicado matches Some(p) ==> monto_acotado(p as int),
        tours_acotados(tours@),
        registros_acotados(registros.deep_view()),
        entradas.len() <= LINEAS_MAXIMAS,
        entradas_acotadas(entradas@),
    ensures
        ({
            let ts = tours.deep_view();
            let rs = registros.deep_view();
            let es = entradas@;
            let o = cancelado.orden as int;
            let tr = traspasado(ts, o, es);
            let pagado = suma(rs, Filtro::DeudasYPagosDelTour(Some(cancelado.id)), Campo::Pagado);
            &&& r.traspaso_boletos is Some == hay_traspaso(ts, o, es)
            &&& (r.traspaso_boletos matches Some(b) ==> {
                let k = siguiente_activo(ts, o).unwrap();
                &&& b.destino == ts[k].id
                &&& b.entradas@ == ids_boletos(es)
                &&& b.monto == monto_boletos(es)
                &&& b.deuda_destino == deuda_con_boletos(rs, b.destino, b.monto as int)
                &&& b.otros_registros_destino@ == match b.deuda_destino {
                    Some(d) => otros_del_tour(rs, b.destino, d.id, rs.len() as int),
                    None => Seq::empty(),
                }
                &&& b.comprobante == match (primera_deuda_del_tour(rs, cancelado.id), b.deuda_destino) {
                    (Some(i), Some(d)) => Some((rs[i].id, d.id)),
                    _ => None,
                }
                &&& b.precio_origen == no_negativo(precio_o_cero(cancelado.precio_aplicado) - b.monto)
                &&& b.precio_destino == precio_o_cero(ts[k].precio) + b.monto
            })
            &&& (r.transferencias@, r.sobrante as int) == transferencias(
                ts,
                ordenados_por_orden(posteriores(ts, o, ts.len() as int), ts),
                rs,
                pagado,
                id_siguiente(ts, o),
                tr,
            )
            &&& r.precio_final == precio_final(cancelado.precio_aplicado, tr)
            &&& r.cierres@ == cierres(
                rs,
                cancelado.id,
                r.precio_final as int,
                tr,
                r.sobrante as int,
                a_saldo,
                rs.len() as int,
            )
        }),
{
    let ghost ts = tours.deep_view();
    let ghost rs = registros.deep_view();
    proof {
        lema_cota_sumas(registros.len() as int);
        assert(LINEAS_MAXIMAS * cota_aporte() < cota_cancelacion());
    }
    let (ids, monto) = boletos_del_tour(entradas);
    let siguiente = buscar_siguiente_activo(tours, cancelado.orden);
    let precio_cancelado: i128 = match cancelado.precio_aplicado {
        Some(p) => p as i128,
        None => 0,
    };
    let mut traspaso: Option<TraspasoBoletos> = None;
    let mut tr: i128 = 0;
    let mut destino: Option<i32> = None;
    match siguiente {
        Some(k) => {
            assert(ts[k as int] == tours@[k as int].deep_view());
            destino = Some(tours[k].id);
            if ids.len() > 0 {
                tr = monto;
                let dest = tours[k].id;
                let deuda_destino = match buscar_primera_deuda(registros, dest) {
                    Some(i) => {
                        assert(rs[i as int] == registros@[i as int].deep_view());
                        let d = &registros[i];
                        let ep: i128 = match d.entrada_precio {
                            Some(e) => e as i128,
                            None => 0,
                        };
                        Some(DeudaConBoletos { id: d.id, monto_total: d.monto_total as i128 + monto, entrada_precio: ep + monto })
                    },
                    None => None,
                };
                let otros = match deuda_destino {
                    Some(d) => otros_registros(registros, dest, d.id),
                    None => Vec::new(),
                };
                let comprobante = match (buscar_primera_deuda(registros, cancelado.id), deuda_destino) {
                    (Some(i), Some(d)) => {
                        assert(rs[i as int] == registros@[i as int].deep_view());
                        Some((registros[i].id, d.id))
                    },
                    _ => None,
                };
                let origen = precio_cancelado - monto;
                let precio_destino: i128 = match tours[k].precio_aplicado {
                    Some(p) => p as i128,
                    None => 0,
                };
                traspaso = Some(
                    TraspasoBoletos {
                        destino: dest,
                        entradas: ids,
                        monto,
                        deuda_destino,
                        otros_registros_destino: otros,
                        comprobante,
                        precio_origen: if origen > 0 { origen } else { 0 },
                        precio_destino: precio_destino + monto,
                    },
                );
            }
        },
        None => {},
    }
    let pagado = sumar(registros, &Filtro::DeudasYPagosDelTour(Some(cancelado.id)), Campo::Pagado);
    let orden = tours_posteriores(tours, cancelado.orden);
    let (transferencias, sobrante) = transferir_pagado(tours, &orden, registros, pagado, destino, tr);
    let final_: i128 = if tr > 0 {
        let x = precio_cancelado - tr;
        if x > 0 { x } else { 0 }
    } else {
        precio_cancelado
    };
    let cierres = cerrar_registros(registros, cancelado.id, final_, tr, sobrante, a_saldo);
    PlanCancelacionTour { traspaso_boletos: traspaso, transferencias, sobrante, precio_final: final_, cierres }
}


// ===================== Ventana horaria de cancelaciones y no-shows =====================

/// Hora de corte (8:40 de Perú) en segundos desde la medianoche.
pub const CORTE_SEGUNDOS: u32 = 31200;

/// La fecha más temprana entre los tours activos con fecha.
pub open spec fn primera_fecha_activa(ts: Seq<TourV>) -> Option<Fecha>
    decreases ts.len(),
{
    if ts.len() == 0 {
        None
    } else {
        let pre = primera_fecha_activa(ts.drop_last());
        let t = ts.last();
        match t.fecha {
            Some(f) => if t.activo {
                match pre {
                    Some(p) => if f.antes_de(p) {
                        Some(f)
                    } else {
                        Some(p)
                    },
                    None => Some(f),
                }
            } else {
                pre
            },
            None => pre,
        }
    }
}

/// Por qué una cancelación o un no-show queda fuera de su ventana horaria.
#[derive(Debug, Clone, Copy, PartialEq, Eq, Structural)]
pub enum ErrorVentana {
    /// Ningún tour activo tiene fecha.
    SinFechaActiva,
    /// Cancelación después del día del primer tour.
    CancelacionFechaPasada(Fecha),
    /// Cancelación el día del primer tour desde las 8:40.
    CancelacionTrasCorte(Fecha),
    /// No-show después del día del primer tour.
    NoShowFechaPasada(Fecha),
    /// No-show el día del primer tour antes de las 8:40.
    NoShowAntesDelCorte(Fecha),
    /// No-show antes del día del primer tour.
    NoShowAntesDelDia(Fecha),
    /// Ni cancelación ni no-show.
    OperacionInvalida,
    /// No se pudo leer la hora actual del reloj del sistema.
    RelojIlegible,
}

/// La cancelación se permite hasta antes de las 8:40 del día del primer tour
/// activo; el no-show, desde las 8:40 hasta la medianoche de ese día. `hoy` y
/// `segundos` son la fecha y la hora de Perú.
pub open spec fn spec_ventana(ts: Seq<TourV>, operacion: Seq<char>, hoy: Fecha, segundos: int) -> Result<(), ErrorVentana> {
    match primera_fecha_activa(ts) {
        None => Err(ErrorVentana::SinFechaActiva),
        Some(f) => if operacion == "cancelacion"@ {
            if f.antes_de(hoy) {
                Err(ErrorVentana::CancelacionFechaPasada(f))
            } else if hoy == f && segundos >= CORTE_SEGUNDOS {
                Err(ErrorVentana::CancelacionTrasCorte(f))
            } else {
                Ok(())
            }
        } else if operacion == "no_show"@ {
            if f.antes_de(hoy) {
                Err(ErrorVentana::NoShowFechaPasada(f))
            } else if hoy == f && segundos < CORTE_SEGUNDOS {
                Err(ErrorVentana::NoShowAntesDelCorte(f))
            } else if hoy.antes_de(f) {
                Err(ErrorVentana::NoShowAntesDelDia(f))
            } else {
                Ok(())
            }
        } else {
            Err(ErrorVentana::OperacionInvalida)
        },
    }
}

/// ¿Son válidas las fechas de los tours?
pub open spec fn fechas_validas(ts: Seq<TourV>) -> bool {
    forall|i: int| 0 <= i < ts.len() ==> ((#[trigger] ts[i]).fecha matches Some(f) ==> f.valida())
}

/// La fecha más temprana de los tours activos.
fn buscar_primera_fecha(tours: &Vec<TourDelFile>) -> (r: Option<Fecha>)
    ensures
        r == primera_fecha_activa(tours.deep_view()),
        fechas_validas(tours.deep_view()) ==> (r matches Some(f) ==> f.valida()),
{
    let ghost ts = tours.deep_view();
    let mut r: Option<Fecha> = None;
    let mut i: usize = 0;
    while i < tours.len()
        invariant
            i <= tours.len(),
            ts == tours.deep_view(),
            ts.len() == tours.len(),
            r == primera_fecha_activa(ts.take(i as int)),
            fechas_validas(ts) ==> (r matches Some(f) ==> f.valida()),
        decreases tours.len() - i,
    {
        assert(ts.take(i as int + 1).drop_last() == ts.take(i as int));
        assert(ts.take(i as int + 1).last() == ts[i as int]);
        assert(ts[i as int] == tours@[i as int].deep_view());
        match tours[i].fecha_tour {
            Some(f) => if tour_activo(&tours[i]) {
                r = match r {
                    Some(p) => if f.es_anterior_a(&p) { Some(f) } else { Some(p) },
                    None => Some(f),
                };
            },
            None => {},
        }
        i = i + 1;
    }
    assert(ts.take(tours.len() as int) == ts);
    r
}

/// Comprueba que la operación ("cancelacion" o "no_show") cae en su ventana
/// horaria, a la fecha `hoy` y `segundos` desde la medianoche (hora de Perú).
pub fn validar_ventana(tours: &Vec<TourDelFile>, operacion: &str, hoy: Fecha, segundos: u32) -> (r: Result<(), ErrorVentana>)
    ensures
        r == spec_ventana(tours.deep_view(), operacion@, hoy, segundos as int),
        fechas_validas(tours.deep_view()) ==> (r matches Err(e) ==> e.con_fecha_valida()),
{
    let primera = buscar_primera_fecha(tours);
    match primera {
        None => Err(ErrorVentana::SinFechaActiva),
        Some(f) => if mismo_texto(operacion, "cancelacion") {
            if f.es_anterior_a(&hoy) {
                Err(ErrorVentana::CancelacionFechaPasada(f))
            } else if hoy == f && segundos >= CORTE_SEGUNDOS {
                Err(ErrorVentana::CancelacionTrasCorte(f))
            } else {
                Ok(())
            }
        } else if mismo_texto(operacion, "no_show") {
            if f.es_anterior_a(&hoy) {
                Err(ErrorVentana::NoShowFechaPasada(f))
            } else if hoy == f && segundos < CORTE_SEGUNDOS {
                Err(ErrorVentana::NoShowAntesDelCorte(f))
            } else if hoy.es_anterior_a(&f) {
                Err(ErrorVentana::NoShowAntesDelDia(f))
            } else {
                Ok(())
            }
        } else {
            Err(ErrorVentana::OperacionInvalida)
        },
    }
}

/// Comprueba la ventana horaria con la fecha y la hora actuales de Perú. La
/// respuesta es la de `validar_ventana` en la hora de Perú de algún instante
/// (desde 1970) que marque el reloj, o `RelojIlegible` si el reloj no se puede
/// leer.
pub fn validar_ventana_ahora(tours: &Vec<TourDelFile>, operacion: &str) -> (r: Result<(), ErrorVentana>)
    ensures
        r matches Err(ErrorVentana::RelojIlegible) || exists|utc: Fecha, segundos: int|
            utc.valida() && utc.anio >= 1970 && 0 <= segundos < 86400 && r == #[trigger] spec_ventana(
                tours.deep_view(),
                operacion@,
                spec_hora_de_peru(utc, segundos).0,
                spec_hora_de_peru(utc, segundos).1,
            ),
        fechas_validas(tours.deep_view()) ==> (r matches Err(e) ==> e.con_fecha_valida()),
{
    let (utc, s) = match ahora_utc() {
        Some(x) => x,
        None => return Err(ErrorVentana::RelojIlegible),
    };
    let (hoy, segundos) = hora_de_peru(utc, s);
    let r = validar_ventana(tours, operacion, hoy, segundos);
    assert(r == spec_ventana(
        tours.deep_view(),
        operacion@,
        spec_hora_de_peru(utc, s as int).0,
        spec_hora_de_peru(utc, s as int).1,
    ));
    r
}

/// El mensaje de un error de ventana con la fecha escrita `f`.
pub open spec fn mensaje_ventana(e: ErrorVentana) -> Seq<char> {
    match e {
        ErrorVentana::SinFechaActiva => "No se encontró una fecha de tour activa para validar la ventana temporal"@,
        ErrorVentana::CancelacionFechaPasada(f) => "No se puede cancelar: la fecha del primer tour ("@ + fecha_escrita(f)
            + ") ya pasó"@,
        ErrorVentana::CancelacionTrasCorte(f) => "No se puede cancelar: ya pasaron las 8:40 AM del día del tour ("@
            + fecha_escrita(f) + "). Use no-show."@,
        ErrorVentana::NoShowFechaPasada(f) => "No se puede registrar no-show: la fecha del primer tour ("@
            + fecha_escrita(f) + ") ya pasó"@,
        ErrorVentana::NoShowAntesDelCorte(f) => "No se puede registrar no-show antes de las 8:40 AM. Use cancelación. Fecha tour: "@
            + fecha_escrita(f),
        ErrorVentana::NoShowAntesDelDia(f) => "No se puede registrar no-show antes del día del tour ("@
            + fecha_escrita(f) + "). Use cancelación."@,
        ErrorVentana::OperacionInvalida => "Operación no válida"@,
        ErrorVentana::RelojIlegible => "No se pudo leer la hora actual"@,
    }
}

impl ErrorVentana {
    /// ¿Es válida la fecha que lleva el error, si lleva una?
    pub open spec fn con_fecha_valida(self) -> bool {
        match self {
            ErrorVentana::CancelacionFechaPasada(f) => f.valida(),
            ErrorVentana::CancelacionTrasCorte(f) => f.valida(),
            ErrorVentana::NoShowFechaPasada(f) => f.valida(),
            ErrorVentana::NoShowAntesDelCorte(f) => f.valida(),
            ErrorVentana::NoShowAntesDelDia(f) => f.valida(),
            _ => true,
        }
    }

    /// El mensaje del error.
    pub fn mensaje(&self) -> (r: String)
        requires
            self.con_fecha_valida(),
        ensures
            r@ == mensaje_ventana(*self),
    {
        proof {
            reveal_strlit("No se encontró una fecha de tour activa para validar la ventana temporal");
            reveal_strlit("No se puede cancelar: la fecha del primer tour (");
            reveal_strlit(") ya pasó");
            reveal_strlit("No se puede cancelar: ya pasaron las 8:40 AM del día del tour (");
            reveal_strlit("). Use no-show.");
            reveal_strlit("No se puede registrar no-show: la fecha del primer tour (");
            reveal_strlit("No se puede registrar no-show antes de las 8:40 AM. Use cancelación. Fecha tour: ");
            reveal_strlit("No se puede registrar no-show antes del día del tour (");
            reveal_strlit("). Use cancelación.");
            reveal_strlit("Operación no válida");
            reveal_strlit("No se pudo leer la hora actual");
        }
        match self {
            ErrorVentana::SinFechaActiva => texto(
                "No se encontró una fecha de tour activa para validar la ventana temporal",
            ),
            ErrorVentana::CancelacionFechaPasada(f) => {
                let r = texto("No se puede cancelar: la fecha del primer tour (");
                let r = unir(r, escribir_fecha(*f).as_str());
                unir(r, ") ya pasó")
            },
            ErrorVentana::CancelacionTrasCorte(f) => {
                let r = texto("No se puede cancelar: ya pasaron las 8:40 AM del día del tour (");
                let r = unir(r, escribir_fecha(*f).as_str());
                unir(r, "). Use no-show.")
            },
            ErrorVentana::NoShowFechaPasada(f) => {
                let r = texto("No se puede registrar no-show: la fecha del primer tour (");
                let r = unir(r, escribir_fecha(*f).as_str());
                unir(r, ") ya pasó")
            },
            ErrorVentana::NoShowAntesDelCorte(f) => {
                let r = texto("No se puede registrar no-show antes de las 8:40 AM. Use cancelación. Fecha tour: ");
                unir(r, escribir_fecha(*f).as_str())
            },
            ErrorVentana::NoShowAntesDelDia(f) => {
                let r = texto("No se puede registrar no-show antes del día del tour (");
                let r = unir(r, escribir_fecha(*f).as_str());
                unir(r, "). Use cancelación.")
            },
            ErrorVentana::OperacionInvalida => texto("Operación no válida"),
            ErrorVentana::RelojIlegible => texto("No se pudo leer la hora actual"),
        }
    }
}


// ===================== Cancelación y no-show de un file entero =====================

/// Por qué se rechaza una operación de saldo a favor.
#[derive(Debug, Clone, Copy, PartialEq, Eq, Structural)]
pub enum ErrorSaldo {
    FileYaCancelado(i32),
    FileYaEnNoShow(i32),
    TourYaCancelado(i32),
    TourYaEnNoShow(i32),
    /// El file no tiene deudas, pagos ni pagos finales.
    SinDeudaNiPago(i32),
    /// El registro no es de un no-show.
    NoEsNoShow,
    /// El monto pedido (céntimos) supera el saldo disponible.
    SaldoInsuficiente { disponible: i128, solicitado: i64 },
}

/// Un file o un tour ya cancelado o en no-show no se cancela ni se marca de nuevo.
pub open spec fn spec_validar_cancelable(id: i32, status: Seq<char>, es_file: bool) -> Result<(), ErrorSaldo> {
    if status == "cancelado"@ {
        Err(if es_file { ErrorSaldo::FileYaCancelado(id) } else { ErrorSaldo::TourYaCancelado(id) })
    } else if status == "no_show"@ {
        Err(if es_file { ErrorSaldo::FileYaEnNoShow(id) } else { ErrorSaldo::TourYaEnNoShow(id) })
    } else {
        Ok(())
    }
}

/// Comprueba que el file (o el tour, si `es_file` es falso) `id` con ese
/// status puede cancelarse o pasar a no-show.
pub fn validar_cancelable(id: i32, status: &str, es_file: bool) -> (r: Result<(), ErrorSaldo>)
    ensures
        r == spec_validar_cancelable(id, status@, es_file),
{
    if mismo_texto(status, "cancelado") {
        Err(if es_file { ErrorSaldo::FileYaCancelado(id) } else { ErrorSaldo::TourYaCancelado(id) })
    } else if mismo_texto(status, "no_show") {
        Err(if es_file { ErrorSaldo::FileYaEnNoShow(id) } else { ErrorSaldo::TourYaEnNoShow(id) })
    } else {
        Ok(())
    }
}

/// El saldo a favor que generan las anulaciones (las primeras `n`).
pub open spec fn saldo_de(anul: Seq<Anulacion>, n: int) -> int
    decreases n,
{
    if n <= 0 {
        0
    } else {
        saldo_de(anul, n - 1) + match anul[n - 1].saldo_a_favor {
            Some(s) => s as int,
            None => 0,
        }
    }
}

/// La cancelación de un file entero: cada deuda, pago y pago final se anula y
/// lo pagado pasa a saldo a favor; el saldo total generado.
#[derive(Debug, Clone)]
pub struct CancelacionFile {
    pub anulaciones: Vec<Anulacion>,
    pub saldo_generado: i128,
}

/// Las anulaciones son las de los registros, que están acotados.
proof fn lema_anulaciones_acotadas(rs: Seq<RegistroVista>, f: Filtro, n: int)
    requires
        registros_acotados(rs),
        0 <= n <= rs.len(),
    ensures
        anulaciones(rs, f, n).len() <= n,
        forall|k: int| 0 <= k < anulaciones(rs, f, n).len() ==> ((#[trigger] anulaciones(rs, f, n)[k]).saldo_a_favor matches Some(s)
            ==> 0 < s <= MONTO_MAXIMO),
    decreases n,
{
    if n > 0 {
        lema_anulaciones_acotadas(rs, f, n - 1);
        assert(crate::pagos::registro_acotado(rs[n - 1]));
    }
}

/// Decide la cancelación del file `id`: se anulan sus deudas, pagos y pagos
/// finales; sin ninguno se rechaza.
pub fn cancelar_file(id: i32, registros: &Vec<RegistroPago>) -> (r: Result<CancelacionFile, ErrorSaldo>)
    requires
        registros_acotados(registros.deep_view()),
    ensures
        ({
            let a = anulaciones(registros.deep_view(), Filtro::DeudasYPagos, registros@.len() as int);
            match r {
                Ok(c) => a.len() > 0 && c.anulaciones@ == a && c.saldo_generado == saldo_de(a, a.len() as int),
                Err(e) => a.len() == 0 && e == ErrorSaldo::SinDeudaNiPago(id),
            }
        }),
{
    let ghost rs = registros.deep_view();
    let a = anular_registros(registros, &Filtro::DeudasYPagos);
    if a.len() == 0 {
        return Err(ErrorSaldo::SinDeudaNiPago(id));
    }
    proof {
        lema_anulaciones_acotadas(rs, Filtro::DeudasYPagos, rs.len() as int);
    }
    let mut total: i128 = 0;
    let mut i: usize = 0;
    while i < a.len()
        invariant
            i <= a.len(),
            a.len() <= registros.len(),
            forall|k: int| 0 <= k < a@.len() ==> ((#[trigger] a@[k]).saldo_a_favor matches Some(s) ==> 0 < s
                <= MONTO_MAXIMO),
            total == saldo_de(a@, i as int),
            0 <= total <= i * MONTO_MAXIMO,
        decreases a.len() - i,
    {
        assert(a@[i as int] == a[i as int]);
        match a[i].saldo_a_favor {
            Some(s) => {
                assert((i + 1) * MONTO_MAXIMO <= 18446744073709551616 * MONTO_MAXIMO) by (nonlinear_arith)
                    requires i + 1 <= 18446744073709551616;
                total = total + s as i128;
            },
            None => {},
        }
        i = i + 1;
    }
    Ok(CancelacionFile { anulaciones: a, saldo_generado: total })
}

/// Decide el no-show del file `id`: sus deudas, pagos y pagos finales pasan a
/// no-show (sin saldo hasta que se autorice); sin ninguno se rechaza.
pub fn no_show_de_file(id: i32, registros: &Vec<RegistroPago>) -> (r: Result<Vec<i32>, ErrorSaldo>)
    ensures
        ({
            let ids = ids_que_cumplen(registros.deep_view(), Filtro::DeudasYPagos, registros@.len() as int);
            match r {
                Ok(v) => ids.len() > 0 && v@ == ids,
                Err(e) => ids.len() == 0 && e == ErrorSaldo::SinDeudaNiPago(id),
            }
        }),
{
    let ids = seleccionar_ids(registros, &Filtro::DeudasYPagos);
    if ids.len() == 0 {
        Err(ErrorSaldo::SinDeudaNiPago(id))
    } else {
        Ok(ids)
    }
}


// ===================== Totales y estado del file tras cancelar un tour =====================

/// Los tours (entre los `n` primeros registros) que tienen deuda.
pub open spec fn tours_con_deuda(rs: Seq<RegistroVista>, n: int) -> Seq<Option<i32>>
    decreases n,
{
    if n <= 0 {
        Seq::empty()
    } else if rs[n - 1].tipo == "deuda"@ {
        tours_con_deuda(rs, n - 1).push(rs[n - 1].id_file_tour)
    } else {
        tours_con_deuda(rs, n - 1)
    }
}

/// ¿Suma el registro a lo pagado del file? Deudas, pagos, pagos finales y
/// usos de saldo de un tour que tiene deuda.
pub open spec fn suma_a_pagado(r: RegistroVista, activos: Seq<Option<i32>>) -> bool {
    (r.tipo == "deuda"@ || r.tipo == "pago"@ || r.tipo == "pago_final"@ || r.tipo == "uso_saldo"@)
        && activos.contains(r.id_file_tour)
}

/// Lo pagado del file (entre los `n` primeros registros).
pub open spec fn pagado_de_tours(rs: Seq<RegistroVista>, activos: Seq<Option<i32>>, n: int) -> int
    decreases n,
{
    if n <= 0 {
        0
    } else {
        pagado_de_tours(rs, activos, n - 1) + if suma_a_pagado(rs[n - 1], activos) {
            rs[n - 1].monto_pagado as int
        } else {
            0
        }
    }
}

/// ¿Está `x` entre los tours con deuda?
fn contiene_tour(v: &Vec<Option<i32>>, x: Option<i32>) -> (r: bool)
    ensures
        r == v@.contains(x),
{
    let mut i: usize = 0;
    while i < v.len()
        invariant
            i <= v.len(),
            forall|k: int| 0 <= k < i ==> v@[k] != x,
        decreases v.len() - i,
    {
        if v[i] == x {
            assert(v@[i as int] == x);
            return true;
        }
        i = i + 1;
    }
    false
}

/// Los totales del file tras cancelar un tour: el monto total suma los montos
/// de todas las deudas; el pagado suma lo pagado en deudas, pagos, pagos
/// finales y usos de saldo de los tours que tienen deuda.
pub fn totales_del_file(registros: &Vec<RegistroPago>) -> (r: (i128, i128))
    requires
        registros_acotados(registros.deep_view()),
    ensures
        r.0 == suma(registros.deep_view(), Filtro::Deudas, Campo::Total),
        r.1 == pagado_de_tours(
            registros.deep_view(),
            tours_con_deuda(registros.deep_view(), registros@.len() as int),
            registros@.len() as int,
        ),
{
    let ghost rs = registros.deep_view();
    proof {
        lema_cota_sumas(registros.len() as int);
    }
    let total = sumar(registros, &Filtro::Deudas, Campo::Total);
    let mut activos: Vec<Option<i32>> = Vec::new();
    let mut i: usize = 0;
    while i < registros.len()
        invariant
            i <= registros.len(),
            rs == registros.deep_view(),
            rs.len() == registros.len(),
            activos@ == tours_con_deuda(rs, i as int),
        decreases registros.len() - i,
    {
        assert(rs[i as int] == registros@[i as int].deep_view());
        if mismo_texto(registros[i].tipo_registro.as_str(), "deuda") {
            activos.push(registros[i].id_file_tour);
        }
        i = i + 1;
    }
    let mut pagado: i128 = 0;
    let mut j: usize = 0;
    while j < registros.len()
        invariant
            j <= registros.len(),
            rs == registros.deep_view(),
            rs.len() == registros.len(),
            registros_acotados(rs),
            activos@ == tours_con_deuda(rs, rs.len() as int),
            pagado == pagado_de_tours(rs, activos@, j as int),
            -(j * MONTO_MAXIMO) <= pagado <= j * MONTO_MAXIMO,
        decreases registros.len() - j,
    {
        assert(rs[j as int] == registros@[j as int].deep_view());
        assert(crate::pagos::registro_acotado(rs[j as int]));
        let t = registros[j].tipo_registro.as_str();
        if (mismo_texto(t, "deuda") || mismo_texto(t, "pago") || mismo_texto(t, "pago_final") || mismo_texto(
            t,
            "uso_saldo",
        )) && contiene_tour(&activos, registros[j].id_file_tour) {
            assert((j + 1) * MONTO_MAXIMO <= 18446744073709551616 * MONTO_MAXIMO) by (nonlinear_arith)
                requires j + 1 <= 18446744073709551616;
            pagado = pagado + registros[j].monto_pagado as i128;
        }
        j = j + 1;
    }
    (total, pagado)
}

/// El status al que pasa un file cuyos tours terminaron todos.
#[derive(Debug, Clone, Copy, PartialEq, Eq, Structural)]
pub enum EstadoTerminal {
    Cancelado,
    NoShow,
}

impl EstadoTerminal {
    /// El status como se guarda: "cancelado" o "no_show".
    pub fn como_texto(&self) -> (r: &'static str)
        ensures
            *self == EstadoTerminal::Cancelado ==> r@ == "cancelado"@,
            *self == EstadoTerminal::NoShow ==> r@ == "no_show"@,
    {
        proof {
            reveal_strlit("cancelado");
            reveal_strlit("no_show");
        }
        match self {
            EstadoTerminal::Cancelado => "cancelado",
            EstadoTerminal::NoShow => "no_show",
        }
    }
}

/// Si todos los tours del file están cancelados o en no-show (y hay alguno) y
/// el file no lo está ya, el file pasa a "cancelado" si todos están
/// cancelados, y a "no_show" si no.
pub open spec fn spec_estado_terminal(estados: Seq<Seq<char>>, status_file: Seq<char>) -> Option<EstadoTerminal> {
    let todos_terminados = estados.len() > 0 && forall|i: int| 0 <= i < estados.len() ==> (#[trigger] estados[i]
        == "cancelado"@ || estados[i] == "no_show"@);
    if todos_terminados && status_file != "cancelado"@ && status_file != "no_show"@ {
        if forall|i: int| 0 <= i < estados.len() ==> #[trigger] estados[i] == "cancelado"@ {
            Some(EstadoTerminal::Cancelado)
        } else {
            Some(EstadoTerminal::NoShow)
        }
    } else {
        None
    }
}

/// Decide si el file pasa a un status terminal tras cancelar uno de sus tours,
/// según los status de sus tours.
pub fn estado_terminal_del_file(estados: &Vec<String>, status_file: &str) -> (r: Option<EstadoTerminal>)
    ensures
        r == spec_estado_terminal(estados@.map_values(|s: String| s@), status_file@),
{
    let ghost v = estados@.map_values(|s: String| s@);
    let mut todos_terminados = true;
    let mut todos_cancelados = true;
    let mut i: usize = 0;
    while i < estados.len()
        invariant
            i <= estados.len(),
            v == estados@.map_values(|s: String| s@),
            todos_terminados == forall|k: int| 0 <= k < i ==> (#[trigger] v[k] == "cancelado"@ || v[k] == "no_show"@),
            todos_cancelados == forall|k: int| 0 <= k < i ==> #[trigger] v[k] == "cancelado"@,
        decreases estados.len() - i,
    {
        assert(v[i as int] == estados@[i as int]@);
        let c = mismo_texto(estados[i].as_str(), "cancelado");
        let n = mismo_texto(estados[i].as_str(), "no_show");
        if !c && !n {
            todos_terminados = false;
        }
        if !c {
            todos_cancelados = false;
        }
        i = i + 1;
    }
    if estados.len() > 0 && todos_terminados && !mismo_texto(status_file, "cancelado") && !mismo_texto(
        status_file,
        "no_show",
    ) {
        if todos_cancelados {
            Some(EstadoTerminal::Cancelado)
        } else {
            Some(EstadoTerminal::NoShow)
        }
    } else {
        None
    }
}


// ===================== Resumen, uso y movimientos del saldo a favor =====================

/// El resumen del saldo a favor de una entidad.
#[derive(Debug, Clone, Copy)]
pub struct ResumenSaldo {
    /// Saldo autorizado de cancelaciones y no-shows.
    pub saldo_generado: i128,
    /// Lo pagado con saldo.
    pub saldo_usado: i128,
    /// Generado menos usado.
    pub saldo_disponible: i128,
    pub total_cancelaciones: usize,
    pub total_no_shows: usize,
}

impl ResumenSaldo {
    /// ¿Figura la entidad en el listado de saldos? Solo si tiene alguna
    /// cancelación o algún no-show.
    pub fn tiene_movimientos(&self) -> (r: bool)
        ensures
            r == (self.total_cancelaciones > 0 || self.total_no_shows > 0),
    {
        self.total_cancelaciones > 0 || self.total_no_shows > 0
    }
}

/// Resume el saldo a favor de una entidad desde sus registros de cancelación,
/// de no-show y de uso de saldo: el generado suma el saldo a favor autorizado
/// de cancelaciones y no-shows; el usado, lo pagado en los usos.
pub fn resumir_saldo(
    cancelaciones: &Vec<RegistroPago>,
    no_shows: &Vec<RegistroPago>,
    usos: &Vec<RegistroPago>,
) -> (r: ResumenSaldo)
    requires
        registros_acotados(cancelaciones.deep_view()),
        registros_acotados(no_shows.deep_view()),
        registros_acotados(usos.deep_view()),
    ensures
        r.saldo_generado == suma(cancelaciones.deep_view(), Filtro::SaldoAutorizado, Campo::Saldo) + suma(
            no_shows.deep_view(),
            Filtro::SaldoAutorizado,
            Campo::Saldo,
        ),
        r.saldo_usado == suma(usos.deep_view(), Filtro::Todos, Campo::Pagado),
        r.saldo_disponible == r.saldo_generado - r.saldo_usado,
        r.total_cancelaciones == cancelaciones.len(),
        r.total_no_shows == no_shows.len(),
{
    proof {
        lema_cota_sumas(cancelaciones.len() as int);
        lema_cota_sumas(no_shows.len() as int);
        lema_cota_sumas(usos.len() as int);
    }
    let c = sumar(cancelaciones, &Filtro::SaldoAutorizado, Campo::Saldo);
    let n = sumar(no_shows, &Filtro::SaldoAutorizado, Campo::Saldo);
    let u = sumar(usos, &Filtro::Todos, Campo::Pagado);
    let generado = c + n;
    ResumenSaldo {
        saldo_generado: generado,
        saldo_usado: u,
        saldo_disponible: generado - u,
        total_cancelaciones: cancelaciones.len(),
        total_no_shows: no_shows.len(),
    }
}

/// Comprueba que el monto pedido (céntimos) no supera el saldo disponible.
pub fn validar_uso_de_saldo(disponible: i128, monto: i64) -> (r: Result<(), ErrorSaldo>)
    ensures
        monto > disponible ==> r == Err::<(), ErrorSaldo>(ErrorSaldo::SaldoInsuficiente { disponible, solicitado: monto }),
        monto <= disponible ==> r is Ok,
{
    if monto as i128 > disponible {
        Err(ErrorSaldo::SaldoInsuficiente { disponible, solicitado: monto })
    } else {
        Ok(())
    }
}

/// El concepto de un uso de saldo: el pedido o, si no hay, "Aplicación de saldo a favor".
pub fn concepto_de_uso(concepto: Option<String>) -> (r: String)
    ensures
        r@ == match concepto {
            Some(c) => c@,
            None => "Aplicación de saldo a favor"@,
        },
{
    match concepto {
        Some(c) => c,
        None => texto("Aplicación de saldo a favor"),
    }
}

/// Los bytes de "no_show".
pub open spec fn bytes_no_show() -> Seq<u8> {
    seq![110u8, 111u8, 95u8, 115u8, 104u8, 111u8, 119u8]
}

/// ¿Aparece `p` dentro de `s`?
pub open spec fn contiene_bytes(s: Seq<u8>, p: Seq<u8>) -> bool {
    exists|i: int| 0 <= i && i + p.len() <= s.len() && #[trigger] s.subrange(i, i + p.len()) == p
}

/// ¿Es de no-show el tipo de registro? (contiene "no_show"): solo a esos se
/// les autoriza saldo.
pub fn es_registro_de_no_show(tipo: &str) -> (r: bool)
    ensures
        r == contiene_bytes(vstd::utf8::encode_utf8(tipo@), bytes_no_show()),
{
    let b = tipo.as_bytes();
    let p: [u8; 7] = [110u8, 111u8, 95u8, 115u8, 104u8, 111u8, 119u8];
    assert(p@ == bytes_no_show());
    if b.len() < 7 {
        assert forall|i: int| 0 <= i && i + 7 <= b@.len() implies #[trigger] b@.subrange(i, i + 7) != bytes_no_show() by {}
        return false;
    }
    let n = b.len() - 7;
    assert(b@.len() == b.len());
    let mut i: usize = 0;
    while i <= n
        invariant
            b@ == vstd::utf8::encode_utf8(tipo@),
            n + 7 == b@.len(),
            n + 7 <= usize::MAX,
            i <= n + 1,
            p@ == bytes_no_show(),
            forall|k: int| 0 <= k < i ==> #[trigger] b@.subrange(k, k + 7) != bytes_no_show(),
        decreases n + 1 - i,
    {
        let mut j: usize = 0;
        let mut iguales = true;
        while j < 7
            invariant
                j <= 7,
                i <= n,
                n + 7 == b@.len(),
                n + 7 <= usize::MAX,
                p@ == bytes_no_show(),
                iguales == forall|q: int| 0 <= q < j ==> b@[i + q] == p@[q],
            decreases 7 - j,
        {
            if b[i + j] != p[j] {
                iguales = false;
            }
            j = j + 1;
        }
        if iguales {
            assert(b@.subrange(i as int, i as int + 7) == bytes_no_show());
            return true;
        }
        assert(b@.subrange(i as int, i as int + 7) != bytes_no_show()) by {
            let q = choose|q: int| 0 <= q < 7 && b@[i + q] != p@[q];
            assert(b@.subrange(i as int, i as int + 7)[q] == b@[i + q]);
        }
        i = i + 1;
    }
    assert forall|k: int| 0 <= k && k + 7 <= b@.len() implies #[trigger] b@.subrange(k, k + 7) != bytes_no_show() by {
        assert(k < i);
    }
    false
}

/// Tipo de un movimiento de saldo.
#[derive(Debug, Clone, Copy, PartialEq, Eq, Structural)]
pub enum TipoMovimiento {
    Credito,
    Debito,
    Otro,
}

/// Un movimiento de saldo a favor.
#[derive(Debug, Clone)]
pub struct Movimiento {
    pub tipo: TipoMovimiento,
    pub concepto: String,
    /// Monto en céntimos.
    pub monto: i64,
}

/// El movimiento de un registro: las cancelaciones y los no-shows (de file o
/// de tour) abonan su saldo a favor; los usos de saldo cargan lo pagado, con
/// sus notas como concepto; cualquier otro registro no mueve nada.
pub open spec fn spec_movimiento(r: RegistroVista, notas: Option<Seq<char>>) -> (TipoMovimiento, Seq<char>, int) {
    let saldo = match r.monto_saldo_favor {
        Some(s) => s as int,
        None => 0,
    };
    if r.tipo == "cancelacion"@ {
        (TipoMovimiento::Credito, "Cancelación de file"@, saldo)
    } else if r.tipo == "cancelacion_tour"@ {
        (TipoMovimiento::Credito, "Cancelación de tour"@, saldo)
    } else if r.tipo == "no_show"@ {
        (TipoMovimiento::Credito, "No-show de file"@, saldo)
    } else if r.tipo == "no_show_tour"@ {
        (TipoMovimiento::Credito, "No-show de tour"@, saldo)
    } else if r.tipo == "uso_saldo"@ {
        (
            TipoMovimiento::Debito,
            match notas {
                Some(n) => n,
                None => "Uso de saldo"@,
            },
            r.monto_pagado as int,
        )
    } else {
        (TipoMovimiento::Otro, r.tipo, 0)
    }
}

/// Clasifica un registro como movimiento de saldo; `notas` son las del registro.
pub fn clasificar_movimiento(r: &RegistroPago, notas: Option<String>) -> (m: Movimiento)
    ensures
        (m.tipo, m.concepto@, m.monto as int) == spec_movimiento(
            r.deep_view(),
            match notas {
                Some(n) => Some(n@),
                None => None,
            },
        ),
{
    let t = r.tipo_registro.as_str();
    let saldo: i64 = match r.monto_saldo_favor {
        Some(s) => s,
        None => 0,
    };
    proof {
        reveal_strlit("Cancelación de file");
        reveal_strlit("Cancelación de tour");
        reveal_strlit("No-show de file");
        reveal_strlit("No-show de tour");
        reveal_strlit("Uso de saldo");
    }
    if mismo_texto(t, "cancelacion") {
        Movimiento { tipo: TipoMovimiento::Credito, concepto: texto("Cancelación de file"), monto: saldo }
    } else if mismo_texto(t, "cancelacion_tour") {
        Movimiento { tipo: TipoMovimiento::Credito, concepto: texto("Cancelación de tour"), monto: saldo }
    } else if mismo_texto(t, "no_show") {
        Movimiento { tipo: TipoMovimiento::Credito, concepto: texto("No-show de file"), monto: saldo }
    } else if mismo_texto(t, "no_show_tour") {
        Movimiento { tipo: TipoMovimiento::Credito, concepto: texto("No-show de tour"), monto: saldo }
    } else if mismo_texto(t, "uso_saldo") {
        Movimiento {
            tipo: TipoMovimiento::Debito,
            concepto: match notas {
                Some(n) => n,
                None => texto("Uso de saldo"),
            },
            monto: r.monto_pagado,
        }
    } else {
        Movimiento { tipo: TipoMovimiento::Otro, concepto: r.tipo_registro.clone(), monto: 0 }
    }
}

/// El mensaje de un error de saldo.
pub open spec fn mensaje_saldo(e: ErrorSaldo) -> Seq<char> {
    match e {
        ErrorSaldo::FileYaCancelado(id) => "File "@ + texto_entero(id as int) + " ya está cancelado"@,
        ErrorSaldo::FileYaEnNoShow(id) => "File "@ + texto_entero(id as int) + " ya está marcado como no-show"@,
        ErrorSaldo::TourYaCancelado(id) => "FileTour "@ + texto_entero(id as int) + " ya está cancelado"@,
        ErrorSaldo::TourYaEnNoShow(id) => "FileTour "@ + texto_entero(id as int) + " ya está marcado como no-show"@,
        ErrorSaldo::SinDeudaNiPago(id) => "No se encontró deuda/pago para el file "@ + texto_entero(id as int),
        ErrorSaldo::NoEsNoShow => "Solo se puede autorizar saldo en registros de no-show"@,
        ErrorSaldo::SaldoInsuficiente { disponible, solicitado } => "Saldo insuficiente. Disponible: S/ "@
            + crate::texto::soles_escritos(disponible as int) + ", Solicitado: S/ "@ + crate::texto::soles_escritos(
            solicitado as int,
        ),
    }
}

impl ErrorSaldo {
    /// El mensaje del error.
    pub fn mensaje(&self) -> (r: String)
        requires
            self matches ErrorSaldo::SaldoInsuficiente { disponible, .. } ==> disponible > i128::MIN,
        ensures
            r@ == mensaje_saldo(*self),
    {
        proof {
            reveal_strlit("File ");
            reveal_strlit(" ya está cancelado");
            reveal_strlit(" ya está marcado como no-show");
            reveal_strlit("FileTour ");
            reveal_strlit("No se encontró deuda/pago para el file ");
            reveal_strlit("Solo se puede autorizar saldo en registros de no-show");
            reveal_strlit("Saldo insuficiente. Disponible: S/ ");
            reveal_strlit(", Solicitado: S/ ");
        }
        match self {
            ErrorSaldo::FileYaCancelado(id) => {
                let r = unir(texto("File "), i64_a_texto(*id as i64).as_str());
                unir(r, " ya está cancelado")
            },
            ErrorSaldo::FileYaEnNoShow(id) => {
                let r = unir(texto("File "), i64_a_texto(*id as i64).as_str());
                unir(r, " ya está marcado como no-show")
            },
            ErrorSaldo::TourYaCancelado(id) => {
                let r = unir(texto("FileTour "), i64_a_texto(*id as i64).as_str());
                unir(r, " ya está cancelado")
            },
            ErrorSaldo::TourYaEnNoShow(id) => {
                let r = unir(texto("FileTour "), i64_a_texto(*id as i64).as_str());
                unir(r, " ya está marcado como no-show")
            },
            ErrorSaldo::SinDeudaNiPago(id) => unir(
                texto("No se encontró deuda/pago para el file "),
                i64_a_texto(*id as i64).as_str(),
            ),
            ErrorSaldo::NoEsNoShow => texto("Solo se puede autorizar saldo en registros de no-show"),
            ErrorSaldo::SaldoInsuficiente { disponible, solicitado } => {
                let r = unir(
                    texto("Saldo insuficiente. Disponible: S/ "),
                    crate::texto::escribir_soles(*disponible).as_str(),
                );
                let r = unir(r, ", Solicitado: S/ ");
                unir(r, crate::texto::escribir_soles(*solicitado as i128).as_str())
            },
        }
    }
}


// ===================== Leyes del traspaso de lo pagado =====================

/// La suma de los montos traspasados.
pub open spec fn suma_traspasada(ts: Seq<TransferenciaPago>) -> int
    decreases ts.len(),
{
    if ts.len() == 0 {
        0
    } else {
        ts[0].monto + suma_traspasada(ts.drop_first())
    }
}

/// Lo pagado en un tour cancelado no se pierde ni se duplica: lo traspasado a
/// los tours posteriores más lo que sobra es exactamente lo que había; cada
/// traspaso es positivo y, si había algo que repartir, lo que sobra no es
/// negativo.
pub proof fn ley_traspaso_conserva_lo_pagado(
    ts: Seq<TourV>,
    orden: Seq<usize>,
    rs: Seq<RegistroVista>,
    restante: int,
    destino: Option<i32>,
    boletos: int,
)
    requires
        restante <= cota_cancelacion(),
    ensures
        ({
            let t = transferencias(ts, orden, rs, restante, destino, boletos);
            &&& suma_traspasada(t.0) + t.1 == restante
            &&& forall|k: int| 0 <= k < t.0.len() ==> (#[trigger] t.0[k]).monto > 0
            &&& restante >= 0 ==> t.1 >= 0
        }),
    decreases orden.len(),
{
    if orden.len() == 0 || restante <= 0 {
    } else {
        let t = ts[orden[0] as int];
        let extra = if destino == Some(t.id) { boletos } else { 0 };
        let total = precio_o_cero(t.precio) + extra;
        let pagado = suma(rs, Filtro::DeudasYPagosDelTour(Some(t.id)), Campo::Pagado);
        let pendiente = total - pagado;
        if pendiente <= 0 {
            ley_traspaso_conserva_lo_pagado(ts, orden.drop_first(), rs, restante, destino, boletos);
        } else {
            let a = min(restante, pendiente);
            ley_traspaso_conserva_lo_pagado(ts, orden.drop_first(), rs, restante - a, destino, boletos);
            let todo = transferencias(ts, orden, rs, restante, destino, boletos);
            let resto = transferencias(ts, orden.drop_first(), rs, restante - a, destino, boletos);
            assert(todo.0.drop_first() == resto.0);
            assert(todo.0[0].monto == a);
            assert(suma_traspasada(todo.0) == a + suma_traspasada(resto.0));
            assert forall|k: int| 0 <= k < todo.0.len() implies (#[trigger] todo.0[k]).monto > 0 by {
                if k > 0 {
                    assert(todo.0[k] == resto.0[k - 1]);
                }
            }
        }
    }
}

/// Los tours que reciben lo pagado son tours activos posteriores al cancelado.
pub proof fn ley_posteriores_son_activos_y_posteriores(ts: Seq<TourV>, orden: int, n: int)
    requires
        0 <= n <= ts.len(),
        ts.len() <= usize::MAX,
    ensures
        forall|k: int| 0 <= k < posteriores(ts, orden, n).len() ==> {
            let i = #[trigger] posteriores(ts, orden, n)[k] as int;
            0 <= i < n && ts[i].activo && ts[i].orden > orden
        },
    decreases n,
{
    if n > 0 {
        ley_posteriores_son_activos_y_posteriores(ts, orden, n - 1);
        let pre = posteriores(ts, orden, n - 1);
        let todo = posteriores(ts, orden, n);
        assert forall|k: int| 0 <= k < todo.len() implies {
            let i = #[trigger] todo[k] as int;
            0 <= i < n && ts[i].activo && ts[i].orden > orden
        } by {
            if k < pre.len() {
                assert(todo[k] == pre[k]);
            }
        }
    }
}


/// La posición de inserción por orden deja delante solo órdenes `<= k` y, si
/// no es el final, el orden en esa posición es mayor que `k`.
proof fn lema_pos_por_orden(s: Seq<usize>, ts: Seq<TourV>, k: int)
    ensures
        0 <= pos_por_orden(s, ts, k) <= s.len(),
        forall|j: int| 0 <= j < pos_por_orden(s, ts, k) ==> ts[#[trigger] s[j] as int].orden <= k,
        pos_por_orden(s, ts, k) < s.len() ==> ts[s[pos_por_orden(s, ts, k)] as int].orden > k,
    decreases s.len(),
{
    if s.len() > 0 && ts[s[0] as int].orden <= k {
        lema_pos_por_orden(s.drop_first(), ts, k);
        assert forall|j: int| 0 <= j < pos_por_orden(s, ts, k) implies ts[#[trigger] s[j] as int].orden <= k by {
            if j > 0 {
                assert(s[j] == s.drop_first()[j - 1]);
            }
        }
        if pos_por_orden(s, ts, k) < s.len() {
            assert(s[pos_por_orden(s, ts, k)] == s.drop_first()[pos_por_orden(s.drop_first(), ts, k)]);
        }
    }
}

/// ¿Está la secuencia ordenada por el orden de sus tours?
pub open spec fn ordenada_por_orden(s: Seq<usize>, ts: Seq<TourV>) -> bool {
    forall|a: int, b: int| 0 <= a < b < s.len() ==> ts[#[trigger] s[a] as int].orden <= ts[#[trigger] s[b] as int].orden
}

/// Lo pagado pasa a los tours posteriores de menor a mayor orden: la
/// secuencia queda ordenada, con los mismos tours que las candidatas.
pub proof fn ley_tours_posteriores_ordenados(cands: Seq<usize>, ts: Seq<TourV>)
    ensures
        ordenada_por_orden(ordenados_por_orden(cands, ts), ts),
        ordenados_por_orden(cands, ts).len() == cands.len(),
        forall|k: int| 0 <= k < cands.len() ==> cands.contains(#[trigger] ordenados_por_orden(cands, ts)[k]),
    decreases cands.len(),
{
    if cands.len() > 0 {
        let c = cands.drop_last();
        ley_tours_posteriores_ordenados(c, ts);
        let s = ordenados_por_orden(c, ts);
        let i = cands.last();
        let k = ts[i as int].orden as int;
        let p = pos_por_orden(s, ts, k);
        lema_pos_por_orden(s, ts, k);
        let r = s.take(p).push(i) + s.skip(p);
        assert(r == ordenados_por_orden(cands, ts));
        assert forall|j: int| p <= j < s.len() implies ts[#[trigger] s[j] as int].orden > k by {
            if j > p {
                assert(ts[s[p] as int].orden <= ts[s[j] as int].orden);
            }
        }
        assert forall|x: int| 0 <= x < r.len() implies #[trigger] r[x] == (if x < p { s[x] } else if x == p { i } else { s[x - 1] }) by {}
        assert forall|a: int, b: int| 0 <= a < b < r.len() implies ts[#[trigger] r[a] as int].orden <= ts[#[trigger] r[b] as int].orden by {
            if b < p {
                assert(r[a] == s[a] && r[b] == s[b]);
            } else if b == p {
                assert(r[a] == s[a] && r[b] == i);
            } else if a < p {
                assert(r[a] == s[a] && r[b] == s[b - 1]);
            } else if a == p {
                assert(r[a] == i && r[b] == s[b - 1]);
            } else {
                assert(r[a] == s[a - 1] && r[b] == s[b - 1]);
            }
        }
        assert forall|x: int| 0 <= x < cands.len() implies cands.contains(#[trigger] r[x]) by {
            if x == p {
                assert(cands[cands.len() - 1] == i);
            } else {
                let y = if x < p { x } else { x - 1 };
                assert(r[x] == s[y]);
                assert(c.contains(s[y]));
                let w = choose|w: int| 0 <= w < c.len() && c[w] == s[y];
                assert(cands[w] == c[w]);
            }
        }
    }
}


/// En ningún momento se permiten a la vez la cancelación y el no-show de un
/// file: la cancelación se cierra a las 8:40 del día del primer tour, justo
/// cuando se abre el no-show.
pub proof fn ley_cancelacion_y_no_show_excluyentes(ts: Seq<TourV>, hoy: Fecha, segundos: int)
    ensures
        !(spec_ventana(ts, "cancelacion"@, hoy, segundos) is Ok && spec_ventana(ts, "no_show"@, hoy, segundos) is Ok),
{
    reveal_strlit("cancelacion");
    reveal_strlit("no_show");
    assert("cancelacion"@ != "no_show"@) by {
        assert("cancelacion"@.len() != "no_show"@.len());
    }
}

/// La primera deuda de un tour es un registro de ese tour.
proof fn lema_primera_deuda_es_del_tour(rs: Seq<RegistroVista>, tour: i32)
    ensures
        primera_deuda_del_tour(rs, tour) matches Some(i) ==> 0 <= i < rs.len() && rs[i].id_file_tour == Some(tour),
    decreases rs.len(),
{
    if rs.len() > 0 {
        lema_primera_deuda_es_del_tour(rs.drop_last(), tour);
        if let Some(i) = primera_deuda_del_tour(rs.drop_last(), tour) {
            assert(rs[i] == rs.drop_last()[i]);
        }
    }
}

/// Lo pagado en un tour cancelado que pasa a otro tour se suma a lo pagado en
/// la deuda de ese tour, y la deuda queda pagada exactamente cuando, con el
/// traspaso, lo que le falta (su total, más los boletos si es el destino de
/// ellos, menos lo pagado) no pasa de la tolerancia.
pub proof fn ley_traspaso_salda_la_deuda(
    ts: Seq<TourV>,
    orden: Seq<usize>,
    rs: Seq<RegistroVista>,
    restante: int,
    destino: Option<i32>,
    boletos: int,
)
    requires
        forall|j: int| 0 <= j < orden.len() ==> #[trigger] orden[j] < ts.len(),
        registros_acotados(rs),
        restante <= cota_cancelacion(),
    ensures
        ({
            let r = transferencias(ts, orden, rs, restante, destino, boletos).0;
            forall|k: int| 0 <= k < r.len() ==> ((#[trigger] r[k]).deuda matches Some(d) ==> exists|j: int|
                0 <= j < rs.len() && rs[j].id == d.id && rs[j].id_file_tour == Some(r[k].id_file_tour)
                    && d.monto_pagado == rs[j].monto_pagado + r[k].monto
                    && d.pagada == (rs[j].monto_total + (if destino == Some(r[k].id_file_tour) {
                        boletos
                    } else {
                        0
                    }) - d.monto_pagado <= TOLERANCIA))
        }),
    decreases orden.len(),
{
    if orden.len() == 0 || restante <= 0 {
    } else {
        let t = ts[orden[0] as int];
        let extra = if destino == Some(t.id) { boletos } else { 0 };
        let total = precio_o_cero(t.precio) + extra;
        let pagado = suma(rs, Filtro::DeudasYPagosDelTour(Some(t.id)), Campo::Pagado);
        let pendiente = total - pagado;
        let cola = orden.drop_first();
        assert forall|j: int| 0 <= j < cola.len() implies #[trigger] cola[j] < ts.len() by {
            assert(cola[j] == orden[j + 1]);
        }
        if pendiente <= 0 {
            ley_traspaso_salda_la_deuda(ts, cola, rs, restante, destino, boletos);
        } else {
            let a = min(restante, pendiente);
            ley_traspaso_salda_la_deuda(ts, cola, rs, restante - a, destino, boletos);
            lema_primera_deuda_es_del_tour(rs, t.id);
            let r = transferencias(ts, orden, rs, restante, destino, boletos).0;
            let resto = transferencias(ts, cola, rs, restante - a, destino, boletos).0;
            assert forall|k: int| 0 <= k < r.len() implies ((#[trigger] r[k]).deuda matches Some(d) ==> exists|j: int|
                0 <= j < rs.len() && rs[j].id == d.id && rs[j].id_file_tour == Some(r[k].id_file_tour)
                    && d.monto_pagado == rs[j].monto_pagado + r[k].monto
                    && d.pagada == (rs[j].monto_total + (if destino == Some(r[k].id_file_tour) {
                        boletos
                    } else {
                        0
                    }) - d.monto_pagado <= TOLERANCIA)) by {
                if k == 0 {
                    if let Some(i) = primera_deuda_del_tour(rs, t.id) {
                        assert(crate::pagos::registro_acotado(rs[i]));
                        assert(r[0].id_file_tour == t.id);
                    }
                } else {
                    assert(r[k] == resto[k - 1]);
                }
            }
        }
    }
}

} // verus!
