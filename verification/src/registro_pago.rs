//! Registro de un pago de una entidad sobre un file: reparto del monto entre
//! las deudas por tour.
//!
//! El reparto se hace en dos fases. Primero se cubre el costo de las entradas
//! de las deudas que las tienen; luego el sobrante cubre lo pendiente de todas
//! las deudas. En cada fase las deudas se recorren de menor a mayor monto ya
//! pagado (orden estable). La primera vez que se paga una deuda se actualiza el
//! propio registro de la deuda; las siguientes veces se crea un registro de
//! pago nuevo.

use vstd::prelude::*;
use crate::pagos::{
    RegistroPago, RegistroVista, Filtro, Campo, suma, sumar, registros_acotados, registro_acotado,
    MONTO_MAXIMO, TOLERANCIA, lema_suma_acotada,
};
use crate::texto::mismo_texto;

verus! {

/// Estado de una deuda durante el reparto de un pago (montos en céntimos).
#[derive(Debug, Clone, Copy)]
pub struct InfoDeuda {
    pub deuda_id: i32,
    pub id_file_tour: Option<i32>,
    pub monto_total: i128,
    /// Lo pagado en el propio registro de la deuda antes de este pago.
    pub pagado_original: i128,
    /// Lo pagado en la deuda más los pagos del mismo tour.
    pub acumulado: i128,
    /// Lo que falta pagar (nunca negativo al empezar).
    pub pendiente: i128,
    pub entradas: bool,
    /// Costo de las entradas del tour (cero si no se registró).
    pub entrada_precio: i128,
}

/// Vista matemática del estado de una deuda.
pub struct InfoDeudaV {
    pub deuda_id: i32,
    pub id_file_tour: Option<i32>,
    pub monto_total: int,
    pub pagado_original: int,
    pub acumulado: int,
    pub pendiente: int,
    pub entradas: bool,
    pub entrada_precio: int,
}

impl View for InfoDeuda {
    type V = InfoDeudaV;

    open spec fn view(&self) -> InfoDeudaV {
        InfoDeudaV {
            deuda_id: self.deuda_id,
            id_file_tour: self.id_file_tour,
            monto_total: self.monto_total as int,
            pagado_original: self.pagado_original as int,
            acumulado: self.acumulado as int,
            pendiente: self.pendiente as int,
            entradas: self.entradas,
            entrada_precio: self.entrada_precio as int,
        }
    }
}

/// ¿Participa el registro del reparto como deuda (deuda o pago final)?
pub open spec fn es_deuda_repartible(r: RegistroVista) -> bool {
    r.tipo == "deuda"@ || r.tipo == "pago_final"@
}

/// El estado inicial de una deuda: lo acumulado es lo pagado en la deuda más
/// los pagos y pagos finales del mismo tour; lo pendiente, el total menos lo
/// acumulado, o cero si es negativo.
pub open spec fn info_inicial(d: RegistroVista, rs: Seq<RegistroVista>) -> InfoDeudaV {
    let acumulado = d.monto_pagado + suma(rs, Filtro::PagosDelTour(d.id_file_tour), Campo::Pagado);
    let pendiente = d.monto_total - acumulado;
    InfoDeudaV {
        deuda_id: d.id,
        id_file_tour: d.id_file_tour,
        monto_total: d.monto_total as int,
        pagado_original: d.monto_pagado as int,
        acumulado,
        pendiente: if pendiente > 0 { pendiente } else { 0 },
        entradas: d.entradas,
        entrada_precio: match d.entrada_precio {
            Some(e) => e as int,
            None => 0,
        },
    }
}

/// Los estados iniciales de las deudas de `pre`, en orden, con los pagos de `rs`.
pub open spec fn infos_iniciales(pre: Seq<RegistroVista>, rs: Seq<RegistroVista>) -> Seq<InfoDeudaV>
    decreases pre.len(),
{
    if pre.len() == 0 {
        Seq::empty()
    } else {
        let resto = infos_iniciales(pre.drop_last(), rs);
        if es_deuda_repartible(pre.last()) {
            resto.push(info_inicial(pre.last(), rs))
        } else {
            resto
        }
    }
}

/// ¿Es el registro una deuda o un pago final?
fn es_repartible(r: &RegistroPago) -> (b: bool)
    ensures
        b == es_deuda_repartible(r.deep_view()),
{
    mismo_texto(r.tipo_registro.as_str(), "deuda") || mismo_texto(r.tipo_registro.as_str(), "pago_final")
}

/// Cota de lo acumulado en una deuda al empezar: la deuda más todos los registros.
pub open spec fn cota_inicial(n: int) -> int {
    (n + 1) * MONTO_MAXIMO
}

/// Los estados iniciales de las deudas de un file.
pub fn calcular_infos(rs: &Vec<RegistroPago>) -> (r: Vec<InfoDeuda>)
    requires
        registros_acotados(rs.deep_view()),
    ensures
        r@.map_values(|x: InfoDeuda| x@) == infos_iniciales(rs.deep_view(), rs.deep_view()),
        forall|i: int| 0 <= i < r@.len() ==> {
            &&& -cota_inicial(rs.len() as int) <= #[trigger] r@[i].acumulado <= cota_inicial(rs.len() as int)
            &&& 0 <= r@[i].pendiente <= 2 * cota_inicial(rs.len() as int)
            &&& -MONTO_MAXIMO <= r@[i].entrada_precio <= MONTO_MAXIMO
        },
{
    let ghost dv = rs.deep_view();
    let ghost n = rs.len() as int;
    let mut r: Vec<InfoDeuda> = Vec::new();
    let mut i: usize = 0;
    while i < rs.len()
        invariant
            i <= rs.len(),
            dv == rs.deep_view(),
            dv.len() == rs.len(),
            n == rs.len(),
            registros_acotados(dv),
            r@.map_values(|x: InfoDeuda| x@) == infos_iniciales(dv.take(i as int), dv),
            forall|k: int| 0 <= k < r@.len() ==> {
                &&& -cota_inicial(n) <= #[trigger] r@[k].acumulado <= cota_inicial(n)
                &&& 0 <= r@[k].pendiente <= 2 * cota_inicial(n)
                &&& -MONTO_MAXIMO <= r@[k].entrada_precio <= MONTO_MAXIMO
            },
        decreases rs.len() - i,
    {
        assert(dv.take(i as int + 1).drop_last() == dv.take(i as int));
        assert(dv[i as int] == rs@[i as int].deep_view());
        let d = &rs[i];
        if es_repartible(d) {
            let pagos_tour = sumar(rs, &Filtro::PagosDelTour(d.id_file_tour), Campo::Pagado);
            proof {
                assert(registro_acotado(dv[i as int]));
                assert(n * MONTO_MAXIMO + MONTO_MAXIMO == cota_inicial(n)) by (nonlinear_arith)
                    requires n >= 0;
                assert(cota_inicial(n) <= 18446744073709551617 * MONTO_MAXIMO) by (nonlinear_arith)
                    requires n <= 18446744073709551616;
            }
            let acumulado: i128 = d.monto_pagado as i128 + pagos_tour;
            let pendiente: i128 = d.monto_total as i128 - acumulado;
            let info = InfoDeuda {
                deuda_id: d.id,
                id_file_tour: d.id_file_tour,
                monto_total: d.monto_total as i128,
                pagado_original: d.monto_pagado as i128,
                acumulado,
                pendiente: if pendiente > 0 { pendiente } else { 0 },
                entradas: d.entradas,
                entrada_precio: match d.entrada_precio {
                    Some(e) => e as i128,
                    None => 0,
                },
            };
            let ghost antes = r@;
            r.push(info);
            assert(r@.map_values(|x: InfoDeuda| x@) == antes.map_values(|x: InfoDeuda| x@).push(info@));
        }
        i = i + 1;
    }
    assert(dv.take(rs.len() as int) == dv);
    r
}

// ===================== Orden estable por monto acumulado =====================

/// Posición en que se inserta un elemento de clave `k` en la secuencia `s`
/// ordenada: después de todos los primeros elementos con clave `<= k`.
pub open spec fn pos_insercion(s: Seq<usize>, infos: Seq<InfoDeudaV>, k: int) -> int
    decreases s.len(),
{
    if s.len() == 0 {
        0
    } else if infos[s[0] as int].acumulado <= k {
        1 + pos_insercion(s.drop_first(), infos, k)
    } else {
        0
    }
}

/// Inserta el índice `i` en la secuencia ordenada `s`, detrás de los de igual clave.
pub open spec fn insertar_estable(s: Seq<usize>, infos: Seq<InfoDeudaV>, i: usize) -> Seq<usize> {
    let p = pos_insercion(s, infos, infos[i as int].acumulado);
    s.take(p).push(i) + s.skip(p)
}

/// Los índices `cands` ordenados de menor a mayor monto acumulado; entre
/// índices de igual monto se conserva el orden de `cands` (orden estable).
pub open spec fn orden_estable(cands: Seq<usize>, infos: Seq<InfoDeudaV>) -> Seq<usize>
    decreases cands.len(),
{
    if cands.len() == 0 {
        Seq::empty()
    } else {
        insertar_estable(orden_estable(cands.drop_last(), infos), infos, cands.last())
    }
}

/// `pos_insercion` avanza de a uno sobre un prefijo de claves `<= k`.
proof fn lema_pos_insercion_paso(s: Seq<usize>, infos: Seq<InfoDeudaV>, k: int, p: int)
    requires
        0 <= p < s.len(),
        infos[s[p] as int].acumulado <= k,
    ensures
        pos_insercion(s.skip(p), infos, k) == 1 + pos_insercion(s.skip(p + 1), infos, k),
{
    assert(s.skip(p).drop_first() == s.skip(p + 1));
    assert(s.skip(p)[0] == s[p]);
}

/// Ordena los índices candidatos de menor a mayor monto acumulado, de forma estable.
pub fn ordenar_por_acumulado(infos: &Vec<InfoDeuda>, cands: &Vec<usize>) -> (r: Vec<usize>)
    requires
        forall|j: int| 0 <= j < cands@.len() ==> #[trigger] cands@[j] < infos@.len(),
    ensures
        r@ == orden_estable(cands@, infos@.map_values(|x: InfoDeuda| x@)),
        r@.len() == cands@.len(),
        forall|j: int| 0 <= j < r@.len() ==> #[trigger] r@[j] < infos@.len(),
{
    let ghost iv = infos@.map_values(|x: InfoDeuda| x@);
    let mut s: Vec<usize> = Vec::new();
    let mut j: usize = 0;
    while j < cands.len()
        invariant
            j <= cands.len(),
            iv == infos@.map_values(|x: InfoDeuda| x@),
            iv.len() == infos@.len(),
            forall|q: int| 0 <= q < cands@.len() ==> #[trigger] cands@[q] < infos@.len(),
            s@ == orden_estable(cands@.take(j as int), iv),
            s@.len() == j,
            forall|q: int| 0 <= q < s@.len() ==> #[trigger] s@[q] < infos@.len(),
        decreases cands.len() - j,
    {
        assert(cands@.take(j as int + 1).drop_last() == cands@.take(j as int));
        let c = cands[j];
        let k = infos[c].acumulado;
        let mut p: usize = 0;
        assert(s@.skip(0) == s@);
        while p < s.len() && infos[s[p]].acumulado <= k
            invariant
                p <= s@.len(),
                iv == infos@.map_values(|x: InfoDeuda| x@),
                forall|q: int| 0 <= q < s@.len() ==> #[trigger] s@[q] < infos@.len(),
                pos_insercion(s@, iv, k as int) == p + pos_insercion(s@.skip(p as int), iv, k as int),
            decreases s@.len() - p,
        {
            proof {
                lema_pos_insercion_paso(s@, iv, k as int, p as int);
            }
            p = p + 1;
        }
        proof {
            if p < s@.len() {
                assert(s@.skip(p as int)[0] == s@[p as int]);
            }
            assert(iv[c as int] == infos@[c as int]@);
        }
        let ghost antes = s@;
        s.insert(p, c);
        assert(s@ == antes.take(p as int).push(c) + antes.skip(p as int));
        assert forall|q: int| 0 <= q < s@.len() implies #[trigger] s@[q] < infos@.len() by {
            if q < p {
                assert(s@[q] == antes[q]);
            } else if q > p {
                assert(s@[q] == antes[q - 1]);
            }
        }
        j = j + 1;
    }
    assert(cands@.take(cands.len() as int) == cands@);
    s
}

// ===================== Reparto del pago =====================

/// Estado con que se crea un registro de pago nuevo.
#[derive(Debug, Clone, Copy, PartialEq, Eq, Structural)]
pub enum EstadoNuevoPago {
    PendienteVerificacion,
    Pagado,
    Parcial,
}

/// Tipo de un registro de pago nuevo.
#[derive(Debug, Clone, Copy, PartialEq, Eq, Structural)]
pub enum TipoNuevoPago {
    Pago,
    PagoFinal,
}

/// Una escritura del reparto de un pago.
#[derive(Debug, Clone, Copy, PartialEq, Eq, Structural)]
pub enum OperacionPago {
    /// Primer pago sobre la deuda: su monto pagado pasa a `monto_pagado` y su
    /// estado a "pendiente_verificacion", con la cuota y el comprobante del pago.
    ActualizarDeuda { deuda_id: i32, monto_pagado: i128 },
    /// Pago posterior: se crea un registro de pago con la cuota y el comprobante.
    CrearPago {
        id_file_tour: Option<i32>,
        monto_total: i128,
        monto_pagado: i128,
        estado: EstadoNuevoPago,
        tipo: TipoNuevoPago,
    },
}

/// El menor de dos enteros.
pub open spec fn min(a: int, b: int) -> int {
    if a <= b {
        a
    } else {
        b
    }
}

/// Lo que se aplica a una deuda en una fase con `restante` por repartir:
/// en la primera fase, hasta cubrir el costo de sus entradas; en la segunda,
/// hasta cubrir lo pendiente.
pub open spec fn monto_fase(d: InfoDeudaV, restante: int, segunda: bool) -> int {
    if segunda {
        min(restante, d.pendiente)
    } else {
        let entradas_pendientes = if d.acumulado < d.entrada_precio {
            d.entrada_precio - d.acumulado
        } else {
            0
        };
        if entradas_pendientes > 0 {
            min(restante, entradas_pendientes)
        } else {
            0
        }
    }
}

/// La escritura que aplica `a` a la deuda `d`. Si la deuda no tenía nada pagado
/// se actualiza la deuda con lo acumulado más `a`; si no, se crea un pago de `a`
/// que es final cuando lo pendiente restante no pasa de un céntimo. En la
/// primera fase el pago queda pendiente de verificación; en la segunda, pagado
/// o parcial.
pub open spec fn operacion(d: InfoDeudaV, a: int, segunda: bool) -> OperacionPago {
    if d.pagado_original == 0 {
        OperacionPago::ActualizarDeuda { deuda_id: d.deuda_id, monto_pagado: (d.acumulado + a) as i128 }
    } else {
        let despues = d.pendiente - a;
        OperacionPago::CrearPago {
            id_file_tour: d.id_file_tour,
            monto_total: d.monto_total as i128,
            monto_pagado: a as i128,
            estado: if !segunda {
                EstadoNuevoPago::PendienteVerificacion
            } else if despues <= TOLERANCIA {
                EstadoNuevoPago::Pagado
            } else {
                EstadoNuevoPago::Parcial
            },
            tipo: if despues <= TOLERANCIA {
                TipoNuevoPago::PagoFinal
            } else {
                TipoNuevoPago::Pago
            },
        }
    }
}

/// La deuda después de aplicarle `a`.
pub open spec fn aplicar_monto(d: InfoDeudaV, a: int) -> InfoDeudaV {
    InfoDeudaV { acumulado: d.acumulado + a, pendiente: d.pendiente - a, ..d }
}

/// Reparte `restante` recorriendo las deudas en el orden `orden`, hasta que no
/// quede nada: devuelve las deudas actualizadas, las escrituras y lo que sobra.
pub open spec fn repartir(
    infos: Seq<InfoDeudaV>,
    orden: Seq<usize>,
    restante: int,
    segunda: bool,
) -> (Seq<InfoDeudaV>, Seq<OperacionPago>, int)
    decreases orden.len(),
{
    if orden.len() == 0 || restante <= 0 {
        (infos, Seq::empty(), restante)
    } else {
        let i = orden[0] as int;
        let d = infos[i];
        let a = monto_fase(d, restante, segunda);
        if a > 0 {
            let r = repartir(infos.update(i, aplicar_monto(d, a)), orden.drop_first(), restante - a, segunda);
            (r.0, seq![operacion(d, a, segunda)] + r.1, r.2)
        } else {
            repartir(infos, orden.drop_first(), restante, segunda)
        }
    }
}

/// Cota de trabajo de los montos durante el reparto.
pub open spec fn cota_reparto() -> int {
    1329227995784915872903807060280344576
}

/// ¿Están los montos de las deudas dentro de la cota de trabajo?
pub open spec fn infos_acotadas(infos: Seq<InfoDeuda>) -> bool {
    forall|k: int| 0 <= k < infos.len() ==> {
        &&& -cota_reparto() <= #[trigger] infos[k].acumulado <= cota_reparto()
        &&& -cota_reparto() <= infos[k].pendiente <= cota_reparto()
        &&& -cota_reparto() <= infos[k].entrada_precio <= cota_reparto()
    }
}

/// Abonar `a > 0` a una deuda mantiene las cotas del reparto con `a` más de
/// lo ya repartido.
proof fn lema_abono_acotado(inicial: Seq<InfoDeuda>, antes: Seq<InfoDeuda>, despues: Seq<InfoDeuda>, i: int, a: int, gastado: int)
    requires
        antes.len() == inicial.len(),
        despues.len() == antes.len(),
        0 <= i < antes.len(),
        a > 0,
        forall|k: int| 0 <= k < antes.len() && k != i ==> despues[k] == antes[k],
        despues[i].acumulado == antes[i].acumulado + a,
        despues[i].pendiente == antes[i].pendiente - a,
        despues[i].entrada_precio == antes[i].entrada_precio,
        forall|k: int| 0 <= k < antes.len() ==> {
            &&& inicial[k].acumulado <= #[trigger] antes[k].acumulado <= inicial[k].acumulado + gastado
            &&& inicial[k].pendiente - gastado <= antes[k].pendiente <= inicial[k].pendiente
            &&& antes[k].entrada_precio == inicial[k].entrada_precio
        },
    ensures
        forall|k: int| 0 <= k < despues.len() ==> {
            &&& inicial[k].acumulado <= #[trigger] despues[k].acumulado <= inicial[k].acumulado + (gastado + a)
            &&& inicial[k].pendiente - (gastado + a) <= despues[k].pendiente <= inicial[k].pendiente
            &&& despues[k].entrada_precio == inicial[k].entrada_precio
        },
{
    assert forall|k: int| 0 <= k < despues.len() implies {
        &&& inicial[k].acumulado <= #[trigger] despues[k].acumulado <= inicial[k].acumulado + (gastado + a)
        &&& inicial[k].pendiente - (gastado + a) <= despues[k].pendiente <= inicial[k].pendiente
        &&& despues[k].entrada_precio == inicial[k].entrada_precio
    } by {
        assert(inicial[k].acumulado <= antes[k].acumulado <= inicial[k].acumulado + gastado);
        if k != i {
            assert(despues[k] == antes[k]);
        }
    }
}

/// Reparte `restante` entre las deudas en el orden dado (una fase), agregando
/// las escrituras a `ops`.
#[verifier::spinoff_prover]
pub fn repartir_fase(
    infos: &mut Vec<InfoDeuda>,
    orden: &Vec<usize>,
    restante: i128,
    segunda: bool,
    ops: &mut Vec<OperacionPago>,
) -> (sobra: i128)
    requires
        forall|j: int| 0 <= j < orden@.len() ==> #[trigger] orden@[j] < old(infos)@.len(),
        infos_acotadas(old(infos)@),
        -0x1_0000_0000_0000_0000 <= restante <= 0x1_0000_0000_0000_0000,
    ensures
        ({
            let r = repartir(old(infos)@.map_values(|x: InfoDeuda| x@), orden@, restante as int, segunda);
            &&& final(infos)@.map_values(|x: InfoDeuda| x@) == r.0
            &&& final(ops)@ == old(ops)@ + r.1
            &&& sobra == r.2
        }),
        final(infos)@.len() == old(infos)@.len(),
        sobra <= restante,
        sobra == restante || sobra >= 0,
        forall|k: int| 0 <= k < final(infos)@.len() ==> {
            &&& old(infos)@[k].acumulado <= #[trigger] final(infos)@[k].acumulado
                <= old(infos)@[k].acumulado + (restante - sobra)
            &&& old(infos)@[k].pendiente - (restante - sobra) <= final(infos)@[k].pendiente
                <= old(infos)@[k].pendiente
            &&& final(infos)@[k].entrada_precio == old(infos)@[k].entrada_precio
        },
{
    let ghost inicial = infos@;
    let ghost ops0 = ops@;
    let ghost total = repartir(inicial.map_values(|x: InfoDeuda| x@), orden@, restante as int, segunda);
    let mut rest = restante;
    let mut j: usize = 0;
    assert(orden@.skip(0) == orden@);
    while j < orden.len() && rest > 0
        invariant
            j <= orden@.len(),
            infos@.len() == inicial.len(),
            forall|q: int| 0 <= q < orden@.len() ==> #[trigger] orden@[q] < inicial.len(),
            infos_acotadas(inicial),
            -0x1_0000_0000_0000_0000 <= restante <= 0x1_0000_0000_0000_0000,
            rest <= restante,
            rest == restante || rest >= 0,
            forall|k: int| 0 <= k < infos@.len() ==> {
                &&& inicial[k].acumulado <= #[trigger] infos@[k].acumulado <= inicial[k].acumulado + (restante
                    - rest)
                &&& inicial[k].pendiente - (restante - rest) <= infos@[k].pendiente <= inicial[k].pendiente
                &&& infos@[k].entrada_precio == inicial[k].entrada_precio
            },
            ({
                let r = repartir(infos@.map_values(|x: InfoDeuda| x@), orden@.skip(j as int), rest as int, segunda);
                &&& r.0 == total.0
                &&& ops@ + r.1 == ops0 + total.1
                &&& r.2 == total.2
            }),
        decreases orden@.len() - j,
    {
        let ghost iv = infos@.map_values(|x: InfoDeuda| x@);
        assert(orden@.skip(j as int).drop_first() == orden@.skip(j as int + 1));
        assert(orden@.skip(j as int)[0] == orden@[j as int]);
        let i = orden[j];
        let d = infos[i];
        assert(iv[i as int] == d@);
        let a: i128 = if segunda {
            if rest <= d.pendiente {
                rest
            } else {
                d.pendiente
            }
        } else {
            let entradas_pendientes: i128 = if d.acumulado < d.entrada_precio {
                d.entrada_precio - d.acumulado
            } else {
                0
            };
            if entradas_pendientes > 0 {
                if rest <= entradas_pendientes {
                    rest
                } else {
                    entradas_pendientes
                }
            } else {
                0
            }
        };
        assert(a == monto_fase(d@, rest as int, segunda));
        if a > 0 {
            let op = if d.pagado_original == 0 {
                OperacionPago::ActualizarDeuda { deuda_id: d.deuda_id, monto_pagado: d.acumulado + a }
            } else {
                let despues = d.pendiente - a;
                OperacionPago::CrearPago {
                    id_file_tour: d.id_file_tour,
                    monto_total: d.monto_total,
                    monto_pagado: a,
                    estado: if !segunda {
                        EstadoNuevoPago::PendienteVerificacion
                    } else if despues <= TOLERANCIA as i128 {
                        EstadoNuevoPago::Pagado
                    } else {
                        EstadoNuevoPago::Parcial
                    },
                    tipo: if despues <= TOLERANCIA as i128 {
                        TipoNuevoPago::PagoFinal
                    } else {
                        TipoNuevoPago::Pago
                    },
                }
            };
            assert(op == operacion(d@, a as int, segunda));
            let nueva = InfoDeuda { acumulado: d.acumulado + a, pendiente: d.pendiente - a, ..d };
            assert(nueva@ == aplicar_monto(d@, a as int));
            let ghost ops_antes = ops@;
            let ghost infos_antes = infos@;
            infos.set(i, nueva);
            proof {
                assert(infos@ == infos_antes.update(i as int, nueva));
                lema_abono_acotado(inicial, infos_antes, infos@, i as int, a as int, restante - rest);
            }
            assert(infos@.map_values(|x: InfoDeuda| x@) == iv.update(i as int, aplicar_monto(d@, a as int)));
            ops.push(op);
            assert(ops@ == ops_antes + seq![op]);
            rest = rest - a;
        }
        j = j + 1;
    }
    proof {
        let r = repartir(infos@.map_values(|x: InfoDeuda| x@), orden@.skip(j as int), rest as int, segunda);
        if j < orden@.len() {
            assert(rest <= 0);
        } else {
            assert(orden@.skip(j as int).len() == 0);
        }
        assert(r.1 == Seq::<OperacionPago>::empty());
        assert(ops@ + r.1 == ops@);
    }
    rest
}

// ===================== Plan completo del registro de un pago =====================

/// ¿Es la deuda candidata en la fase? En la primera, las que tienen entradas y
/// algo pendiente; en la segunda, todas las que tienen algo pendiente.
pub open spec fn es_candidata(d: InfoDeudaV, segunda: bool) -> bool {
    (segunda || d.entradas) && d.pendiente > 0
}

/// Los índices de las `n` primeras deudas que son candidatas en la fase, en orden.
pub open spec fn candidatas(infos: Seq<InfoDeudaV>, n: int, segunda: bool) -> Seq<usize>
    decreases n,
{
    if n <= 0 {
        Seq::empty()
    } else {
        let r = candidatas(infos, n - 1, segunda);
        if es_candidata(infos[n - 1], segunda) {
            r.push((n - 1) as usize)
        } else {
            r
        }
    }
}

/// Las dos fases del reparto de `monto` entre las deudas de los registros `rs`.
pub open spec fn fases(rs: Seq<RegistroVista>, monto: int) -> (
    (Seq<InfoDeudaV>, Seq<OperacionPago>, int),
    (Seq<InfoDeudaV>, Seq<OperacionPago>, int),
) {
    let inf0 = infos_iniciales(rs, rs);
    let f1 = repartir(inf0, orden_estable(candidatas(inf0, inf0.len() as int, false), inf0), monto, false);
    let f2 = repartir(f1.0, orden_estable(candidatas(f1.0, f1.0.len() as int, true), f1.0), f1.2, true);
    (f1, f2)
}

/// Las escrituras del reparto de `monto` entre las deudas de los registros `rs`.
pub open spec fn reparto(rs: Seq<RegistroVista>, monto: int) -> Seq<OperacionPago> {
    fases(rs, monto).0.1 + fases(rs, monto).1.1
}

/// La mayor cuota registrada, si hay alguna.
pub open spec fn cuota_maxima(rs: Seq<RegistroVista>) -> Option<i16>
    decreases rs.len(),
{
    if rs.len() == 0 {
        None
    } else {
        let resto = cuota_maxima(rs.drop_last());
        match rs.last().cuota {
            None => resto,
            Some(c) => match resto {
                None => Some(c),
                Some(m) => Some(if c > m { c } else { m }),
            },
        }
    }
}

/// La cuota que se asigna a un pago nuevo: la mayor registrada más uno (1 si no hay).
pub open spec fn cuota_siguiente(rs: Seq<RegistroVista>) -> int {
    match cuota_maxima(rs) {
        Some(m) => m + 1,
        None => 1,
    }
}

/// Monto total de un file: la suma de sus deudas por tour.
pub open spec fn total_file(rs: Seq<RegistroVista>) -> int {
    suma(rs, Filtro::Deudas, Campo::Total)
}

/// Monto pagado de un file: lo pagado en deudas, pagos y pagos finales.
pub open spec fn pagado_file(rs: Seq<RegistroVista>) -> int {
    suma(rs, Filtro::DeudasYPagos, Campo::Pagado)
}

/// Por qué no se puede registrar un pago.
#[derive(Debug, Clone, PartialEq, Eq, Structural)]
pub enum ErrorRegistroPago {
    /// El registro sobre el que se paga está cancelado o en no-show.
    EstadoNoPagable,
    /// El monto excede lo pendiente del file en más de la tolerancia.
    MontoExcedePendiente { monto: i64, pendiente: i128 },
}

/// Lo que hay que escribir al registrar un pago, y los totales del file.
#[derive(Debug, Clone)]
pub struct PlanRegistroPago {
    pub operaciones: Vec<OperacionPago>,
    pub monto_total_file: i128,
    pub monto_pagado_global: i128,
    pub monto_pendiente: i128,
    /// ¿Cubre el pago todo lo pendiente (salvo la tolerancia)?
    pub deuda_saldada: bool,
    /// Cuota que llevan los registros escritos.
    pub siguiente_cuota: i16,
}

/// La mayor cuota registrada, si hay alguna.
fn mayor_cuota(rs: &Vec<RegistroPago>) -> (r: Option<i16>)
    ensures
        r == cuota_maxima(rs.deep_view()),
{
    let ghost dv = rs.deep_view();
    let mut m: Option<i16> = None;
    let mut i: usize = 0;
    while i < rs.len()
        invariant
            i <= rs.len(),
            dv == rs.deep_view(),
            dv.len() == rs.len(),
            m == cuota_maxima(dv.take(i as int)),
        decreases rs.len() - i,
    {
        assert(dv.take(i as int + 1).drop_last() == dv.take(i as int));
        assert(dv[i as int] == rs@[i as int].deep_view());
        match rs[i].cuota {
            None => {},
            Some(c) => {
                m = match m {
                    None => Some(c),
                    Some(x) => Some(if c > x { c } else { x }),
                };
            },
        }
        i = i + 1;
    }
    assert(dv.take(rs.len() as int) == dv);
    m
}

/// Los índices de las deudas candidatas en la fase, en orden.
fn buscar_candidatas(infos: &Vec<InfoDeuda>, segunda: bool) -> (r: Vec<usize>)
    ensures
        r@ == candidatas(infos@.map_values(|x: InfoDeuda| x@), infos@.len() as int, segunda),
        forall|j: int| 0 <= j < r@.len() ==> #[trigger] r@[j] < infos@.len(),
{
    let ghost iv = infos@.map_values(|x: InfoDeuda| x@);
    let mut r: Vec<usize> = Vec::new();
    let mut i: usize = 0;
    while i < infos.len()
        invariant
            i <= infos.len(),
            iv == infos@.map_values(|x: InfoDeuda| x@),
            r@ == candidatas(iv, i as int, segunda),
            forall|j: int| 0 <= j < r@.len() ==> #[trigger] r@[j] < i,
        decreases infos.len() - i,
    {
        assert(iv[i as int] == infos@[i as int]@);
        if (segunda || infos[i].entradas) && infos[i].pendiente > 0 {
            r.push(i);
        }
        i = i + 1;
    }
    r
}

/// Decide el registro de un pago de `monto` céntimos sobre un file cuyos
/// registros de pago son `registros`, hecho sobre un registro en estado
/// `estado_original`.
///
/// No se paga sobre registros cancelados o en no-show, ni por más de lo
/// pendiente del file más la tolerancia. Si se puede, el plan trae las
/// escrituras del reparto en dos fases, los totales del file, si el pago salda
/// la deuda y la cuota del pago.
pub fn planificar_pago_file(
    estado_original: &str,
    registros: &Vec<RegistroPago>,
    monto: i64,
) -> (r: Result<PlanRegistroPago, ErrorRegistroPago>)
    requires
        registros_acotados(registros.deep_view()),
        cuota_siguiente(registros.deep_view()) <= i16::MAX,
    ensures
        ({
            let rs = registros.deep_view();
            let pendiente = total_file(rs) - pagado_file(rs);
            if estado_original@ == "cancelado"@ || estado_original@ == "no_show"@ {
                r == Err::<PlanRegistroPago, ErrorRegistroPago>(ErrorRegistroPago::EstadoNoPagable)
            } else if monto > pendiente + TOLERANCIA {
                r == Err::<PlanRegistroPago, ErrorRegistroPago>(
                    ErrorRegistroPago::MontoExcedePendiente { monto, pendiente: pendiente as i128 },
                )
            } else {
                &&& r is Ok
                &&& r->Ok_0.operaciones@ == reparto(rs, monto as int)
                &&& r->Ok_0.monto_total_file == total_file(rs)
                &&& r->Ok_0.monto_pagado_global == pagado_file(rs)
                &&& r->Ok_0.monto_pendiente == pendiente
                &&& r->Ok_0.deuda_saldada == (monto >= pendiente - TOLERANCIA)
                &&& r->Ok_0.siguiente_cuota == cuota_siguiente(rs)
            }
        }),
{
    if mismo_texto(estado_original, "cancelado") || mismo_texto(estado_original, "no_show") {
        return Err(ErrorRegistroPago::EstadoNoPagable);
    }
    let ghost rs = registros.deep_view();
    let monto_total_file = sumar(registros, &Filtro::Deudas, Campo::Total);
    let monto_pagado_global = sumar(registros, &Filtro::DeudasYPagos, Campo::Pagado);
    proof {
        assert(registros.len() * MONTO_MAXIMO <= 18446744073709551616 * MONTO_MAXIMO) by (nonlinear_arith)
            requires registros.len() <= 18446744073709551616int;
    }
    let siguiente_cuota: i16 = match mayor_cuota(registros) {
        Some(m) => m + 1,
        None => 1,
    };
    let monto_pendiente = monto_total_file - monto_pagado_global;
    if monto as i128 > monto_pendiente + TOLERANCIA as i128 {
        return Err(ErrorRegistroPago::MontoExcedePendiente { monto, pendiente: monto_pendiente });
    }
    let mut infos = calcular_infos(registros);
    let ghost n = registros.len() as int;
    proof {
        assert(cota_inicial(n) <= 18446744073709551617 * MONTO_MAXIMO) by (nonlinear_arith)
            requires n <= 18446744073709551616, cota_inicial(n) == (n + 1) * MONTO_MAXIMO;
        assert(2 * 18446744073709551617 * MONTO_MAXIMO + 0x1_0000_0000_0000_0000 <= cota_reparto());
    }
    let mut ops: Vec<OperacionPago> = Vec::new();
    let cand1 = buscar_candidatas(&infos, false);
    let orden1 = ordenar_por_acumulado(&infos, &cand1);
    let ghost infos0 = infos@;
    let sobra1 = repartir_fase(&mut infos, &orden1, monto as i128, false, &mut ops);
    assert forall|k: int| 0 <= k < infos@.len() implies {
        &&& -cota_reparto() <= #[trigger] infos@[k].acumulado <= cota_reparto()
        &&& -cota_reparto() <= infos@[k].pendiente <= cota_reparto()
        &&& -cota_reparto() <= infos@[k].entrada_precio <= cota_reparto()
    } by {
        assert(-cota_inicial(n) <= infos0[k].acumulado <= cota_inicial(n));
        assert(0 <= infos0[k].pendiente <= 2 * cota_inicial(n));
    }
    let cand2 = buscar_candidatas(&infos, true);
    let orden2 = ordenar_por_acumulado(&infos, &cand2);
    let _sobra2 = repartir_fase(&mut infos, &orden2, sobra1, true, &mut ops);
    Ok(PlanRegistroPago {
        operaciones: ops,
        monto_total_file,
        monto_pagado_global,
        monto_pendiente,
        deuda_saldada: monto as i128 >= monto_pendiente - TOLERANCIA as i128,
        siguiente_cuota,
    })
}


// ===================== Leyes del reparto de un pago =====================

/// La suma de lo acumulado en las deudas.
pub open spec fn suma_acumulada(s: Seq<InfoDeudaV>) -> int
    decreases s.len(),
{
    if s.len() == 0 {
        0
    } else {
        suma_acumulada(s.drop_last()) + s.last().acumulado
    }
}

/// Cambiar una deuda cambia la suma en la diferencia de lo acumulado.
proof fn lema_suma_acumulada_update(s: Seq<InfoDeudaV>, i: int, x: InfoDeudaV)
    requires
        0 <= i < s.len(),
    ensures
        suma_acumulada(s.update(i, x)) == suma_acumulada(s) - s[i].acumulado + x.acumulado,
    decreases s.len(),
{
    if i == s.len() - 1 {
        assert(s.update(i, x).drop_last() == s.drop_last());
    } else {
        assert(s.update(i, x).drop_last() == s.drop_last().update(i, x));
        lema_suma_acumulada_update(s.drop_last(), i, x);
    }
}

/// Una fase del reparto no crea ni pierde dinero: lo que suman las deudas
/// crece exactamente en lo repartido (lo que había menos lo que sobra); lo que
/// sobra no pasa de lo que había y, si había algo, no es negativo; y ninguna
/// deuda recibe más de lo que le faltaba.
pub proof fn ley_reparto_conserva_el_monto(infos: Seq<InfoDeudaV>, orden: Seq<usize>, restante: int, segunda: bool)
    requires
        forall|j: int| 0 <= j < orden.len() ==> #[trigger] orden[j] < infos.len(),
    ensures
        ({
            let r = repartir(infos, orden, restante, segunda);
            &&& r.0.len() == infos.len()
            &&& suma_acumulada(r.0) - suma_acumulada(infos) == restante - r.2
            &&& r.2 <= restante
            &&& restante >= 0 ==> r.2 >= 0
            &&& segunda ==> forall|k: int| 0 <= k < infos.len() && infos[k].pendiente >= 0 ==> (#[trigger] r.0[k]).pendiente >= 0
        }),
    decreases orden.len(),
{
    if orden.len() == 0 || restante <= 0 {
    } else {
        let i = orden[0] as int;
        let d = infos[i];
        let a = monto_fase(d, restante, segunda);
        assert forall|j: int| 0 <= j < orden.drop_first().len() implies #[trigger] orden.drop_first()[j] < infos.len() by {
            assert(orden.drop_first()[j] == orden[j + 1]);
        }
        if a > 0 {
            let nuevas = infos.update(i, aplicar_monto(d, a));
            lema_suma_acumulada_update(infos, i, aplicar_monto(d, a));
            ley_reparto_conserva_el_monto(nuevas, orden.drop_first(), restante - a, segunda);
            let r = repartir(nuevas, orden.drop_first(), restante - a, segunda);
            assert forall|k: int| segunda && 0 <= k < infos.len() && infos[k].pendiente >= 0 implies (#[trigger] r.0[k]).pendiente >= 0 by {
                if k == i {
                    assert(nuevas[k].pendiente >= 0);
                } else {
                    assert(nuevas[k] == infos[k]);
                }
            }
        } else {
            ley_reparto_conserva_el_monto(infos, orden.drop_first(), restante, segunda);
        }
    }
}

/// La posición de inserción deja delante solo claves `<= k` y, si no es el
/// final, la clave en esa posición es mayor que `k`.
proof fn lema_pos_insercion(s: Seq<usize>, infos: Seq<InfoDeudaV>, k: int)
    ensures
        0 <= pos_insercion(s, infos, k) <= s.len(),
        forall|j: int| 0 <= j < pos_insercion(s, infos, k) ==> infos[#[trigger] s[j] as int].acumulado <= k,
        pos_insercion(s, infos, k) < s.len() ==> infos[s[pos_insercion(s, infos, k)] as int].acumulado > k,
    decreases s.len(),
{
    if s.len() > 0 && infos[s[0] as int].acumulado <= k {
        lema_pos_insercion(s.drop_first(), infos, k);
        assert forall|j: int| 0 <= j < pos_insercion(s, infos, k) implies infos[#[trigger] s[j] as int].acumulado <= k by {
            if j > 0 {
                assert(s[j] == s.drop_first()[j - 1]);
            }
        }
        if pos_insercion(s, infos, k) < s.len() {
            assert(s[pos_insercion(s, infos, k)] == s.drop_first()[pos_insercion(s.drop_first(), infos, k)]);
        }
    }
}

/// ¿Está la secuencia ordenada por lo acumulado?
pub open spec fn ordenada_por_acumulado(s: Seq<usize>, infos: Seq<InfoDeudaV>) -> bool {
    forall|a: int, b: int| 0 <= a < b < s.len() ==> infos[#[trigger] s[a] as int].acumulado <= infos[#[trigger] s[b] as int].acumulado
}

/// El orden de reparto es el orden de lo acumulado: deja primero las deudas
/// con menos acumulado, tiene las mismas deudas que las candidatas, y entre
/// dos de igual acumulado conserva el orden en que venían.
pub proof fn ley_orden_estable_ordena(cands: Seq<usize>, infos: Seq<InfoDeudaV>)
    ensures
        ordenada_por_acumulado(orden_estable(cands, infos), infos),
        orden_estable(cands, infos).len() == cands.len(),
        forall|k: int| 0 <= k < cands.len() ==> cands.contains(#[trigger] orden_estable(cands, infos)[k]),
    decreases cands.len(),
{
    if cands.len() > 0 {
        let c = cands.drop_last();
        ley_orden_estable_ordena(c, infos);
        let s = orden_estable(c, infos);
        let i = cands.last();
        let k = infos[i as int].acumulado;
        let p = pos_insercion(s, infos, k);
        lema_pos_insercion(s, infos, k);
        let r = s.take(p).push(i) + s.skip(p);
        assert(r == orden_estable(cands, infos));
        assert forall|j: int| p <= j < s.len() implies infos[#[trigger] s[j] as int].acumulado > k by {
            if j > p {
                assert(infos[s[p] as int].acumulado <= infos[s[j] as int].acumulado);
            }
        }
        assert forall|x: int| 0 <= x < r.len() implies #[trigger] r[x] == (if x < p { s[x] } else if x == p { i } else { s[x - 1] }) by {}
        assert forall|a: int, b: int| 0 <= a < b < r.len() implies infos[#[trigger] r[a] as int].acumulado <= infos[#[trigger] r[b] as int].acumulado by {
            if b < p {
                assert(r[a] == s[a] && r[b] == s[b]);
            } else if b == p {
                assert(r[a] == s[a] && r[b] == i);
            } else if a < p {
                assert(r[a] == s[a] && r[b] == s[b - 1]);
            } else if a == p {
                assert(r[a] == i && r[b] == s[b - 1]);
            } else {
                assert(r[a] == s[a - 1] && r[b] == s[b - 1]);
            }
        }
        assert forall|x: int| 0 <= x < cands.len() implies cands.contains(#[trigger] r[x]) by {
            if x == p {
                assert(cands[cands.len() - 1] == i);
            } else {
                let y = if x < p { x } else { x - 1 };
                assert(r[x] == s[y]);
                assert(c.contains(s[y]));
                let w = choose|w: int| 0 <= w < c.len() && c[w] == s[y];
                assert(cands[w] == c[w]);
            }
        }
    }
}


/// Las candidatas son índices de deudas.
proof fn lema_candidatas_validas(infos: Seq<InfoDeudaV>, n: int, segunda: bool)
    requires
        0 <= n <= infos.len(),
        infos.len() <= usize::MAX,
    ensures
        forall|k: int| 0 <= k < candidatas(infos, n, segunda).len() ==> #[trigger] candidatas(infos, n, segunda)[k] < n,
    decreases n,
{
    if n > 0 {
        lema_candidatas_validas(infos, n - 1, segunda);
        let pre = candidatas(infos, n - 1, segunda);
        let todo = candidatas(infos, n, segunda);
        assert forall|k: int| 0 <= k < todo.len() implies #[trigger] todo[k] < n by {
            if k < pre.len() {
                assert(todo[k] == pre[k]);
            }
        }
    }
}

/// Hay a lo sumo una deuda por registro.
proof fn lema_infos_iniciales_len(pre: Seq<RegistroVista>, rs: Seq<RegistroVista>)
    ensures
        infos_iniciales(pre, rs).len() <= pre.len(),
    decreases pre.len(),
{
    if pre.len() > 0 {
        lema_infos_iniciales_len(pre.drop_last(), rs);
    }
}

/// El orden de una fase solo tiene índices de deudas.
proof fn lema_orden_de_fase_valido(infos: Seq<InfoDeudaV>, segunda: bool)
    requires
        infos.len() <= usize::MAX,
    ensures
        forall|j: int| 0 <= j < orden_estable(candidatas(infos, infos.len() as int, segunda), infos).len()
            ==> #[trigger] orden_estable(candidatas(infos, infos.len() as int, segunda), infos)[j] < infos.len(),
{
    let c = candidatas(infos, infos.len() as int, segunda);
    lema_candidatas_validas(infos, infos.len() as int, segunda);
    ley_orden_estable_ordena(c, infos);
    let o = orden_estable(c, infos);
    assert forall|j: int| 0 <= j < o.len() implies #[trigger] o[j] < infos.len() by {
        assert(c.contains(o[j]));
        let w = choose|w: int| 0 <= w < c.len() && c[w] == o[j];
    }
}

/// Registrar un pago no crea ni pierde dinero: tras las dos fases, lo que
/// suman las deudas crece exactamente en el monto pagado menos lo que sobra,
/// y lo que sobra está entre cero y el monto.
pub proof fn ley_pago_repartido_sin_perdida(rs: Seq<RegistroVista>, monto: int)
    requires
        monto >= 0,
        rs.len() <= usize::MAX,
    ensures
        ({
            let inf0 = infos_iniciales(rs, rs);
            let (f1, f2) = fases(rs, monto);
            &&& suma_acumulada(f2.0) - suma_acumulada(inf0) == monto - f2.2
            &&& 0 <= f2.2 <= monto
        }),
{
    let inf0 = infos_iniciales(rs, rs);
    lema_infos_iniciales_len(rs, rs);
    lema_orden_de_fase_valido(inf0, false);
    let o1 = orden_estable(candidatas(inf0, inf0.len() as int, false), inf0);
    ley_reparto_conserva_el_monto(inf0, o1, monto, false);
    let f1 = repartir(inf0, o1, monto, false);
    lema_orden_de_fase_valido(f1.0, true);
    let o2 = orden_estable(candidatas(f1.0, f1.0.len() as int, true), f1.0);
    ley_reparto_conserva_el_monto(f1.0, o2, f1.2, true);
}

/// Una fase del reparto solo cambia las deudas de su orden: las demás salen
/// tal como entraron.
proof fn lema_reparto_no_toca(infos: Seq<InfoDeudaV>, orden: Seq<usize>, restante: int, segunda: bool, k: int)
    requires
        0 <= k < infos.len(),
        forall|j: int| 0 <= j < orden.len() ==> #[trigger] orden[j] < infos.len(),
        !orden.contains(k as usize),
    ensures
        repartir(infos, orden, restante, segunda).0.len() == infos.len(),
        repartir(infos, orden, restante, segunda).0[k] == infos[k],
    decreases orden.len(),
{
    if orden.len() == 0 || restante <= 0 {
    } else {
        let i = orden[0] as int;
        let d = infos[i];
        let a = monto_fase(d, restante, segunda);
        let cola = orden.drop_first();
        assert forall|j: int| 0 <= j < cola.len() implies #[trigger] cola[j] < infos.len() by {
            assert(cola[j] == orden[j + 1]);
        }
        assert(!cola.contains(k as usize)) by {
            if cola.contains(k as usize) {
                let j = choose|j: int| 0 <= j < cola.len() && cola[j] == k as usize;
                assert(orden[j + 1] == k as usize);
            }
        }
        assert(orden[0] != k as usize);
        if a > 0 {
            let nuevo = infos.update(i, aplicar_monto(d, a));
            assert forall|j: int| 0 <= j < cola.len() implies #[trigger] cola[j] < nuevo.len() by {
                assert(cola[j] == orden[j + 1]);
            }
            lema_reparto_no_toca(nuevo, cola, restante - a, segunda, k);
        } else {
            lema_reparto_no_toca(infos, cola, restante, segunda, k);
        }
    }
}

/// Una fase del reparto no cambia cuántas deudas hay.
proof fn lema_reparto_longitud(infos: Seq<InfoDeudaV>, orden: Seq<usize>, restante: int, segunda: bool)
    requires
        forall|j: int| 0 <= j < orden.len() ==> #[trigger] orden[j] < infos.len(),
    ensures
        repartir(infos, orden, restante, segunda).0.len() == infos.len(),
    decreases orden.len(),
{
    if orden.len() == 0 || restante <= 0 {
    } else {
        let i = orden[0] as int;
        let d = infos[i];
        let a = monto_fase(d, restante, segunda);
        let cola = orden.drop_first();
        assert forall|j: int| 0 <= j < cola.len() implies #[trigger] cola[j] < infos.len() by {
            assert(cola[j] == orden[j + 1]);
        }
        if a > 0 {
            let nuevo = infos.update(i, aplicar_monto(d, a));
            assert forall|j: int| 0 <= j < cola.len() implies #[trigger] cola[j] < nuevo.len() by {
                assert(cola[j] == orden[j + 1]);
            }
            lema_reparto_longitud(nuevo, cola, restante - a, segunda);
        } else {
            lema_reparto_longitud(infos, cola, restante, segunda);
        }
    }
}

/// Hay a lo sumo tantas deudas como registros.
proof fn lema_infos_iniciales_longitud(pre: Seq<RegistroVista>, rs: Seq<RegistroVista>)
    ensures
        infos_iniciales(pre, rs).len() <= pre.len(),
    decreases pre.len(),
{
    if pre.len() > 0 {
        lema_infos_iniciales_longitud(pre.drop_last(), rs);
    }
}

/// Las candidatas de la primera fase son deudas con entradas, dentro de las
/// `n` primeras.
proof fn lema_candidatas_con_entradas(infos: Seq<InfoDeudaV>, n: int)
    requires
        n <= usize::MAX,
    ensures
        forall|j: int| 0 <= j < candidatas(infos, n, false).len() ==> {
            &&& (#[trigger] candidatas(infos, n, false)[j]) < n
            &&& infos[candidatas(infos, n, false)[j] as int].entradas
        },
    decreases n,
{
    if n > 0 {
        lema_candidatas_con_entradas(infos, n - 1);
        let r = candidatas(infos, n - 1, false);
        let c = candidatas(infos, n, false);
        assert forall|j: int| 0 <= j < c.len() implies {
            &&& (#[trigger] c[j]) < n
            &&& infos[c[j] as int].entradas
        } by {
            if j < r.len() {
                assert(c[j] == r[j]);
            }
        }
    }
}

/// La primera fase de un pago solo abona a deudas con entradas: toda deuda sin
/// entradas sale de ella tal como entró.
pub proof fn ley_primera_fase_solo_entradas(rs: Seq<RegistroVista>, monto: int)
    requires
        rs.len() <= usize::MAX,
    ensures
        ({
            let inf0 = infos_iniciales(rs, rs);
            let f1 = fases(rs, monto).0;
            &&& f1.0.len() == inf0.len()
            &&& forall|k: int| 0 <= k < inf0.len() && !inf0[k].entradas ==> #[trigger] f1.0[k] == inf0[k]
        }),
{
    let inf0 = infos_iniciales(rs, rs);
    lema_infos_iniciales_longitud(rs, rs);
    let n = inf0.len() as int;
    let cands = candidatas(inf0, n, false);
    let orden = orden_estable(cands, inf0);
    lema_candidatas_con_entradas(inf0, n);
    ley_orden_estable_ordena(cands, inf0);
    assert forall|j: int| 0 <= j < orden.len() implies #[trigger] orden[j] < inf0.len() by {
        assert(cands.contains(orden[j]));
        let c = choose|c: int| 0 <= c < cands.len() && cands[c] == orden[j];
    }
    lema_reparto_longitud(inf0, orden, monto, false);
    assert forall|k: int| 0 <= k < inf0.len() && !inf0[k].entradas implies #[trigger] fases(rs, monto).0.0[k]
        == inf0[k] by {
        assert(!orden.contains(k as usize)) by {
            if orden.contains(k as usize) {
                let j = choose|j: int| 0 <= j < orden.len() && orden[j] == k as usize;
                assert(cands.contains(orden[j]));
                let c = choose|c: int| 0 <= c < cands.len() && cands[c] == orden[j];
                assert(inf0[cands[c] as int].entradas);
            }
        }
        lema_reparto_no_toca(inf0, orden, monto, false, k);
    }
}

/// Cada estado inicial viene de una deuda (o pago final) de `pre`.
proof fn lema_infos_de_deudas(pre: Seq<RegistroVista>, rs: Seq<RegistroVista>)
    ensures
        forall|i: int| 0 <= i < infos_iniciales(pre, rs).len() ==> exists|j: int|
            0 <= j < pre.len() && es_deuda_repartible(pre[j])
                && #[trigger] infos_iniciales(pre, rs)[i] == info_inicial(pre[j], rs),
    decreases pre.len(),
{
    if pre.len() > 0 {
        let c = pre.drop_last();
        lema_infos_de_deudas(c, rs);
        let r = infos_iniciales(c, rs);
        assert forall|i: int| 0 <= i < infos_iniciales(pre, rs).len() implies exists|j: int|
            0 <= j < pre.len() && es_deuda_repartible(pre[j])
                && #[trigger] infos_iniciales(pre, rs)[i] == info_inicial(pre[j], rs) by {
            if i < r.len() {
                assert(infos_iniciales(pre, rs)[i] == r[i]);
                let j = choose|j: int| 0 <= j < c.len() && es_deuda_repartible(c[j]) && r[i] == info_inicial(c[j], rs);
                assert(pre[j] == c[j]);
            } else {
                assert(pre[pre.len() - 1] == pre.last());
            }
        }
    }
}

/// Al repartir un pago, cada deuda parte de lo que ya tiene pagado su tour: lo
/// acumulado es lo pagado en la deuda más lo pagado en los pagos y pagos
/// finales del mismo tour, y lo pendiente es su total menos eso (o cero). Así
/// un tour al que le falta lo mismo que se paga queda saldado.
pub proof fn ley_acumulado_incluye_pagos_del_tour(rs: Seq<RegistroVista>)
    ensures
        forall|i: int| 0 <= i < infos_iniciales(rs, rs).len() ==> exists|j: int|
            0 <= j < rs.len() && (rs[j].tipo == "deuda"@ || rs[j].tipo == "pago_final"@) && {
                let d = #[trigger] infos_iniciales(rs, rs)[i];
                let acumulado = rs[j].monto_pagado + suma(rs, Filtro::PagosDelTour(rs[j].id_file_tour), Campo::Pagado);
                &&& d.deuda_id == rs[j].id
                &&& d.id_file_tour == rs[j].id_file_tour
                &&& d.monto_total == rs[j].monto_total
                &&& d.pagado_original == rs[j].monto_pagado
                &&& d.acumulado == acumulado
                &&& d.pendiente == if rs[j].monto_total - acumulado > 0 {
                    rs[j].monto_total - acumulado
                } else {
                    0
                }
                &&& d.entradas == rs[j].entradas
            },
{
    lema_infos_de_deudas(rs, rs);
}

} // verus!
