//! Registros de pagos de files (deudas por tour, pagos, cancelaciones, no-shows
//! y usos de saldo) y las sumas que se hacen sobre ellos.
//!
//! Los montos se expresan en céntimos de sol (enteros); la tolerancia de las
//! comparaciones de montos es de un céntimo.

use vstd::prelude::*;
use crate::texto::mismo_texto;

verus! {

/// Cota de los montos de un registro, en céntimos (diez billones de soles).
pub const MONTO_MAXIMO: i64 = 1_000_000_000_000_000;

/// Tolerancia de las comparaciones de montos: un céntimo.
pub const TOLERANCIA: i64 = 1;

/// Un registro de `pagos_files`: la deuda de un tour, un pago parcial o final,
/// una cancelación, un no-show o un uso de saldo a favor.
#[derive(Debug, Clone)]
pub struct RegistroPago {
    pub id: i32,
    pub id_file: i32,
    pub id_file_tour: Option<i32>,
    pub tipo_registro: String,
    pub estado: String,
    pub monto_total: i64,
    pub monto_pagado: i64,
    pub monto_saldo_favor: Option<i64>,
    pub saldo_autorizado: bool,
    pub entradas: bool,
    pub entrada_precio: Option<i64>,
    pub cuota: Option<i16>,
}

/// Vista de un registro de pago con sus textos como secuencias de caracteres.
pub struct RegistroVista {
    pub id: i32,
    pub id_file: i32,
    pub id_file_tour: Option<i32>,
    pub tipo: Seq<char>,
    pub estado: Seq<char>,
    pub monto_total: i64,
    pub monto_pagado: i64,
    pub monto_saldo_favor: Option<i64>,
    pub saldo_autorizado: bool,
    pub entradas: bool,
    pub entrada_precio: Option<i64>,
    pub cuota: Option<i16>,
}

impl DeepView for RegistroPago {
    type V = RegistroVista;

    open spec fn deep_view(&self) -> RegistroVista {
        RegistroVista {
            id: self.id,
            id_file: self.id_file,
            id_file_tour: self.id_file_tour,
            tipo: self.tipo_registro@,
            estado: self.estado@,
            monto_total: self.monto_total,
            monto_pagado: self.monto_pagado,
            monto_saldo_favor: self.monto_saldo_favor,
            saldo_autorizado: self.saldo_autorizado,
            entradas: self.entradas,
            entrada_precio: self.entrada_precio,
            cuota: self.cuota,
        }
    }
}

/// ¿Está `x` entre `-MONTO_MAXIMO` y `MONTO_MAXIMO`?
pub open spec fn monto_acotado(x: int) -> bool {
    -MONTO_MAXIMO <= x <= MONTO_MAXIMO
}

/// ¿Están acotados todos los montos del registro?
pub open spec fn registro_acotado(r: RegistroVista) -> bool {
    &&& monto_acotado(r.monto_total as int)
    &&& monto_acotado(r.monto_pagado as int)
    &&& (r.monto_saldo_favor matches Some(s) ==> monto_acotado(s as int))
    &&& (r.entrada_precio matches Some(e) ==> monto_acotado(e as int))
}

/// ¿Están acotados los montos de todos los registros?
pub open spec fn registros_acotados(rs: Seq<RegistroVista>) -> bool {
    forall|i: int| 0 <= i < rs.len() ==> registro_acotado(#[trigger] rs[i])
}

/// ¿Es una deuda, un pago o un pago final (los registros que suman lo pagado)?
pub open spec fn es_deuda_o_pago(t: Seq<char>) -> bool {
    t == "deuda"@ || t == "pago"@ || t == "pago_final"@
}

/// ¿Es una cancelación de file o de tour?
pub open spec fn es_cancelacion(t: Seq<char>) -> bool {
    t == "cancelacion"@ || t == "cancelacion_tour"@
}

/// ¿Es un no-show de file o de tour?
pub open spec fn es_no_show(t: Seq<char>) -> bool {
    t == "no_show"@ || t == "no_show_tour"@
}

/// ¿Es un pago o un pago final?
pub open spec fn es_pago(t: Seq<char>) -> bool {
    t == "pago"@ || t == "pago_final"@
}

/// ¿Cuenta el registro en el tablero contable? Deudas, pagos y pagos finales
/// que no están cancelados, ni en no-show, ni rechazados.
pub open spec fn es_vigente(r: RegistroVista) -> bool {
    r.estado != "cancelado"@ && r.estado != "no_show"@ && es_deuda_o_pago(r.tipo) && r.estado
        != "rechazado"@
}

/// Qué registros entran en una suma.
#[derive(Debug, Clone)]
pub enum Filtro {
    /// Las deudas por tour.
    Deudas,
    /// Las deudas por tour que no están canceladas.
    DeudasNoCanceladas,
    /// Deudas, pagos y pagos finales.
    DeudasYPagos,
    /// Pagos y pagos finales de un tour.
    PagosDelTour(Option<i32>),
    /// Deudas, pagos y pagos finales de un tour.
    DeudasYPagosDelTour(Option<i32>),
    /// Los registros que no están cancelados.
    NoCancelados,
    /// Los registros de una cuota.
    Cuota(Option<i16>),
    /// Los registros con saldo a favor autorizado.
    SaldoAutorizado,
    /// Todos los registros.
    Todos,
    /// Deudas, pagos y pagos finales vigentes (ni cancelados, ni en no-show, ni rechazados).
    Vigentes,
    /// Las deudas vigentes.
    DeudasVigentes,
    /// Deudas, pagos y pagos finales vigentes de un file.
    VigentesDelFile(i32),
    /// Las deudas vigentes de un file.
    DeudasVigentesDelFile(i32),
    /// Todos los registros de un tour.
    DelTour(i32),
    /// Las cancelaciones de file y de tour.
    Cancelaciones,
    /// Los no-shows de file y de tour.
    NoShows,
    /// Los registros que mueven el saldo a favor: cancelaciones, no-shows y usos de saldo.
    MovimientosDeSaldo,
    /// Los usos de saldo a favor.
    UsosDeSaldo,
}

/// Qué monto de cada registro se suma.
#[derive(Debug, Clone, Copy)]
pub enum Campo {
    /// El monto total.
    Total,
    /// El monto pagado.
    Pagado,
    /// El saldo a favor si lo hay; si no, el monto pagado.
    SaldoOPagado,
    /// El saldo a favor (cero si no lo hay).
    Saldo,
}

/// ¿Entra el registro en la suma con este filtro?
pub open spec fn cumple(f: Filtro, r: RegistroVista) -> bool {
    match f {
        Filtro::Deudas => r.tipo == "deuda"@,
        Filtro::DeudasNoCanceladas => r.tipo == "deuda"@ && r.estado != "cancelado"@,
        Filtro::DeudasYPagos => es_deuda_o_pago(r.tipo),
        Filtro::PagosDelTour(t) => es_pago(r.tipo) && r.id_file_tour == t,
        Filtro::DeudasYPagosDelTour(t) => es_deuda_o_pago(r.tipo) && r.id_file_tour == t,
        Filtro::NoCancelados => r.estado != "cancelado"@,
        Filtro::Cuota(c) => r.cuota == c,
        Filtro::SaldoAutorizado => r.saldo_autorizado,
        Filtro::Todos => true,
        Filtro::Vigentes => es_vigente(r),
        Filtro::DeudasVigentes => es_vigente(r) && r.tipo == "deuda"@,
        Filtro::VigentesDelFile(f) => es_vigente(r) && r.id_file == f,
        Filtro::DeudasVigentesDelFile(f) => es_vigente(r) && r.tipo == "deuda"@ && r.id_file == f,
        Filtro::DelTour(t) => r.id_file_tour == Some(t),
        Filtro::Cancelaciones => es_cancelacion(r.tipo),
        Filtro::NoShows => es_no_show(r.tipo),
        Filtro::MovimientosDeSaldo => es_cancelacion(r.tipo) || es_no_show(r.tipo) || r.tipo == "uso_saldo"@,
        Filtro::UsosDeSaldo => r.tipo == "uso_saldo"@,
    }
}

/// El monto del registro que se suma.
pub open spec fn valor(c: Campo, r: RegistroVista) -> int {
    match c {
        Campo::Total => r.monto_total as int,
        Campo::Pagado => r.monto_pagado as int,
        Campo::SaldoOPagado => match r.monto_saldo_favor {
            Some(s) => s as int,
            None => r.monto_pagado as int,
        },
        Campo::Saldo => match r.monto_saldo_favor {
            Some(s) => s as int,
            None => 0,
        },
    }
}

/// Suma del campo `c` de los registros que cumplen el filtro `f`.
pub open spec fn suma(rs: Seq<RegistroVista>, f: Filtro, c: Campo) -> int
    decreases rs.len(),
{
    if rs.len() == 0 {
        0
    } else {
        suma(rs.drop_last(), f, c) + if cumple(f, rs.last()) {
            valor(c, rs.last())
        } else {
            0
        }
    }
}

/// La suma de `n` registros acotados está acotada por `n` veces la cota.
pub proof fn lema_suma_acotada(rs: Seq<RegistroVista>, f: Filtro, c: Campo)
    requires
        registros_acotados(rs),
    ensures
        -(rs.len() * MONTO_MAXIMO) <= suma(rs, f, c) <= rs.len() * MONTO_MAXIMO,
    decreases rs.len(),
{
    if rs.len() > 0 {
        let pre = rs.drop_last();
        assert forall|i: int| 0 <= i < pre.len() implies registro_acotado(#[trigger] pre[i]) by {
            assert(pre[i] == rs[i]);
        }
        lema_suma_acotada(pre, f, c);
        assert(registro_acotado(rs[rs.len() - 1]));
        assert(pre.len() * MONTO_MAXIMO + MONTO_MAXIMO == rs.len() * MONTO_MAXIMO) by (nonlinear_arith)
            requires pre.len() + 1 == rs.len();
    }
}

/// ¿Entra el registro en la suma con este filtro?
pub fn cumple_filtro(f: &Filtro, r: &RegistroPago) -> (b: bool)
    ensures
        b == cumple(*f, r.deep_view()),
{
    let t = r.tipo_registro.as_str();
    match f {
        Filtro::Deudas => mismo_texto(t, "deuda"),
        Filtro::DeudasNoCanceladas => mismo_texto(t, "deuda") && !mismo_texto(r.estado.as_str(), "cancelado"),
        Filtro::DeudasYPagos => mismo_texto(t, "deuda") || mismo_texto(t, "pago") || mismo_texto(t, "pago_final"),
        Filtro::PagosDelTour(tour) => (mismo_texto(t, "pago") || mismo_texto(t, "pago_final"))
            && r.id_file_tour == *tour,
        Filtro::DeudasYPagosDelTour(tour) => (mismo_texto(t, "deuda") || mismo_texto(t, "pago")
            || mismo_texto(t, "pago_final")) && r.id_file_tour == *tour,
        Filtro::NoCancelados => !mismo_texto(r.estado.as_str(), "cancelado"),
        Filtro::Cuota(c) => r.cuota == *c,
        Filtro::SaldoAutorizado => r.saldo_autorizado,
        Filtro::Todos => true,
        Filtro::Vigentes => registro_vigente(r),
        Filtro::DeudasVigentes => registro_vigente(r) && mismo_texto(t, "deuda"),
        Filtro::VigentesDelFile(f) => registro_vigente(r) && r.id_file == *f,
        Filtro::DeudasVigentesDelFile(f) => registro_vigente(r) && mismo_texto(t, "deuda") && r.id_file == *f,
        Filtro::DelTour(tour) => r.id_file_tour == Some(*tour),
        Filtro::Cancelaciones => mismo_texto(t, "cancelacion") || mismo_texto(t, "cancelacion_tour"),
        Filtro::NoShows => mismo_texto(t, "no_show") || mismo_texto(t, "no_show_tour"),
        Filtro::MovimientosDeSaldo => mismo_texto(t, "cancelacion") || mismo_texto(t, "cancelacion_tour")
            || mismo_texto(t, "no_show") || mismo_texto(t, "no_show_tour") || mismo_texto(t, "uso_saldo"),
        Filtro::UsosDeSaldo => mismo_texto(t, "uso_saldo"),
    }
}

/// ¿Cuenta el registro en el tablero contable?
pub fn registro_vigente(r: &RegistroPago) -> (b: bool)
    ensures
        b == es_vigente(r.deep_view()),
{
    let t = r.tipo_registro.as_str();
    let e = r.estado.as_str();
    !mismo_texto(e, "cancelado") && !mismo_texto(e, "no_show") && (mismo_texto(t, "deuda")
        || mismo_texto(t, "pago") || mismo_texto(t, "pago_final")) && !mismo_texto(e, "rechazado")
}



/// El monto del registro que se suma.
pub fn valor_campo(c: Campo, r: &RegistroPago) -> (v: i64)
    ensures
        v == valor(c, r.deep_view()),
{
    match c {
        Campo::Total => r.monto_total,
        Campo::Pagado => r.monto_pagado,
        Campo::SaldoOPagado => match r.monto_saldo_favor {
            Some(s) => s,
            None => r.monto_pagado,
        },
        Campo::Saldo => match r.monto_saldo_favor {
            Some(s) => s,
            None => 0,
        },
    }
}

/// Suma del campo `c` de los registros que cumplen el filtro `f`.
pub fn sumar(rs: &Vec<RegistroPago>, f: &Filtro, c: Campo) -> (s: i128)
    requires
        registros_acotados(rs.deep_view()),
    ensures
        s == suma(rs.deep_view(), *f, c),
        -(rs.len() * MONTO_MAXIMO) <= s <= rs.len() * MONTO_MAXIMO,
{
    let ghost dv = rs.deep_view();
    let mut s: i128 = 0;
    let mut i: usize = 0;
    while i < rs.len()
        invariant
            i <= rs.len(),
            dv == rs.deep_view(),
            dv.len() == rs.len(),
            registros_acotados(dv),
            s == suma(dv.take(i as int), *f, c),
        decreases rs.len() - i,
    {
        let ghost pre = dv.take(i as int);
        assert(dv.take(i as int + 1).drop_last() == pre);
        assert(dv[i as int] == rs@[i as int].deep_view());
        assert forall|j: int| 0 <= j < dv.take(i as int + 1).len() implies registro_acotado(
            #[trigger] dv.take(i as int + 1)[j],
        ) by {
            assert(dv.take(i as int + 1)[j] == dv[j]);
        }
        proof {
            lema_suma_acotada(dv.take(i as int + 1), *f, c);
            assert((i as int + 1) * MONTO_MAXIMO <= 18446744073709551616 * MONTO_MAXIMO) by (nonlinear_arith)
                requires i as int + 1 <= 18446744073709551616;
        }
        if cumple_filtro(f, &rs[i]) {
            s = s + valor_campo(c, &rs[i]) as i128;
        }
        i = i + 1;
    }
    assert(dv.take(rs.len() as int) == dv);
    proof {
        lema_suma_acotada(dv, *f, c);
    }
    s
}


// ===================== Anulación de registros =====================

/// La anulación de un registro de pago al cancelar su tour o su file: lo
/// pagado, si es positivo, pasa a saldo a favor autorizado.
#[derive(Debug, Clone, Copy, PartialEq, Eq, Structural)]
pub struct Anulacion {
    pub id_pago: i32,
    /// El saldo a favor que genera: lo pagado, si es positivo.
    pub saldo_a_favor: Option<i64>,
}

/// La anulación de un registro.
pub open spec fn anulacion_de(r: RegistroVista) -> Anulacion {
    Anulacion {
        id_pago: r.id,
        saldo_a_favor: if r.monto_pagado > 0 {
            Some(r.monto_pagado)
        } else {
            None
        },
    }
}

/// Las anulaciones de los registros (entre los `n` primeros) que cumplen el
/// filtro, en su orden.
pub open spec fn anulaciones(rs: Seq<RegistroVista>, f: Filtro, n: int) -> Seq<Anulacion>
    decreases n,
{
    if n <= 0 {
        Seq::empty()
    } else {
        let pre = anulaciones(rs, f, n - 1);
        if cumple(f, rs[n - 1]) {
            pre.push(anulacion_de(rs[n - 1]))
        } else {
            pre
        }
    }
}

/// Anula los registros que cumplen el filtro: cada uno da su saldo a favor.
pub fn anular_registros(rs: &Vec<RegistroPago>, f: &Filtro) -> (r: Vec<Anulacion>)
    ensures
        r@ == anulaciones(rs.deep_view(), *f, rs.len() as int),
{
    let ghost dv = rs.deep_view();
    let mut r: Vec<Anulacion> = Vec::new();
    let mut i: usize = 0;
    while i < rs.len()
        invariant
            i <= rs.len(),
            dv == rs.deep_view(),
            dv.len() == rs.len(),
            r@ == anulaciones(dv, *f, i as int),
        decreases rs.len() - i,
    {
        assert(dv[i as int] == rs@[i as int].deep_view());
        if cumple_filtro(f, &rs[i]) {
            let p = rs[i].monto_pagado;
            r.push(Anulacion { id_pago: rs[i].id, saldo_a_favor: if p > 0 { Some(p) } else { None } });
        }
        i = i + 1;
    }
    r
}


/// Los ids de los registros (entre los `n` primeros) que cumplen el filtro.
pub open spec fn ids_que_cumplen(rs: Seq<RegistroVista>, f: Filtro, n: int) -> Seq<i32>
    decreases n,
{
    if n <= 0 {
        Seq::empty()
    } else {
        let pre = ids_que_cumplen(rs, f, n - 1);
        if cumple(f, rs[n - 1]) {
            pre.push(rs[n - 1].id)
        } else {
            pre
        }
    }
}

/// Los ids de los registros que cumplen el filtro, en su orden.
pub fn seleccionar_ids(rs: &Vec<RegistroPago>, f: &Filtro) -> (r: Vec<i32>)
    ensures
        r@ == ids_que_cumplen(rs.deep_view(), *f, rs.len() as int),
{
    let ghost dv = rs.deep_view();
    let mut r: Vec<i32> = Vec::new();
    let mut i: usize = 0;
    while i < rs.len()
        invariant
            i <= rs.len(),
            dv == rs.deep_view(),
            dv.len() == rs.len(),
            r@ == ids_que_cumplen(dv, *f, i as int),
        decreases rs.len() - i,
    {
        assert(dv[i as int] == rs@[i as int].deep_view());
        if cumple_filtro(f, &rs[i]) {
            r.push(rs[i].id);
        }
        i = i + 1;
    }
    r
}

/// Las posiciones de los registros que cumplen el filtro, en su orden, y
/// a lo más las `limite` primeras si hay límite.
pub open spec fn posiciones_que_cumplen(rs: Seq<RegistroVista>, f: Filtro, n: int) -> Seq<int>
    decreases n,
{
    if n <= 0 {
        Seq::empty()
    } else {
        let pre = posiciones_que_cumplen(rs, f, n - 1);
        if cumple(f, rs[n - 1]) {
            pre.push(n - 1)
        } else {
            pre
        }
    }
}

/// Las posiciones de los registros que cumplen el filtro, en su orden; con
/// límite, solo las primeras `limite`.
pub fn seleccionar_posiciones(rs: &Vec<RegistroPago>, f: &Filtro, limite: Option<usize>) -> (r: Vec<usize>)
    ensures
        ({
            let todas = posiciones_que_cumplen(rs.deep_view(), *f, rs.len() as int);
            r@.map_values(|p: usize| p as int) == match limite {
                Some(l) => if l < todas.len() { todas.take(l as int) } else { todas },
                None => todas,
            }
        }),
{
    let ghost dv = rs.deep_view();
    let mut r: Vec<usize> = Vec::new();
    let mut i: usize = 0;
    while i < rs.len()
        invariant
            i <= rs.len(),
            dv == rs.deep_view(),
            dv.len() == rs.len(),
            r@.map_values(|p: usize| p as int) == posiciones_que_cumplen(dv, *f, i as int),
        decreases rs.len() - i,
    {
        assert(dv[i as int] == rs@[i as int].deep_view());
        if cumple_filtro(f, &rs[i]) {
            let ghost antes = r@;
            r.push(i);
            assert(r@.map_values(|p: usize| p as int) == antes.map_values(|p: usize| p as int).push(i as int));
        }
        i = i + 1;
    }
    match limite {
        Some(l) => if l < r.len() {
            let ghost todas = r@;
            r.truncate(l);
            assert(r@.map_values(|p: usize| p as int) == todas.map_values(|p: usize| p as int).take(l as int));
        },
        None => {},
    }
    r
}

/// Los tipos de registro que cumple un filtro por tipo, para pedirlos al
/// repositorio (`None` si el filtro no es solo por tipo).
pub fn tipos_del_filtro(f: &Filtro) -> (r: Option<Vec<&'static str>>)
    ensures
        match *f {
            Filtro::Cancelaciones | Filtro::NoShows | Filtro::MovimientosDeSaldo | Filtro::UsosDeSaldo => r is Some,
            _ => r is None,
        },
        r matches Some(v) ==> forall|rv: RegistroVista|
            #![trigger cumple(*f, rv)]
            cumple(*f, rv) <==> v@.map_values(|s: &str| s@).contains(rv.tipo),
{
    proof {
        reveal_strlit("cancelacion");
        reveal_strlit("cancelacion_tour");
        reveal_strlit("no_show");
        reveal_strlit("no_show_tour");
        reveal_strlit("uso_saldo");
    }
    match f {
        Filtro::Cancelaciones => {
            let v = vec!["cancelacion", "cancelacion_tour"];
            let ghost m = v@.map_values(|s: &str| s@);
            assert(m =~= seq!["cancelacion"@, "cancelacion_tour"@]);
            assert forall|rv: RegistroVista| #![trigger cumple(*f, rv)] cumple(*f, rv) <==> m.contains(rv.tipo) by {
                if cumple(*f, rv) {
                    if rv.tipo == "cancelacion"@ {
                        assert(m[0] == rv.tipo);
                    } else {
                        assert(m[1] == rv.tipo);
                    }
                }
            }
            Some(v)
        },
        Filtro::NoShows => {
            let v = vec!["no_show", "no_show_tour"];
            let ghost m = v@.map_values(|s: &str| s@);
            assert(m =~= seq!["no_show"@, "no_show_tour"@]);
            assert forall|rv: RegistroVista| #![trigger cumple(*f, rv)] cumple(*f, rv) <==> m.contains(rv.tipo) by {
                if cumple(*f, rv) {
                    if rv.tipo == "no_show"@ {
                        assert(m[0] == rv.tipo);
                    } else {
                        assert(m[1] == rv.tipo);
                    }
                }
            }
            Some(v)
        },
        Filtro::MovimientosDeSaldo => {
            let v = vec!["cancelacion", "cancelacion_tour", "no_show", "no_show_tour", "uso_saldo"];
            let ghost m = v@.map_values(|s: &str| s@);
            assert(m =~= seq!["cancelacion"@, "cancelacion_tour"@, "no_show"@, "no_show_tour"@, "uso_saldo"@]);
            assert forall|rv: RegistroVista| #![trigger cumple(*f, rv)] cumple(*f, rv) <==> m.contains(rv.tipo) by {
                if cumple(*f, rv) {
                    if rv.tipo == "cancelacion"@ {
                        assert(m[0] == rv.tipo);
                    } else if rv.tipo == "cancelacion_tour"@ {
                        assert(m[1] == rv.tipo);
                    } else if rv.tipo == "no_show"@ {
                        assert(m[2] == rv.tipo);
                    } else if rv.tipo == "no_show_tour"@ {
                        assert(m[3] == rv.tipo);
                    } else {
                        assert(m[4] == rv.tipo);
                    }
                }
            }
            Some(v)
        },
        Filtro::UsosDeSaldo => {
            let v = vec!["uso_saldo"];
            let ghost m = v@.map_values(|s: &str| s@);
            assert(m =~= seq!["uso_saldo"@]);
            assert forall|rv: RegistroVista| #![trigger cumple(*f, rv)] cumple(*f, rv) <==> m.contains(rv.tipo) by {
                if cumple(*f, rv) {
                    assert(m[0] == rv.tipo);
                }
            }
            Some(v)
        },
        _ => None,
    }
}

} // verus!
