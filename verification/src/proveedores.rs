//! Pagos a proveedores (transportes, restaurantes, guías, entradas): cuándo
//! se da de alta uno al asignar un servicio y cómo se marca como pagado,
//! repartiendo lo pagado de más entre los otros pagos del mismo proveedor,
//! tour y fecha.

use vstd::prelude::*;
use crate::contabilidad::{marcar_pago_proveedor, PagoYaPagado};
use crate::fechas::Fecha;
use crate::pagos::MONTO_MAXIMO;
use crate::texto::{mismo_texto, texto};

verus! {

/// Qué hacer al asignar un servicio que se paga a un proveedor.
#[derive(Debug, Clone)]
pub enum AltaPagoProveedor {
    /// Ya hay un pago para esa asignación: se usa ese.
    Existente(i32),
    /// Se crea uno nuevo, en ese estado y por ese monto total.
    Nuevo { estado: String, monto_total: i64 },
}

/// El pago a proveedor de una asignación: el que ya existe para ella si lo
/// hay; si no, uno nuevo "pendiente" por el monto indicado, o cero.
pub fn alta_de_pago_proveedor(existente: Option<i32>, monto_total: Option<i64>) -> (r: AltaPagoProveedor)
    ensures
        match existente {
            Some(id) => r matches AltaPagoProveedor::Existente(x) && x == id,
            None => r matches AltaPagoProveedor::Nuevo { estado, monto_total: m } && estado@ == "pendiente"@
                && m == match monto_total {
                Some(t) => t,
                None => 0,
            },
        },
{
    proof {
        reveal_strlit("pendiente");
    }
    match existente {
        Some(id) => AltaPagoProveedor::Existente(id),
        None => AltaPagoProveedor::Nuevo {
            estado: texto("pendiente"),
            monto_total: match monto_total {
                Some(t) => t,
                None => 0,
            },
        },
    }
}

/// Un pago a proveedor (montos en céntimos).
#[derive(Debug, Clone)]
pub struct PagoProveedor {
    pub id: i32,
    pub tipo_proveedor: String,
    pub id_tour: Option<i32>,
    pub fecha_tour: Option<Fecha>,
    pub estado: String,
    pub monto_total: i64,
    pub monto_pagado: i64,
}

/// Vista de un pago a proveedor con sus textos como secuencias.
pub struct PagoProveedorV {
    pub id: i32,
    pub tipo: Seq<char>,
    pub id_tour: Option<i32>,
    pub fecha_tour: Option<Fecha>,
    pub estado: Seq<char>,
    pub monto_total: int,
    pub monto_pagado: int,
}

impl View for PagoProveedor {
    type V = PagoProveedorV;

    open spec fn view(&self) -> PagoProveedorV {
        PagoProveedorV {
            id: self.id,
            tipo: self.tipo_proveedor@,
            id_tour: self.id_tour,
            fecha_tour: self.fecha_tour,
            estado: self.estado@,
            monto_total: self.monto_total as int,
            monto_pagado: self.monto_pagado as int,
        }
    }
}

/// ¿Están los montos del pago dentro de la cota?
pub open spec fn pago_proveedor_acotado(p: PagoProveedorV) -> bool {
    -MONTO_MAXIMO <= p.monto_total <= MONTO_MAXIMO && -MONTO_MAXIMO <= p.monto_pagado <= MONTO_MAXIMO
}

/// ¿Recibe `otro` parte de lo pagado de más en `marcado`? Es otro pago, del
/// mismo tipo de proveedor, tour y fecha, y aún no está pagado.
pub open spec fn recibe_excedente(marcado: PagoProveedorV, otro: PagoProveedorV) -> bool {
    &&& otro.id != marcado.id
    &&& otro.tipo == marcado.tipo
    &&& otro.id_tour == marcado.id_tour
    &&& otro.fecha_tour == marcado.fecha_tour
    &&& otro.estado != "pagado"@
}

/// Lo que le falta a un pago: su total menos lo pagado, o cero.
pub open spec fn falta(p: PagoProveedorV) -> int {
    if p.monto_total - p.monto_pagado > 0 {
        p.monto_total - p.monto_pagado
    } else {
        0
    }
}

/// Reparte `resto` entre los pagos `otros`, en su orden: cada uno que recibe
/// excedente toma lo que le falta, hasta agotar el resto. Da los abonos (id
/// del pago y monto abonado, solo los positivos) y lo que sobra.
pub open spec fn repartir_excedente(marcado: PagoProveedorV, otros: Seq<PagoProveedorV>, resto: int) -> (
    Seq<(i32, int)>,
    int,
)
    decreases otros.len(),
{
    if otros.len() == 0 || resto <= 0 {
        (Seq::empty(), resto)
    } else {
        let p = otros[0];
        let a = if recibe_excedente(marcado, p) {
            if resto <= falta(p) {
                resto
            } else {
                falta(p)
            }
        } else {
            0
        };
        let siguiente = repartir_excedente(marcado, otros.drop_first(), resto - a);
        (if a > 0 {
            seq![(p.id, a)] + siguiente.0
        } else {
            siguiente.0
        }, siguiente.1)
    }
}

/// La suma de los abonos.
pub open spec fn suma_abonos(abonos: Seq<(i32, int)>) -> int
    decreases abonos.len(),
{
    if abonos.len() == 0 {
        0
    } else {
        abonos[0].1 + suma_abonos(abonos.drop_first())
    }
}

/// Un abono a otro pago a proveedor: cuánto recibe y cuánto queda pagado.
#[derive(Debug, Clone, Copy)]
pub struct AbonoProveedor {
    pub id: i32,
    pub abono: i64,
    pub nuevo_monto_pagado: i64,
}

/// Lo que se escribe al marcar un pago a proveedor como pagado.
#[derive(Debug, Clone)]
pub struct PlanPagoProveedor {
    /// Lo pagado que se guarda en el pago marcado.
    pub monto_pagado: i64,
    /// Lo pagado de más: lo pagado menos lo que ya tenía pagado, o cero.
    pub excedente: i64,
    /// Los abonos del excedente a los otros pagos, en su orden.
    pub abonos: Vec<AbonoProveedor>,
    /// Lo que del excedente no le faltaba a ningún otro pago.
    pub sobrante: i64,
}

/// Lo pagado de más al marcar un pago con `m`.
pub open spec fn excedente_de(marcado: PagoProveedorV, m: int) -> int {
    if m - marcado.monto_pagado > 0 {
        m - marcado.monto_pagado
    } else {
        0
    }
}

/// ¿Recibe el pago parte del excedente? (versión ejecutable)
fn recibe(marcado: &PagoProveedor, otro: &PagoProveedor) -> (r: bool)
    ensures
        r == recibe_excedente(marcado@, otro@),
{
    let misma_fecha = match (marcado.fecha_tour, otro.fecha_tour) {
        (Some(a), Some(b)) => a == b,
        (None, None) => true,
        _ => false,
    };
    otro.id != marcado.id && mismo_texto(otro.tipo_proveedor.as_str(), marcado.tipo_proveedor.as_str())
        && otro.id_tour == marcado.id_tour && misma_fecha && !mismo_texto(otro.estado.as_str(), "pagado")
}

/// Marca como pagado el pago `marcado`: se rechaza si ya lo estaba; lo pagado
/// es el monto pagado del pedido, o su monto, o el monto total del pago. Lo
/// pagado de más que antes se reparte, en orden, entre los `otros` pagos del
/// mismo tipo de proveedor, tour y fecha que no están pagados, cada uno hasta
/// lo que le falta.
pub fn planificar_pago_proveedor(
    marcado: &PagoProveedor,
    monto_pedido: Option<i64>,
    monto_pagado_pedido: Option<i64>,
    otros: &Vec<PagoProveedor>,
) -> (r: Result<PlanPagoProveedor, PagoYaPagado>)
    requires
        pago_proveedor_acotado(marcado@),
        monto_pedido matches Some(m) ==> -MONTO_MAXIMO <= m <= MONTO_MAXIMO,
        monto_pagado_pedido matches Some(m) ==> -MONTO_MAXIMO <= m <= MONTO_MAXIMO,
        forall|i: int| 0 <= i < otros@.len() ==> pago_proveedor_acotado(#[trigger] otros@[i]@),
    ensures
        marcado.estado@ == "pagado"@ ==> r is Err,
        marcado.estado@ != "pagado"@ ==> r is Ok && ({
            let plan = r->Ok_0;
            let m = match monto_pagado_pedido {
                Some(x) => x as int,
                None => match monto_pedido {
                    Some(x) => x as int,
                    None => marcado.monto_total as int,
                },
            };
            let e = excedente_de(marcado@, m);
            let rep = repartir_excedente(marcado@, otros@.map_values(|p: PagoProveedor| p@), e);
            &&& plan.monto_pagado == m
            &&& plan.excedente == e
            &&& plan.abonos@.map_values(|a: AbonoProveedor| (a.id, a.abono as int)) == rep.0
            &&& plan.sobrante == rep.1
            &&& forall|k: int| 0 <= k < plan.abonos@.len() ==> exists|i: int| 0 <= i < otros@.len()
                && otros@[i].id == #[trigger] plan.abonos@[k].id
                && plan.abonos@[k].nuevo_monto_pagado == otros@[i].monto_pagado + plan.abonos@[k].abono
        }),
{
    let m = match marcar_pago_proveedor(
        marcado.estado.as_str(),
        marcado.monto_total,
        monto_pedido,
        monto_pagado_pedido,
    ) {
        Ok(m) => m,
        Err(e) => return Err(e),
    };
    let excedente: i64 = if m - marcado.monto_pagado > 0 {
        m - marcado.monto_pagado
    } else {
        0
    };
    let ghost vs = otros@.map_values(|p: PagoProveedor| p@);
    let ghost total = repartir_excedente(marcado@, vs, excedente as int);
    let mut abonos: Vec<AbonoProveedor> = Vec::new();
    let mut resto: i64 = excedente;
    let mut j: usize = 0;
    assert(vs.skip(0) == vs);
    while j < otros.len() && resto > 0
        invariant
            j <= otros@.len(),
            vs == otros@.map_values(|p: PagoProveedor| p@),
            forall|i: int| 0 <= i < otros@.len() ==> pago_proveedor_acotado(#[trigger] otros@[i]@),
            0 <= excedente <= 2 * MONTO_MAXIMO,
            0 <= resto <= excedente,
            ({
                let r = repartir_excedente(marcado@, vs.skip(j as int), resto as int);
                &&& abonos@.map_values(|a: AbonoProveedor| (a.id, a.abono as int)) + r.0 == total.0
                &&& r.1 == total.1
            }),
            forall|k: int| 0 <= k < abonos@.len() ==> exists|i: int| 0 <= i < otros@.len()
                && otros@[i].id == #[trigger] abonos@[k].id
                && abonos@[k].nuevo_monto_pagado == otros@[i].monto_pagado + abonos@[k].abono,
        decreases otros@.len() - j,
    {
        assert(vs.skip(j as int).drop_first() == vs.skip(j as int + 1));
        assert(vs.skip(j as int)[0] == otros@[j as int]@);
        let p = &otros[j];
        assert(pago_proveedor_acotado(otros@[j as int]@));
        let falta_p: i64 = if p.monto_total - p.monto_pagado > 0 {
            p.monto_total - p.monto_pagado
        } else {
            0
        };
        let a: i64 = if recibe(marcado, p) {
            if resto <= falta_p {
                resto
            } else {
                falta_p
            }
        } else {
            0
        };
        if a > 0 {
            let ghost antes = abonos@;
            let nuevo = AbonoProveedor { id: p.id, abono: a, nuevo_monto_pagado: p.monto_pagado + a };
            abonos.push(nuevo);
            assert(abonos@.map_values(|x: AbonoProveedor| (x.id, x.abono as int)) == antes.map_values(
                |x: AbonoProveedor| (x.id, x.abono as int),
            ).push((p.id, a as int)));
            assert forall|k: int| 0 <= k < abonos@.len() implies exists|i: int| 0 <= i < otros@.len()
                && otros@[i].id == #[trigger] abonos@[k].id
                && abonos@[k].nuevo_monto_pagado == otros@[i].monto_pagado + abonos@[k].abono by {
                if k == abonos@.len() - 1 {
                    assert(otros@[j as int].id == abonos@[k].id);
                } else {
                    assert(abonos@[k] == antes[k]);
                }
            }
        }
        resto = resto - a;
        j = j + 1;
    }
    proof {
        let r = repartir_excedente(marcado@, vs.skip(j as int), resto as int);
        if j >= otros@.len() {
            assert(vs.skip(j as int).len() == 0);
        }
        assert(r.0 == Seq::<(i32, int)>::empty());
        assert(abonos@.map_values(|a: AbonoProveedor| (a.id, a.abono as int)) + r.0 == abonos@.map_values(
            |a: AbonoProveedor| (a.id, a.abono as int),
        ));
    }
    Ok(PlanPagoProveedor { monto_pagado: m, excedente, abonos, sobrante: resto })
}

/// Repartir lo pagado de más no crea ni pierde dinero: los abonos más lo que
/// sobra suman exactamente el excedente; lo que sobra está entre cero y el
/// excedente, y ningún pago recibe más de lo que le falta ni nada si no le
/// corresponde.
pub proof fn ley_excedente_sin_perdida(marcado: PagoProveedorV, otros: Seq<PagoProveedorV>, resto: int)
    requires
        resto >= 0,
    ensures
        ({
            let r = repartir_excedente(marcado, otros, resto);
            &&& suma_abonos(r.0) + r.1 == resto
            &&& 0 <= r.1 <= resto
            &&& forall|k: int| 0 <= k < r.0.len() ==> #[trigger] r.0[k].1 > 0 && exists|i: int|
                0 <= i < otros.len() && otros[i].id == r.0[k].0 && recibe_excedente(marcado, otros[i])
                && r.0[k].1 <= falta(otros[i])
        }),
    decreases otros.len(),
{
    if otros.len() == 0 || resto <= 0 {
    } else {
        let p = otros[0];
        let a = if recibe_excedente(marcado, p) {
            if resto <= falta(p) {
                resto
            } else {
                falta(p)
            }
        } else {
            0
        };
        let cola = otros.drop_first();
        ley_excedente_sin_perdida(marcado, cola, resto - a);
        let s = repartir_excedente(marcado, cola, resto - a);
        let r = repartir_excedente(marcado, otros, resto);
        if a > 0 {
            assert(r.0 == seq![(p.id, a)] + s.0);
            assert((seq![(p.id, a)] + s.0).drop_first() == s.0);
            assert forall|k: int| 0 <= k < r.0.len() implies #[trigger] r.0[k].1 > 0 && exists|i: int|
                0 <= i < otros.len() && otros[i].id == r.0[k].0 && recibe_excedente(marcado, otros[i])
                && r.0[k].1 <= falta(otros[i]) by {
                if k == 0 {
                    assert(otros[0].id == r.0[0].0);
                } else {
                    assert(r.0[k] == s.0[k - 1]);
                    let i = choose|i: int|
                        0 <= i < cola.len() && cola[i].id == s.0[k - 1].0 && recibe_excedente(marcado, cola[i])
                            && s.0[k - 1].1 <= falta(cola[i]);
                    assert(otros[i + 1] == cola[i]);
                }
            }
        } else {
            assert forall|k: int| 0 <= k < r.0.len() implies #[trigger] r.0[k].1 > 0 && exists|i: int|
                0 <= i < otros.len() && otros[i].id == r.0[k].0 && recibe_excedente(marcado, otros[i])
                && r.0[k].1 <= falta(otros[i]) by {
                assert(r.0[k] == s.0[k]);
                let i = choose|i: int|
                    0 <= i < cola.len() && cola[i].id == s.0[k].0 && recibe_excedente(marcado, cola[i])
                        && s.0[k].1 <= falta(cola[i]);
                assert(otros[i + 1] == cola[i]);
            }
        }
    }
}

} // verus!
