//! Edición de un file con sus servicios: qué tours se cancelan, cuáles se
//! actualizan y cuáles se crean; qué pasa con el restaurante, las entradas,
//! los vehículos y los guías de cada tour; el nuevo precio del tour y lo que
//! cambia en sus registros de pago.
//!
//! Las decisiones se toman aquí sobre los datos ya leídos; quien llama hace
//! las lecturas y escrituras en la base de datos.

use vstd::prelude::*;
use crate::pagos::{RegistroPago, RegistroVista, MONTO_MAXIMO, monto_acotado};
use crate::estados::{es_no_editable, es_estado_no_editable};
use crate::texto::{mismo_texto, texto, unir, i64_a_texto, texto_entero};
use crate::contabilidad::{primera_deuda_del_tour, buscar_primera_deuda};
use crate::fechas::Fecha;
use crate::lectura::{Hora, fecha_de_pedido, hora_de_pedido, spec_fecha_de_pedido, spec_hora_de_pedido};

verus! {

// ===================== Tours que no se pueden editar =====================

/// Un tour del pedido que ya existe, con su status actual.
#[derive(Debug, Clone)]
pub struct TourAEditar {
    pub id: i32,
    pub status: String,
}

/// Por qué se rechaza una edición.
#[derive(Debug, Clone)]
pub enum ErrorEdicion {
    /// El tour tiene un status (asignado, en curso o completado) que impide editarlo.
    TourNoEditable { id: i32, status: String },
}

/// El texto del rechazo de un tour no editable.
pub open spec fn mensaje_no_editable(id: int, status: Seq<char>) -> Seq<char> {
    "Tour "@ + texto_entero(id) + " no puede ser modificado porque tiene status '"@ + status + "'"@
}

impl ErrorEdicion {
    /// El mensaje del error.
    pub fn mensaje(&self) -> (r: String)
        ensures
            match self {
                ErrorEdicion::TourNoEditable { id, status } => r@ == mensaje_no_editable(*id as int, status@),
            },
    {
        match self {
            ErrorEdicion::TourNoEditable { id, status } => {
                let r = texto("Tour ");
                let r = unir(r, i64_a_texto(*id as i64).as_str());
                let r = unir(r, " no puede ser modificado porque tiene status '");
                let r = unir(r, status.as_str());
                let r = unir(r, "'");
                proof {
                    reveal_strlit("Tour ");
                    reveal_strlit(" no puede ser modificado porque tiene status '");
                    reveal_strlit("'");
                }
                r
            },
        }
    }
}

/// El primer tour no editable de la lista, si lo hay.
pub open spec fn primer_no_editable(tours: Seq<(i32, Seq<char>)>) -> Option<int>
    decreases tours.len(),
{
    if tours.len() == 0 {
        None
    } else {
        match primer_no_editable(tours.drop_last()) {
            Some(i) => Some(i),
            None => if es_no_editable(tours.last().1) {
                Some(tours.len() - 1)
            } else {
                None
            },
        }
    }
}

/// Vista de los tours a editar: (id, status).
pub open spec fn vista_tours(tours: Seq<TourAEditar>) -> Seq<(i32, Seq<char>)> {
    tours.map_values(|t: TourAEditar| (t.id, t.status@))
}

/// Ningún tour del pedido puede tener un status que impida editarlo: el
/// primero que lo tenga, en el orden del pedido, hace rechazar la edición.
pub fn validar_tours_editables(tours: &Vec<TourAEditar>) -> (r: Result<(), ErrorEdicion>)
    ensures
        match primer_no_editable(vista_tours(tours@)) {
            None => r is Ok,
            Some(i) => r matches Err(ErrorEdicion::TourNoEditable { id, status })
                && id == tours@[i].id && status@ == tours@[i].status@,
        },
{
    let ghost v = vista_tours(tours@);
    let mut i: usize = 0;
    while i < tours.len()
        invariant
            i <= tours.len(),
            v == vista_tours(tours@),
            primer_no_editable(v.take(i as int)) is None,
        decreases tours.len() - i,
    {
        assert(v.take(i as int + 1).drop_last() == v.take(i as int));
        assert(v[i as int] == (tours@[i as int].id, tours@[i as int].status@));
        if es_estado_no_editable(tours[i].status.as_str()) {
            assert(primer_no_editable(v.take(i as int + 1)) == Some(i as int));
            proof {
                lema_primer_no_editable_prefijo(v, i as int + 1);
            }
            return Err(ErrorEdicion::TourNoEditable { id: tours[i].id, status: tours[i].status.clone() });
        }
        i = i + 1;
    }
    assert(v.take(tours.len() as int) == v);
    Ok(())
}

/// Si un prefijo ya tiene un tour no editable, la lista entera tiene el mismo primero.
proof fn lema_primer_no_editable_prefijo(v: Seq<(i32, Seq<char>)>, n: int)
    requires
        0 <= n <= v.len(),
        primer_no_editable(v.take(n)) is Some,
    ensures
        primer_no_editable(v) == primer_no_editable(v.take(n)),
    decreases v.len() - n,
{
    if n < v.len() {
        assert(v.take(n + 1).drop_last() == v.take(n));
        lema_primer_no_editable_prefijo(v, n + 1);
    } else {
        assert(v.take(n) == v);
    }
}


// ===================== Diferencia entre los tours del file y los del pedido =====================

/// La primera posición de `x` en `s`, si está.
pub open spec fn posicion(s: Seq<i32>, x: i32) -> Option<int>
    decreases s.len(),
{
    if s.len() == 0 {
        None
    } else {
        match posicion(s.drop_last(), x) {
            Some(i) => Some(i),
            None => if s.last() == x {
                Some(s.len() - 1)
            } else {
                None
            },
        }
    }
}

/// Los índices (entre los `n` primeros) de los tours existentes que el pedido
/// ya no trae: se cancelan.
pub open spec fn tours_a_cancelar(existentes: Seq<i32>, pedidos: Seq<Option<i32>>, n: int) -> Seq<usize>
    decreases n,
{
    if n <= 0 {
        Seq::empty()
    } else {
        let pre = tours_a_cancelar(existentes, pedidos, n - 1);
        if pedidos.contains(Some(existentes[n - 1])) {
            pre
        } else {
            pre.push((n - 1) as usize)
        }
    }
}

/// Los tours del pedido (entre los `n` primeros) que traen id: se actualizan.
/// Cada par es (índice en el pedido, índice del tour existente con ese id).
pub open spec fn tours_a_actualizar(existentes: Seq<i32>, pedidos: Seq<Option<i32>>, n: int) -> Seq<(usize, usize)>
    decreases n,
{
    if n <= 0 {
        Seq::empty()
    } else {
        let pre = tours_a_actualizar(existentes, pedidos, n - 1);
        match pedidos[n - 1] {
            Some(id) => pre.push(((n - 1) as usize, posicion(existentes, id).unwrap() as usize)),
            None => pre,
        }
    }
}

/// Los tours del pedido (entre los `n` primeros) sin id: se crean.
pub open spec fn tours_a_crear(pedidos: Seq<Option<i32>>, n: int) -> Seq<usize>
    decreases n,
{
    if n <= 0 {
        Seq::empty()
    } else {
        let pre = tours_a_crear(pedidos, n - 1);
        if pedidos[n - 1] is None {
            pre.push((n - 1) as usize)
        } else {
            pre
        }
    }
}

/// Qué hacer con cada tour al editar un file.
#[derive(Debug, Clone)]
pub struct DiferenciaTours {
    /// Índices de los tours existentes que se cancelan, en su orden.
    pub cancelar: Vec<usize>,
    /// (índice en el pedido, índice del tour existente) de los que se actualizan.
    pub actualizar: Vec<(usize, usize)>,
    /// Índices en el pedido de los tours nuevos.
    pub crear: Vec<usize>,
}

/// ¿Trae el pedido un tour con este id?
fn pedido_trae(pedidos: &Vec<Option<i32>>, id: i32) -> (r: bool)
    ensures
        r == pedidos@.contains(Some(id)),
{
    let mut i: usize = 0;
    while i < pedidos.len()
        invariant
            i <= pedidos.len(),
            forall|k: int| 0 <= k < i ==> pedidos@[k] != Some(id),
        decreases pedidos.len() - i,
    {
        if pedidos[i] == Some(id) {
            assert(pedidos@[i as int] == Some(id));
            return true;
        }
        i = i + 1;
    }
    false
}

/// La primera posición de `id` entre los tours existentes.
pub fn posicion_de(existentes: &Vec<i32>, id: i32) -> (r: Option<usize>)
    ensures
        match r {
            Some(k) => posicion(existentes@, id) == Some(k as int) && k < existentes@.len(),
            None => posicion(existentes@, id) is None,
        },
{
    let mut i: usize = 0;
    while i < existentes.len()
        invariant
            i <= existentes.len(),
            posicion(existentes@.take(i as int), id) is None,
        decreases existentes.len() - i,
    {
        assert(existentes@.take(i as int + 1).drop_last() == existentes@.take(i as int));
        if existentes[i] == id {
            proof {
                lema_posicion_prefijo(existentes@, id, i as int + 1);
            }
            return Some(i);
        }
        i = i + 1;
    }
    assert(existentes@.take(existentes.len() as int) == existentes@);
    None
}

/// Si un prefijo contiene `x`, la secuencia entera tiene la misma primera posición.
proof fn lema_posicion_prefijo(s: Seq<i32>, x: i32, n: int)
    requires
        0 <= n <= s.len(),
        posicion(s.take(n), x) is Some,
    ensures
        posicion(s, x) == posicion(s.take(n), x),
    decreases s.len() - n,
{
    if n < s.len() {
        assert(s.take(n + 1).drop_last() == s.take(n));
        lema_posicion_prefijo(s, x, n + 1);
    } else {
        assert(s.take(n) == s);
    }
}

/// `posicion` encuentra lo que la secuencia contiene.
proof fn lema_posicion_contiene(s: Seq<i32>, x: i32)
    ensures
        s.contains(x) <==> posicion(s, x) is Some,
        posicion(s, x) matches Some(i) ==> 0 <= i < s.len() && s[i] == x,
    decreases s.len(),
{
    if s.len() > 0 {
        lema_posicion_contiene(s.drop_last(), x);
        if s.contains(x) {
            let k = choose|k: int| 0 <= k < s.len() && s[k] == x;
            if k < s.len() - 1 {
                assert(s.drop_last()[k] == x);
            }
        }
        if s.drop_last().contains(x) {
            let k = choose|k: int| 0 <= k < s.drop_last().len() && s.drop_last()[k] == x;
            assert(s[k] == x);
        }
    }
}

/// Compara los tours existentes de un file (`existentes`, sus ids) con los del
/// pedido (`pedidos`, el id de cada uno, o nada si es nuevo): los existentes
/// que el pedido no trae se cancelan, los del pedido con id se actualizan y
/// los del pedido sin id se crean.
pub fn diferenciar_tours(existentes: &Vec<i32>, pedidos: &Vec<Option<i32>>) -> (r: DiferenciaTours)
    requires
        forall|j: int| 0 <= j < pedidos@.len() && #[trigger] pedidos@[j] is Some ==> existentes@.contains(
            pedidos@[j]->0,
        ),
    ensures
        r.cancelar@ == tours_a_cancelar(existentes@, pedidos@, existentes@.len() as int),
        r.actualizar@ == tours_a_actualizar(existentes@, pedidos@, pedidos@.len() as int),
        r.crear@ == tours_a_crear(pedidos@, pedidos@.len() as int),
{
    let mut cancelar: Vec<usize> = Vec::new();
    let mut i: usize = 0;
    while i < existentes.len()
        invariant
            i <= existentes.len(),
            cancelar@ == tours_a_cancelar(existentes@, pedidos@, i as int),
        decreases existentes.len() - i,
    {
        if !pedido_trae(pedidos, existentes[i]) {
            cancelar.push(i);
        }
        i = i + 1;
    }
    let mut actualizar: Vec<(usize, usize)> = Vec::new();
    let mut crear: Vec<usize> = Vec::new();
    let mut j: usize = 0;
    while j < pedidos.len()
        invariant
            j <= pedidos.len(),
            forall|q: int| 0 <= q < pedidos@.len() && #[trigger] pedidos@[q] is Some ==> existentes@.contains(
                pedidos@[q]->0,
            ),
            actualizar@ == tours_a_actualizar(existentes@, pedidos@, j as int),
            crear@ == tours_a_crear(pedidos@, j as int),
        decreases pedidos.len() - j,
    {
        match pedidos[j] {
            Some(id) => {
                assert(pedidos@[j as int] is Some);
                proof {
                    lema_posicion_contiene(existentes@, id);
                }
                match posicion_de(existentes, id) {
                    Some(k) => actualizar.push((j, k)),
                    None => {},
                }
            },
            None => crear.push(j),
        }
        j = j + 1;
    }
    DiferenciaTours { cancelar, actualizar, crear }
}


// ===================== Servicios de un tour que se actualiza =====================

/// Cómo se retira un servicio de un tour: en un file reservado se borra; en
/// uno confirmado se cancela (y se cancela su pago al proveedor).
#[derive(Debug, Clone, Copy, PartialEq, Eq, Structural)]
pub enum Retiro {
    Eliminar,
    Cancelar,
}

/// El modo de retiro según el status del file.
pub open spec fn spec_modo_de_retiro(es_reservado: bool) -> Retiro {
    if es_reservado {
        Retiro::Eliminar
    } else {
        Retiro::Cancelar
    }
}

/// El modo de retiro de los servicios de un file: se borran si el file está
/// reservado y se cancelan si no.
pub fn modo_de_retiro(es_reservado: bool) -> (r: Retiro)
    ensures
        r == spec_modo_de_retiro(es_reservado),
{
    if es_reservado {
        Retiro::Eliminar
    } else {
        Retiro::Cancelar
    }
}

/// ¿Está reservado el file? Si no se encontró, se trata como reservado.
pub fn file_reservado(status: Option<&str>) -> (r: bool)
    ensures
        r == (match status {
            Some(s) => s@ == "reservado"@,
            None => true,
        }),
{
    match status {
        Some(s) => mismo_texto(s, "reservado"),
        None => true,
    }
}

/// Status inicial de un servicio nuevo de un tour: "reservado" en un file
/// reservado, "asignado" en uno confirmado.
pub fn status_de_servicio_nuevo(es_reservado: bool) -> (r: &'static str)
    ensures
        es_reservado ==> r@ == "reservado"@,
        !es_reservado ==> r@ == "asignado"@,
{
    proof {
        reveal_strlit("reservado");
        reveal_strlit("asignado");
    }
    if es_reservado {
        "reservado"
    } else {
        "asignado"
    }
}

/// Vehículos o guías de un tour: se reemplazan todos los actuales.
#[derive(Debug, Clone, Copy, PartialEq, Eq, Structural)]
pub struct PlanReemplazo {
    /// Si se retiran los actuales, cómo.
    pub retirar: Option<Retiro>,
    /// Si se agrega el pedido (con status "asignado").
    pub agregar: bool,
}

/// El reemplazo de los vehículos (o guías) de un tour que se actualiza: si
/// hay actuales o el pedido trae uno, se retiran todos los actuales y se
/// agrega el pedido, si lo hay.
pub open spec fn spec_reemplazo(hay_actuales: bool, hay_pedido: bool, es_reservado: bool) -> PlanReemplazo {
    if hay_actuales || hay_pedido {
        PlanReemplazo { retirar: Some(spec_modo_de_retiro(es_reservado)), agregar: hay_pedido }
    } else {
        PlanReemplazo { retirar: None, agregar: false }
    }
}

/// Decide el reemplazo de los vehículos (o guías) de un tour.
pub fn planificar_reemplazo(hay_actuales: bool, hay_pedido: bool, es_reservado: bool) -> (r: PlanReemplazo)
    ensures
        r == spec_reemplazo(hay_actuales, hay_pedido, es_reservado),
{
    if hay_actuales || hay_pedido {
        PlanReemplazo { retirar: Some(modo_de_retiro(es_reservado)), agregar: hay_pedido }
    } else {
        PlanReemplazo { retirar: None, agregar: false }
    }
}

/// El restaurante actual de un tour (su primera asignación).
#[derive(Debug, Clone)]
pub struct RestauranteActual {
    /// Id de la asignación (file_restaurante).
    pub id: i32,
    pub id_restaurante: i32,
    /// Precio en céntimos.
    pub precio: Option<i64>,
    pub status: String,
}

/// El restaurante que pide la edición.
#[derive(Debug, Clone, Copy)]
pub struct RestaurantePedido {
    pub id_restaurante: i32,
    /// Precio en céntimos.
    pub precio: Option<i64>,
}

/// Qué hacer con el restaurante de un tour que se actualiza.
#[derive(Debug, Clone, Copy)]
pub struct PlanRestaurante {
    /// La asignación actual que se retira, y cómo.
    pub retirar: Option<(i32, Retiro)>,
    /// Si se agrega el restaurante pedido.
    pub agregar: bool,
    /// La deuda del tour cuyo monto total cambia, y su nuevo monto.
    pub monto_deuda: Option<(i32, i128)>,
}

/// El precio o cero.
pub open spec fn precio_o_cero(p: Option<i64>) -> int {
    match p {
        Some(x) => x as int,
        None => 0,
    }
}

/// Qué hacer con el restaurante de un tour: sin pedido se retira el actual y,
/// en un file confirmado, la deuda del tour baja su precio; con uno distinto
/// se retira el actual, se agrega el nuevo y, en un file confirmado, la deuda
/// cambia por la diferencia de precios; sin actual se agrega el pedido y la
/// deuda sube su precio. `deuda` es la primera deuda del tour (id, monto total).
pub open spec fn spec_plan_restaurante(
    actual: Option<(i32, i32, Option<i64>)>,
    pedido: Option<RestaurantePedido>,
    es_reservado: bool,
    deuda: Option<(i32, i64)>,
) -> PlanRestaurante {
    match (actual, pedido) {
        (Some((id, _, precio)), None) => PlanRestaurante {
            retirar: Some((id, spec_modo_de_retiro(es_reservado))),
            agregar: false,
            monto_deuda: match (deuda, precio) {
                (Some((d, total)), Some(p)) => if es_reservado {
                    None
                } else {
                    Some((d, (total - p) as i128))
                },
                _ => None,
            },
        },
        (Some((id, id_rest, precio)), Some(n)) => if n.id_restaurante != id_rest {
            PlanRestaurante {
                retirar: Some((id, spec_modo_de_retiro(es_reservado))),
                agregar: true,
                monto_deuda: match deuda {
                    Some((d, total)) => {
                        let diferencia = precio_o_cero(n.precio) - precio_o_cero(precio);
                        if es_reservado || diferencia == 0 {
                            None
                        } else {
                            Some((d, (total + diferencia) as i128))
                        }
                    },
                    None => None,
                },
            }
        } else {
            PlanRestaurante { retirar: None, agregar: false, monto_deuda: None }
        },
        (None, Some(n)) => PlanRestaurante {
            retirar: None,
            agregar: true,
            monto_deuda: match (deuda, n.precio) {
                (Some((d, total)), Some(p)) => Some((d, (total + p) as i128)),
                _ => None,
            },
        },
        (None, None) => PlanRestaurante { retirar: None, agregar: false, monto_deuda: None },
    }
}

/// Vista del restaurante actual: (id, id del restaurante, precio).
pub open spec fn vista_restaurante(r: Option<RestauranteActual>) -> Option<(i32, i32, Option<i64>)> {
    match r {
        Some(a) => Some((a.id, a.id_restaurante, a.precio)),
        None => None,
    }
}

/// La primera deuda del tour como (id, monto total).
pub open spec fn deuda_del_tour(rs: Seq<RegistroVista>, tour: i32) -> Option<(i32, i64)> {
    match primera_deuda_del_tour(rs, tour) {
        Some(i) => Some((rs[i].id, rs[i].monto_total)),
        None => None,
    }
}

/// Decide qué hacer con el restaurante del tour `tour` al editarlo, y cómo
/// cambia el monto de su primera deuda entre `registros`.
pub fn planificar_restaurante(
    actual: &Option<RestauranteActual>,
    pedido: &Option<RestaurantePedido>,
    es_reservado: bool,
    registros: &Vec<RegistroPago>,
    tour: i32,
) -> (r: PlanRestaurante)
    ensures
        r == spec_plan_restaurante(
            vista_restaurante(*actual),
            *pedido,
            es_reservado,
            deuda_del_tour(registros.deep_view(), tour),
        ),
{
    let ghost rs = registros.deep_view();
    let deuda: Option<(i32, i64)> = match buscar_primera_deuda(registros, tour) {
        Some(k) => {
            assert(rs[k as int] == registros@[k as int].deep_view());
            Some((registros[k].id, registros[k].monto_total))
        },
        None => None,
    };
    match (actual, pedido) {
        (Some(a), None) => PlanRestaurante {
            retirar: Some((a.id, modo_de_retiro(es_reservado))),
            agregar: false,
            monto_deuda: match (deuda, a.precio) {
                (Some((d, total)), Some(p)) => if es_reservado {
                    None
                } else {
                    Some((d, total as i128 - p as i128))
                },
                _ => None,
            },
        },
        (Some(a), Some(n)) => if n.id_restaurante != a.id_restaurante {
            PlanRestaurante {
                retirar: Some((a.id, modo_de_retiro(es_reservado))),
                agregar: true,
                monto_deuda: match deuda {
                    Some((d, total)) => {
                        let nuevo: i128 = match n.precio { Some(x) => x as i128, None => 0 };
                        let viejo: i128 = match a.precio { Some(x) => x as i128, None => 0 };
                        let diferencia = nuevo - viejo;
                        if es_reservado || diferencia == 0 {
                            None
                        } else {
                            Some((d, total as i128 + diferencia))
                        }
                    },
                    None => None,
                },
            }
        } else {
            PlanRestaurante { retirar: None, agregar: false, monto_deuda: None }
        },
        (None, Some(n)) => PlanRestaurante {
            retirar: None,
            agregar: true,
            monto_deuda: match (deuda, n.precio) {
                (Some((d, total)), Some(p)) => Some((d, total as i128 + p as i128)),
                _ => None,
            },
        },
        (None, None) => PlanRestaurante { retirar: None, agregar: false, monto_deuda: None },
    }
}


// ===================== Entradas de un tour que se actualiza =====================

/// Una entrada asignada a un tour.
#[derive(Debug, Clone)]
pub struct EntradaActual {
    /// Id de la asignación (file_entrada).
    pub id: i32,
    pub id_entrada: i32,
    pub id_entrada_precio: Option<i32>,
    pub cantidad: i32,
    pub status: String,
}

/// Vista de una entrada asignada: su clave (entrada, precio) y si sigue vigente
/// (no cancelada).
pub struct EntradaActualV {
    pub id: i32,
    pub clave: (i32, Option<i32>),
    pub cantidad: i32,
    pub vigente: bool,
}

impl DeepView for EntradaActual {
    type V = EntradaActualV;

    open spec fn deep_view(&self) -> EntradaActualV {
        EntradaActualV {
            id: self.id,
            clave: (self.id_entrada, self.id_entrada_precio),
            cantidad: self.cantidad,
            vigente: self.status@ != "cancelado"@,
        }
    }
}

/// Una entrada que pide la edición.
#[derive(Debug, Clone, Copy)]
pub struct EntradaPedida {
    pub id_entrada: i32,
    pub id_entrada_precio: Option<i32>,
    pub cantidad: i32,
}

/// La clave de una entrada pedida: (entrada, precio).
pub open spec fn clave_pedida(e: EntradaPedida) -> (i32, Option<i32>) {
    (e.id_entrada, e.id_entrada_precio)
}

/// La última entrada vigente con esa clave: la que queda al agrupar por clave.
pub open spec fn ultima_actual(a: Seq<EntradaActualV>, k: (i32, Option<i32>)) -> Option<int>
    decreases a.len(),
{
    if a.len() == 0 {
        None
    } else if a.last().vigente && a.last().clave == k {
        Some(a.len() - 1)
    } else {
        ultima_actual(a.drop_last(), k)
    }
}

/// La última entrada pedida con esa clave: la que queda al agrupar por clave.
pub open spec fn ultima_pedida(p: Seq<EntradaPedida>, k: (i32, Option<i32>)) -> Option<int>
    decreases p.len(),
{
    if p.len() == 0 {
        None
    } else if clave_pedida(p.last()) == k {
        Some(p.len() - 1)
    } else {
        ultima_pedida(p.drop_last(), k)
    }
}

/// Las entradas pedidas que se agregan: por cada clave pedida (en el orden de
/// su primera aparición) que no está entre las vigentes, la última pedida con
/// esa clave. Se recorren las `n` primeras pedidas.
pub open spec fn entradas_a_agregar(p: Seq<EntradaPedida>, a: Seq<EntradaActualV>, n: int) -> Seq<usize>
    decreases n,
{
    if n <= 0 {
        Seq::empty()
    } else {
        let pre = entradas_a_agregar(p, a, n - 1);
        let k = clave_pedida(p[n - 1]);
        if ultima_pedida(p.take(n - 1), k) is None && ultima_actual(a, k) is None {
            pre.push(ultima_pedida(p, k).unwrap() as usize)
        } else {
            pre
        }
    }
}

/// Las entradas pedidas cuya cantidad cambia: por cada clave pedida (en el
/// orden de su primera aparición) que está entre las vigentes con otra
/// cantidad, la última pedida con esa clave.
pub open spec fn entradas_a_actualizar(p: Seq<EntradaPedida>, a: Seq<EntradaActualV>, n: int) -> Seq<usize>
    decreases n,
{
    if n <= 0 {
        Seq::empty()
    } else {
        let pre = entradas_a_actualizar(p, a, n - 1);
        let k = clave_pedida(p[n - 1]);
        if ultima_pedida(p.take(n - 1), k) is None && ultima_actual(a, k) is Some
            && a[ultima_actual(a, k).unwrap()].cantidad != p[ultima_pedida(p, k).unwrap()].cantidad {
            pre.push(ultima_pedida(p, k).unwrap() as usize)
        } else {
            pre
        }
    }
}

/// Las entradas vigentes que se retiran: por cada clave vigente (en el orden
/// de su primera aparición) que el pedido no trae, la última vigente con esa
/// clave. Se recorren las `n` primeras actuales.
pub open spec fn entradas_a_retirar(a: Seq<EntradaActualV>, p: Seq<EntradaPedida>, n: int) -> Seq<usize>
    decreases n,
{
    if n <= 0 {
        Seq::empty()
    } else {
        let pre = entradas_a_retirar(a, p, n - 1);
        let e = a[n - 1];
        if e.vigente && ultima_actual(a.take(n - 1), e.clave) is None && ultima_pedida(p, e.clave) is None {
            pre.push(ultima_actual(a, e.clave).unwrap() as usize)
        } else {
            pre
        }
    }
}

/// Qué hacer con las entradas de un tour que se actualiza.
#[derive(Debug, Clone)]
pub struct DiferenciaEntradas {
    /// Índices de las pedidas que se agregan.
    pub agregar: Vec<usize>,
    /// Índices de las pedidas cuya cantidad se actualiza.
    pub actualizar: Vec<usize>,
    /// Índices de las actuales que se retiran.
    pub retirar: Vec<usize>,
}

/// La última entrada vigente con clave `k` entre las `hasta` primeras.
fn buscar_ultima_actual(a: &Vec<EntradaActual>, k: (i32, Option<i32>), hasta: usize) -> (r: Option<usize>)
    requires
        hasta <= a.len(),
    ensures
        match r {
            Some(i) => ultima_actual(a.deep_view().take(hasta as int), k) == Some(i as int) && i < hasta,
            None => ultima_actual(a.deep_view().take(hasta as int), k) is None,
        },
{
    let ghost dv = a.deep_view();
    let mut r: Option<usize> = None;
    let mut i: usize = 0;
    while i < hasta
        invariant
            i <= hasta <= a.len(),
            dv == a.deep_view(),
            dv.len() == a.len(),
            r matches Some(j) ==> j < i,
            ultima_actual(dv.take(i as int), k) == match r {
                Some(j) => Some(j as int),
                None => None::<int>,
            },
        decreases hasta - i,
    {
        assert(dv.take(i as int + 1).drop_last() == dv.take(i as int));
        assert(dv[i as int] == a@[i as int].deep_view());
        if !mismo_texto(a[i].status.as_str(), "cancelado") && a[i].id_entrada == k.0 && a[i].id_entrada_precio == k.1 {
            r = Some(i);
        }
        i = i + 1;
    }
    r
}

/// La última entrada pedida con clave `k` entre las `hasta` primeras.
fn buscar_ultima_pedida(p: &Vec<EntradaPedida>, k: (i32, Option<i32>), hasta: usize) -> (r: Option<usize>)
    requires
        hasta <= p.len(),
    ensures
        match r {
            Some(i) => ultima_pedida(p@.take(hasta as int), k) == Some(i as int) && i < hasta,
            None => ultima_pedida(p@.take(hasta as int), k) is None,
        },
{
    let mut r: Option<usize> = None;
    let mut i: usize = 0;
    while i < hasta
        invariant
            i <= hasta <= p.len(),
            r matches Some(j) ==> j < i,
            ultima_pedida(p@.take(i as int), k) == match r {
                Some(j) => Some(j as int),
                None => None::<int>,
            },
        decreases hasta - i,
    {
        assert(p@.take(i as int + 1).drop_last() == p@.take(i as int));
        if p[i].id_entrada == k.0 && p[i].id_entrada_precio == k.1 {
            r = Some(i);
        }
        i = i + 1;
    }
    r
}

/// Compara las entradas actuales de un tour con las pedidas, agrupadas por
/// (entrada, precio): las claves pedidas que no están vigentes se agregan,
/// las que están con otra cantidad se actualizan, y las vigentes que el pedido
/// no trae se retiran. Si cambia el precio de una entrada, la clave vieja se
/// retira y la nueva se agrega.
pub fn diferenciar_entradas(actuales: &Vec<EntradaActual>, pedidas: &Vec<EntradaPedida>) -> (r: DiferenciaEntradas)
    ensures
        r.agregar@ == entradas_a_agregar(pedidas@, actuales.deep_view(), pedidas@.len() as int),
        r.actualizar@ == entradas_a_actualizar(pedidas@, actuales.deep_view(), pedidas@.len() as int),
        r.retirar@ == entradas_a_retirar(actuales.deep_view(), pedidas@, actuales@.len() as int),
{
    let ghost a = actuales.deep_view();
    let ghost p = pedidas@;
    assert(a.take(actuales.len() as int) == a);
    assert(p.take(pedidas.len() as int) == p);
    let mut agregar: Vec<usize> = Vec::new();
    let mut actualizar: Vec<usize> = Vec::new();
    let mut j: usize = 0;
    while j < pedidas.len()
        invariant
            j <= pedidas.len(),
            a == actuales.deep_view(),
            a.len() == actuales.len(),
            p == pedidas@,
            a.take(actuales.len() as int) == a,
            p.take(pedidas.len() as int) == p,
            agregar@ == entradas_a_agregar(p, a, j as int),
            actualizar@ == entradas_a_actualizar(p, a, j as int),
        decreases pedidas.len() - j,
    {
        let k = (pedidas[j].id_entrada, pedidas[j].id_entrada_precio);
        assert(k == clave_pedida(p[j as int]));
        let antes = buscar_ultima_pedida(pedidas, k, j);
        if antes.is_none() {
            let ultima = buscar_ultima_pedida(pedidas, k, pedidas.len());
            match buscar_ultima_actual(actuales, k, actuales.len()) {
                None => {
                    match ultima {
                        Some(u) => agregar.push(u),
                        None => {},
                    }
                },
                Some(i) => {
                    assert(a[i as int] == actuales@[i as int].deep_view());
                    match ultima {
                        Some(u) => if actuales[i].cantidad != pedidas[u].cantidad {
                            actualizar.push(u);
                        },
                        None => {},
                    }
                },
            }
            proof {
                lema_ultima_pedida_existe(p, j as int);
            }
        }
        j = j + 1;
    }
    let mut retirar: Vec<usize> = Vec::new();
    let mut i: usize = 0;
    while i < actuales.len()
        invariant
            i <= actuales.len(),
            a == actuales.deep_view(),
            a.len() == actuales.len(),
            p == pedidas@,
            a.take(actuales.len() as int) == a,
            p.take(pedidas.len() as int) == p,
            retirar@ == entradas_a_retirar(a, p, i as int),
        decreases actuales.len() - i,
    {
        assert(a[i as int] == actuales@[i as int].deep_view());
        let k = (actuales[i].id_entrada, actuales[i].id_entrada_precio);
        if !mismo_texto(actuales[i].status.as_str(), "cancelado") {
            let antes = buscar_ultima_actual(actuales, k, i);
            let pedida = buscar_ultima_pedida(pedidas, k, pedidas.len());
            if antes.is_none() && pedida.is_none() {
                proof {
                    lema_ultima_actual_existe(a, i as int);
                }
                match buscar_ultima_actual(actuales, k, actuales.len()) {
                    Some(u) => retirar.push(u),
                    None => {},
                }
            }
        }
        i = i + 1;
    }
    DiferenciaEntradas { agregar, actualizar, retirar }
}

/// Toda clave pedida tiene una última pedida.
proof fn lema_ultima_pedida_existe(p: Seq<EntradaPedida>, j: int)
    requires
        0 <= j < p.len(),
    ensures
        ultima_pedida(p, clave_pedida(p[j])) is Some,
    decreases p.len(),
{
    if j < p.len() - 1 && clave_pedida(p.last()) != clave_pedida(p[j]) {
        assert(p.drop_last()[j] == p[j]);
        lema_ultima_pedida_existe(p.drop_last(), j);
    }
}

/// Toda clave vigente tiene una última vigente.
proof fn lema_ultima_actual_existe(a: Seq<EntradaActualV>, i: int)
    requires
        0 <= i < a.len(),
        a[i].vigente,
    ensures
        ultima_actual(a, a[i].clave) is Some,
    decreases a.len(),
{
    if i < a.len() - 1 && !(a.last().vigente && a.last().clave == a[i].clave) {
        assert(a.drop_last()[i] == a[i]);
        lema_ultima_actual_existe(a.drop_last(), i);
    }
}


// ===================== Precio de un tour que se actualiza =====================

/// Cota del número de entradas de un tour con que se calcula su precio.
pub const LINEAS_MAXIMAS: u64 = 0x10_0000_0000;

/// Una entrada del tour para el cálculo del precio: su status, el precio
/// unitario (en céntimos) de su tarifa si se encontró, y su cantidad.
#[derive(Debug, Clone)]
pub struct LineaEntrada {
    pub status: String,
    pub precio_unitario: Option<i64>,
    pub cantidad: i32,
}

impl DeepView for LineaEntrada {
    type V = (Seq<char>, Option<i64>, i32);

    open spec fn deep_view(&self) -> (Seq<char>, Option<i64>, i32) {
        (self.status@, self.precio_unitario, self.cantidad)
    }
}

/// Lo que aporta una entrada al precio: precio por cantidad, si tiene precio
/// y no está cancelada (o si se cuentan también las canceladas).
pub open spec fn aporte(l: (Seq<char>, Option<i64>, i32), con_canceladas: bool) -> int {
    match l.1 {
        Some(p) => if con_canceladas || l.0 != "cancelado"@ {
            p * l.2
        } else {
            0
        },
        None => 0,
    }
}

/// El monto de las entradas de un tour.
pub open spec fn monto_entradas(ls: Seq<(Seq<char>, Option<i64>, i32)>, con_canceladas: bool) -> int
    decreases ls.len(),
{
    if ls.len() == 0 {
        0
    } else {
        monto_entradas(ls.drop_last(), con_canceladas) + aporte(ls.last(), con_canceladas)
    }
}

/// Cota del aporte de una entrada: la cota de los montos por la mayor cantidad.
pub open spec fn cota_aporte() -> int {
    MONTO_MAXIMO * 0x8000_0000
}

/// ¿Están acotados los precios unitarios de las entradas?
pub open spec fn lineas_acotadas(ls: Seq<(Seq<char>, Option<i64>, i32)>) -> bool {
    forall|i: int| 0 <= i < ls.len() ==> ((#[trigger] ls[i]).1 matches Some(p) ==> monto_acotado(p as int))
}

/// El monto de `n` entradas acotadas está acotado por `n` veces la cota del aporte.
proof fn lema_monto_entradas_acotado(ls: Seq<(Seq<char>, Option<i64>, i32)>, con_canceladas: bool)
    requires
        lineas_acotadas(ls),
    ensures
        -(ls.len() * cota_aporte()) <= monto_entradas(ls, con_canceladas) <= ls.len() * cota_aporte(),
    decreases ls.len(),
{
    if ls.len() > 0 {
        let pre = ls.drop_last();
        assert forall|i: int| 0 <= i < pre.len() implies ((#[trigger] pre[i]).1 matches Some(p) ==> monto_acotado(
            p as int,
        )) by {
            assert(pre[i] == ls[i]);
        }
        lema_monto_entradas_acotado(pre, con_canceladas);
        let l = ls.last();
        assert(ls[ls.len() - 1] == l);
        match l.1 {
            Some(p) => {
                assert(-cota_aporte() <= p * l.2 <= cota_aporte()) by (nonlinear_arith)
                    requires
                        -MONTO_MAXIMO <= p <= MONTO_MAXIMO,
                        -0x8000_0000 <= l.2 < 0x8000_0000,
                        cota_aporte() == MONTO_MAXIMO * 0x8000_0000,
                        MONTO_MAXIMO > 0;
            },
            None => {},
        }
        assert(pre.len() * cota_aporte() + cota_aporte() == ls.len() * cota_aporte()) by (nonlinear_arith)
            requires pre.len() + 1 == ls.len();
    }
}

/// Suma lo que aportan las entradas de un tour a su precio.
pub fn sumar_entradas(lineas: &Vec<LineaEntrada>, con_canceladas: bool) -> (r: i128)
    requires
        lineas.len() <= LINEAS_MAXIMAS,
        lineas_acotadas(lineas.deep_view()),
    ensures
        r == monto_entradas(lineas.deep_view(), con_canceladas),
        -(LINEAS_MAXIMAS * cota_aporte()) <= r <= LINEAS_MAXIMAS * cota_aporte(),
{
    let ghost dv = lineas.deep_view();
    let mut s: i128 = 0;
    let mut i: usize = 0;
    while i < lineas.len()
        invariant
            i <= lineas.len() <= LINEAS_MAXIMAS,
            dv == lineas.deep_view(),
            dv.len() == lineas.len(),
            lineas_acotadas(dv),
            s == monto_entradas(dv.take(i as int), con_canceladas),
            -(LINEAS_MAXIMAS * cota_aporte()) <= s <= LINEAS_MAXIMAS * cota_aporte(),
        decreases lineas.len() - i,
    {
        let ghost pre = dv.take(i as int + 1);
        assert(pre.drop_last() == dv.take(i as int));
        assert(pre.last() == dv[i as int]);
        assert(dv[i as int] == lineas@[i as int].deep_view());
        assert(monto_entradas(pre, con_canceladas) == s + aporte(dv[i as int], con_canceladas));
        assert forall|j: int| 0 <= j < pre.len() implies ((#[trigger] pre[j]).1 matches Some(p) ==> monto_acotado(
            p as int,
        )) by {
            assert(pre[j] == dv[j]);
        }
        proof {
            lema_monto_entradas_acotado(pre, con_canceladas);
            assert((i + 1) * cota_aporte() <= LINEAS_MAXIMAS * cota_aporte()) by (nonlinear_arith)
                requires i + 1 <= LINEAS_MAXIMAS, cota_aporte() > 0;
        }
        let l = &lineas[i];
        match l.precio_unitario {
            Some(p) => if con_canceladas || !mismo_texto(l.status.as_str(), "cancelado") {
                assert(p * l.cantidad == aporte(dv[i as int], con_canceladas));
                s = s + p as i128 * l.cantidad as i128;
            },
            None => {},
        }
        i = i + 1;
    }
    assert(dv.take(lineas.len() as int) == dv);
    s
}

/// El precio de un tour y el monto de sus entradas.
#[derive(Debug, Clone, Copy)]
pub struct PrecioTour {
    /// (tarifa base × pasajeros) + entradas + restaurante, en céntimos.
    pub precio: i128,
    /// El monto de las entradas.
    pub monto_entradas: i128,
}

/// Lo que aporta el restaurante actual: su precio, si no está cancelado y lo tiene.
pub open spec fn aporte_restaurante(r: Option<RestauranteActual>) -> int {
    match r {
        Some(a) => if a.status@ != "cancelado"@ {
            precio_o_cero(a.precio)
        } else {
            0
        },
        None => 0,
    }
}

/// El precio de un tour: la tarifa base (la de la tabla de tarifas o, si no
/// hay, el precio aplicado del tour, o cero) por el número de pasajeros, más
/// las entradas, más el restaurante.
pub open spec fn spec_precio_tour(
    tarifa: Option<i64>,
    aplicado: Option<i64>,
    pasajeros: Option<i32>,
    entradas: int,
    restaurante: int,
) -> int {
    let base = match tarifa {
        Some(t) => t as int,
        None => precio_o_cero(aplicado),
    };
    let n = match pasajeros {
        Some(x) => x as int,
        None => 0,
    };
    base * n + entradas + restaurante
}

/// Cota de los precios de tour que se calculan.
pub open spec fn cota_precio() -> int {
    1329227995784915872903807060280344576
}

/// Calcula el nuevo precio de un tour: tarifa base por pasajeros, más las
/// entradas vigentes con precio, más el restaurante actual si no está cancelado.
pub fn calcular_precio_tour(
    tarifa: Option<i64>,
    aplicado: Option<i64>,
    pasajeros: Option<i32>,
    lineas: &Vec<LineaEntrada>,
    restaurante: &Option<RestauranteActual>,
) -> (r: PrecioTour)
    requires
        tarifa matches Some(t) ==> monto_acotado(t as int),
        aplicado matches Some(a) ==> monto_acotado(a as int),
        restaurante matches Some(a) ==> (a.precio matches Some(p) ==> monto_acotado(p as int)),
        lineas.len() <= LINEAS_MAXIMAS,
        lineas_acotadas(lineas.deep_view()),
    ensures
        r.monto_entradas == monto_entradas(lineas.deep_view(), false),
        r.precio == spec_precio_tour(tarifa, aplicado, pasajeros, r.monto_entradas as int, aporte_restaurante(*restaurante)),
        -cota_precio() <= r.precio <= cota_precio(),
{
    let m = sumar_entradas(lineas, false);
    let base: i128 = match tarifa {
        Some(t) => t as i128,
        None => match aplicado {
            Some(a) => a as i128,
            None => 0,
        },
    };
    let n: i128 = match pasajeros {
        Some(x) => x as i128,
        None => 0,
    };
    let rest: i128 = match restaurante {
        Some(a) => if !mismo_texto(a.status.as_str(), "cancelado") {
            match a.precio {
                Some(p) => p as i128,
                None => 0,
            }
        } else {
            0
        },
        None => 0,
    };
    assert(-cota_aporte() <= base * n <= cota_aporte()) by (nonlinear_arith)
        requires
            -MONTO_MAXIMO <= base <= MONTO_MAXIMO,
            -0x8000_0000 <= n < 0x8000_0000,
            cota_aporte() == MONTO_MAXIMO * 0x8000_0000,
            MONTO_MAXIMO > 0;
    PrecioTour { precio: base * n + m + rest, monto_entradas: m }
}

/// El monto de entradas que se guarda en la deuda: el monto, si es positivo.
pub open spec fn entrada_precio_de(monto: int) -> Option<int> {
    if monto > 0 {
        Some(monto)
    } else {
        None
    }
}

/// Los ids de los registros del tour (entre los `n` primeros) cuyo monto total
/// no es el nuevo precio.
pub open spec fn registros_a_reprecio(rs: Seq<RegistroVista>, tour: i32, precio: int, n: int) -> Seq<i32>
    decreases n,
{
    if n <= 0 {
        Seq::empty()
    } else {
        let pre = registros_a_reprecio(rs, tour, precio, n - 1);
        let r = rs[n - 1];
        if r.id_file_tour == Some(tour) && r.monto_total != precio {
            pre.push(r.id)
        } else {
            pre
        }
    }
}

/// Qué cambia en los registros de pago de un tour con su nuevo precio.
#[derive(Debug, Clone)]
pub struct CambiosDePrecio {
    /// Los registros del tour (deudas, pagos y pagos finales) cuyo monto total
    /// pasa a ser el nuevo precio.
    pub montos: Vec<i32>,
    /// La deuda del tour cuyo monto de entradas cambia, y el nuevo monto.
    pub entrada_precio: Option<(i32, Option<i128>)>,
}

/// El cambio del monto de entradas de la primera deuda del tour, si difiere.
pub open spec fn cambio_entrada_precio(rs: Seq<RegistroVista>, tour: i32, monto: int) -> Option<(i32, Option<i128>)> {
    match primera_deuda_del_tour(rs, tour) {
        Some(i) => {
            let actual = match rs[i].entrada_precio {
                Some(e) => Some(e as int),
                None => None,
            };
            if actual == entrada_precio_de(monto) {
                None
            } else {
                Some((
                    rs[i].id,
                    match entrada_precio_de(monto) {
                        Some(m) => Some(m as i128),
                        None => None,
                    },
                ))
            }
        },
        None => None,
    }
}

/// Decide qué registros de pago del tour cambian con su nuevo precio: todos
/// los del tour cuyo monto total difiere pasan al precio, y la primera deuda
/// guarda el monto de las entradas si es positivo (nada si no).
pub fn planificar_cambios_de_precio(registros: &Vec<RegistroPago>, tour: i32, precio: &PrecioTour) -> (r: CambiosDePrecio)
    ensures
        r.montos@ == registros_a_reprecio(registros.deep_view(), tour, precio.precio as int, registros@.len() as int),
        r.entrada_precio == cambio_entrada_precio(registros.deep_view(), tour, precio.monto_entradas as int),
{
    let ghost rs = registros.deep_view();
    let mut montos: Vec<i32> = Vec::new();
    let mut i: usize = 0;
    while i < registros.len()
        invariant
            i <= registros.len(),
            rs == registros.deep_view(),
            rs.len() == registros.len(),
            montos@ == registros_a_reprecio(rs, tour, precio.precio as int, i as int),
        decreases registros.len() - i,
    {
        assert(rs[i as int] == registros@[i as int].deep_view());
        if registros[i].id_file_tour == Some(tour) && registros[i].monto_total as i128 != precio.precio {
            montos.push(registros[i].id);
        }
        i = i + 1;
    }
    let nueva: Option<i128> = if precio.monto_entradas > 0 {
        Some(precio.monto_entradas)
    } else {
        None
    };
    let entrada_precio = match buscar_primera_deuda(registros, tour) {
        Some(k) => {
            assert(rs[k as int] == registros@[k as int].deep_view());
            let actual: Option<i128> = match registros[k].entrada_precio {
                Some(e) => Some(e as i128),
                None => None,
            };
            if actual == nueva {
                None
            } else {
                Some((registros[k].id, nueva))
            }
        },
        None => None,
    };
    CambiosDePrecio { montos, entrada_precio }
}


// ===================== Datos de los tours =====================

/// Los datos propios de un tour del file.
#[derive(Debug, Clone)]
pub struct DatosTour {
    pub orden: i32,
    /// Precio aplicado en céntimos.
    pub precio_aplicado: Option<i128>,
    pub fecha_tour: Option<Fecha>,
    pub turno_tour: Option<String>,
    pub lugar_recojo: Option<String>,
    pub hora_recojo: Option<Hora>,
    pub status: String,
    pub nro_pasajeros: Option<i32>,
}

/// Los campos de un tour que trae un pedido de edición (fecha y hora escritas).
#[derive(Debug, Clone)]
pub struct CamposTourPedido {
    pub orden: Option<i32>,
    /// Precio aplicado en céntimos.
    pub precio_aplicado: Option<i64>,
    pub fecha_tour: Option<String>,
    pub turno_tour: Option<String>,
    pub lugar_recojo: Option<String>,
    pub hora_recojo: Option<String>,
    pub status: Option<String>,
    pub nro_pasajeros: Option<i32>,
}

/// Vista de un texto opcional.
pub open spec fn vista_texto(o: Option<String>) -> Option<Seq<char>> {
    match o {
        Some(s) => Some(s@),
        None => None,
    }
}

/// El primero si lo hay; si no, el segundo.
pub open spec fn o_si_no<T>(a: Option<T>, b: Option<T>) -> Option<T> {
    match a {
        Some(x) => Some(x),
        None => b,
    }
}

/// Actualiza los datos de un tour con lo que trae el pedido: cada campo que
/// el pedido trae (una fecha o una hora, si se puede leer) reemplaza al
/// actual, y el precio aplicado pasa a ser el nuevo precio.
pub fn actualizar_datos_tour(actual: DatosTour, pedido: CamposTourPedido, precio: i128) -> (r: DatosTour)
    ensures
        r.orden == (match pedido.orden {
            Some(o) => o,
            None => actual.orden,
        }),
        r.precio_aplicado == Some(precio),
        r.fecha_tour == o_si_no(spec_fecha_de_pedido(vista_texto(pedido.fecha_tour)), actual.fecha_tour),
        vista_texto(r.turno_tour) == o_si_no(vista_texto(pedido.turno_tour), vista_texto(actual.turno_tour)),
        vista_texto(r.lugar_recojo) == o_si_no(vista_texto(pedido.lugar_recojo), vista_texto(actual.lugar_recojo)),
        r.hora_recojo == o_si_no(spec_hora_de_pedido(vista_texto(pedido.hora_recojo)), actual.hora_recojo),
        r.status@ == (match pedido.status {
            Some(s) => s@,
            None => actual.status@,
        }),
        r.nro_pasajeros == o_si_no(pedido.nro_pasajeros, actual.nro_pasajeros),
{
    let fecha = match fecha_de_pedido(&pedido.fecha_tour) {
        Some(f) => Some(f),
        None => actual.fecha_tour,
    };
    let hora = match hora_de_pedido(&pedido.hora_recojo) {
        Some(h) => Some(h),
        None => actual.hora_recojo,
    };
    DatosTour {
        orden: match pedido.orden {
            Some(o) => o,
            None => actual.orden,
        },
        precio_aplicado: Some(precio),
        fecha_tour: fecha,
        turno_tour: match pedido.turno_tour {
            Some(t) => Some(t),
            None => actual.turno_tour,
        },
        lugar_recojo: match pedido.lugar_recojo {
            Some(l) => Some(l),
            None => actual.lugar_recojo,
        },
        hora_recojo: hora,
        status: match pedido.status {
            Some(s) => s,
            None => actual.status,
        },
        nro_pasajeros: match pedido.nro_pasajeros {
            Some(n) => Some(n),
            None => actual.nro_pasajeros,
        },
    }
}

/// Los datos de un tour nuevo del pedido: orden 1 y precio cero si no los
/// trae, la fecha y la hora si se pueden leer, y status "reservado" si no trae uno.
pub fn datos_de_tour_nuevo(pedido: CamposTourPedido) -> (r: DatosTour)
    ensures
        r.orden == (match pedido.orden {
            Some(o) => o,
            None => 1,
        }),
        r.precio_aplicado == Some(precio_o_cero(pedido.precio_aplicado) as i128),
        r.fecha_tour == spec_fecha_de_pedido(vista_texto(pedido.fecha_tour)),
        vista_texto(r.turno_tour) == vista_texto(pedido.turno_tour),
        vista_texto(r.lugar_recojo) == vista_texto(pedido.lugar_recojo),
        r.hora_recojo == spec_hora_de_pedido(vista_texto(pedido.hora_recojo)),
        r.status@ == (match pedido.status {
            Some(s) => s@,
            None => "reservado"@,
        }),
        r.nro_pasajeros == pedido.nro_pasajeros,
{
    let fecha = fecha_de_pedido(&pedido.fecha_tour);
    let hora = hora_de_pedido(&pedido.hora_recojo);
    proof {
        reveal_strlit("reservado");
    }
    DatosTour {
        orden: match pedido.orden {
            Some(o) => o,
            None => 1,
        },
        precio_aplicado: Some(
            match pedido.precio_aplicado {
                Some(p) => p as i128,
                None => 0,
            },
        ),
        fecha_tour: fecha,
        turno_tour: pedido.turno_tour,
        lugar_recojo: pedido.lugar_recojo,
        hora_recojo: hora,
        status: match pedido.status {
            Some(s) => s,
            None => texto("reservado"),
        },
        nro_pasajeros: pedido.nro_pasajeros,
    }
}


// ===================== Leyes de la diferencia de tours =====================

/// Todo tour existente que el pedido no trae se cancela, y ninguno que trae:
/// los índices cancelados son exactamente los de los tours ausentes del pedido.
pub proof fn ley_se_cancelan_los_ausentes(existentes: Seq<i32>, pedidos: Seq<Option<i32>>, n: int)
    requires
        0 <= n <= existentes.len(),
        existentes.len() <= usize::MAX,
    ensures
        forall|i: int| 0 <= i < n ==> (tours_a_cancelar(existentes, pedidos, n).contains(i as usize)
            <==> !pedidos.contains(Some(#[trigger] existentes[i]))),
        forall|k: int| 0 <= k < tours_a_cancelar(existentes, pedidos, n).len() ==> #[trigger] tours_a_cancelar(existentes, pedidos, n)[k] < n,
    decreases n,
{
    if n > 0 {
        ley_se_cancelan_los_ausentes(existentes, pedidos, n - 1);
        let pre = tours_a_cancelar(existentes, pedidos, n - 1);
        let todo = tours_a_cancelar(existentes, pedidos, n);
        assert forall|i: int| 0 <= i < n implies (todo.contains(i as usize) <==> !pedidos.contains(
            Some(#[trigger] existentes[i]),
        )) by {
            if i < n - 1 {
                if todo.contains(i as usize) {
                    let k = choose|k: int| 0 <= k < todo.len() && todo[k] == i as usize;
                    if k < pre.len() {
                        assert(pre[k] == todo[k]);
                    }
                }
                if pre.contains(i as usize) {
                    let k = choose|k: int| 0 <= k < pre.len() && pre[k] == i as usize;
                    assert(todo[k] == pre[k]);
                }
            } else {
                if !pedidos.contains(Some(existentes[i])) {
                    assert(todo[todo.len() - 1] == i as usize);
                } else {
                    if todo.contains(i as usize) {
                        let k = choose|k: int| 0 <= k < todo.len() && todo[k] == i as usize;
                        assert(pre[k] == todo[k]);
                    }
                }
            }
        }
    }
}

/// Cada tour del pedido se actualiza o se crea, nunca ambas cosas: los que se
/// actualizan y los que se crean suman todos los del pedido.
pub proof fn ley_cada_pedido_se_actualiza_o_se_crea(existentes: Seq<i32>, pedidos: Seq<Option<i32>>, n: int)
    requires
        0 <= n <= pedidos.len(),
    ensures
        tours_a_actualizar(existentes, pedidos, n).len() + tours_a_crear(pedidos, n).len() == n,
    decreases n,
{
    if n > 0 {
        ley_cada_pedido_se_actualiza_o_se_crea(existentes, pedidos, n - 1);
    }
}

/// La base del precio de un tour es su tarifa; si no hay tarifa, el precio
/// aplicado del tour hace de tarifa, y sin ninguno la base es cero. El precio
/// es la base por los pasajeros (ninguno si no se indican), más las entradas,
/// más el restaurante.
pub proof fn ley_precio_aplicado_hace_de_tarifa(
    tarifa: Option<i64>,
    aplicado: Option<i64>,
    pasajeros: Option<i32>,
    entradas: int,
    restaurante: int,
)
    ensures
        tarifa is None ==> spec_precio_tour(tarifa, aplicado, pasajeros, entradas, restaurante) == spec_precio_tour(
            aplicado,
            None,
            pasajeros,
            entradas,
            restaurante,
        ),
        (tarifa is Some && pasajeros is Some) ==> spec_precio_tour(tarifa, aplicado, pasajeros, entradas, restaurante)
            == tarifa.unwrap() * pasajeros.unwrap() + entradas + restaurante,
        (tarifa is None && aplicado is Some && pasajeros is Some) ==> spec_precio_tour(
            tarifa,
            aplicado,
            pasajeros,
            entradas,
            restaurante,
        ) == aplicado.unwrap() * pasajeros.unwrap() + entradas + restaurante,
        tarifa is None && aplicado is None ==> spec_precio_tour(tarifa, aplicado, pasajeros, entradas, restaurante)
            == entradas + restaurante,
        pasajeros is None ==> spec_precio_tour(tarifa, aplicado, pasajeros, entradas, restaurante) == entradas
            + restaurante,
{
}

} // verus!
