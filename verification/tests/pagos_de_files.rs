use turismo_core::contabilidad::{
    armar_tablero, calcular_exceso_de_pago, estado_global, estado_verificado, id_de_proveedor, marcar_pago_proveedor,
    pendiente_listado, planificar_verificacion, recalcular_monto_total, recalcular_totales, EstadoGlobal,
    EstadoVerificado,
};
use turismo_core::pagos::{anular_registros, seleccionar_ids, sumar, Anulacion, Campo, Filtro, RegistroPago};
use turismo_core::registro_pago::{planificar_pago_file, ErrorRegistroPago, OperacionPago, TipoNuevoPago, EstadoNuevoPago};

fn registro(id: i32, file: i32, tour: Option<i32>, tipo: &str, estado: &str, total: i64, pagado: i64) -> RegistroPago {
    RegistroPago {
        id,
        id_file: file,
        id_file_tour: tour,
        tipo_registro: tipo.to_string(),
        estado: estado.to_string(),
        monto_total: total,
        monto_pagado: pagado,
        monto_saldo_favor: None,
        saldo_autorizado: false,
        entradas: false,
        entrada_precio: None,
        cuota: None,
    }
}

#[test]
fn primer_pago_cubre_entradas_y_luego_el_menor_acumulado() {
    let mut d1 = registro(1, 7, Some(10), "deuda", "pendiente", 10000, 0);
    d1.entradas = true;
    d1.entrada_precio = Some(3000);
    let d2 = registro(2, 7, Some(11), "deuda", "pendiente", 5000, 0);
    let plan = planificar_pago_file("pendiente", &vec![d1, d2], 8000).unwrap();
    assert_eq!(
        plan.operaciones,
        vec![
            OperacionPago::ActualizarDeuda { deuda_id: 1, monto_pagado: 3000 },
            OperacionPago::ActualizarDeuda { deuda_id: 2, monto_pagado: 5000 },
        ]
    );
    assert_eq!(plan.monto_total_file, 15000);
    assert_eq!(plan.monto_pagado_global, 0);
    assert_eq!(plan.monto_pendiente, 15000);
    assert!(!plan.deuda_saldada);
    assert_eq!(plan.siguiente_cuota, 1);
}

#[test]
fn segundo_pago_crea_registro_de_pago_final() {
    let mut d1 = registro(1, 7, Some(10), "deuda", "pagado", 10000, 4000);
    d1.cuota = Some(1);
    let plan = planificar_pago_file("pagado", &vec![d1], 6000).unwrap();
    assert_eq!(
        plan.operaciones,
        vec![OperacionPago::CrearPago {
            id_file_tour: Some(10),
            monto_total: 10000,
            monto_pagado: 6000,
            estado: EstadoNuevoPago::Pagado,
            tipo: TipoNuevoPago::PagoFinal,
        }]
    );
    assert!(plan.deuda_saldada);
    assert_eq!(plan.siguiente_cuota, 2);
}

#[test]
fn pago_sobre_registro_cancelado_se_rechaza() {
    let d1 = registro(1, 7, Some(10), "deuda", "cancelado", 10000, 0);
    assert_eq!(planificar_pago_file("cancelado", &vec![d1], 100).unwrap_err(), ErrorRegistroPago::EstadoNoPagable);
}

#[test]
fn pago_que_excede_lo_pendiente_se_rechaza() {
    let d1 = registro(1, 7, Some(10), "deuda", "pendiente", 10000, 2000);
    assert_eq!(
        planificar_pago_file("pendiente", &vec![d1], 8002).unwrap_err(),
        ErrorRegistroPago::MontoExcedePendiente { monto: 8002, pendiente: 8000 }
    );
    let d1 = registro(1, 7, Some(10), "deuda", "pendiente", 10000, 2000);
    assert!(planificar_pago_file("pendiente", &vec![d1], 8001).is_ok());
}

#[test]
fn verificacion_aprobada_suma_la_cuota() {
    let mut p1 = registro(3, 7, Some(10), "pago", "pendiente_verificacion", 10000, 2500);
    p1.cuota = Some(2);
    let mut p2 = registro(4, 7, Some(11), "pago", "pendiente_verificacion", 5000, 1500);
    p2.cuota = Some(2);
    let otro = registro(5, 7, Some(11), "deuda", "pagado", 5000, 1000);
    let plan = planificar_verificacion(true, 10000, 9999, Some(2), 1000, &vec![p1, p2, otro]);
    assert_eq!(plan.estado, EstadoVerificado::Pagado);
    assert_eq!(plan.nuevo_monto_pagado_file, Some(5000));
    assert!(!plan.duplicar_como_pendiente);
}

#[test]
fn verificacion_rechazada_duplica_el_registro() {
    let plan = planificar_verificacion(false, 10000, 10000, Some(1), 0, &vec![]);
    assert_eq!(plan.estado, EstadoVerificado::Rechazado);
    assert_eq!(plan.nuevo_monto_pagado_file, None);
    assert!(plan.duplicar_como_pendiente);
    assert_eq!(estado_verificado(true, 10000, 9000), EstadoVerificado::Parcial);
    assert_eq!(EstadoVerificado::Parcial.como_texto(), "parcial");
}

#[test]
fn totales_ignoran_lo_cancelado_y_usan_el_saldo() {
    let d1 = registro(1, 7, Some(10), "deuda", "pagado", 10000, 10000);
    let mut d2 = registro(2, 7, Some(11), "cancelacion_tour", "cancelado", 5000, 0);
    d2.monto_saldo_favor = Some(700);
    let d3 = registro(3, 7, Some(12), "deuda", "cancelado", 4000, 0);
    let mut p = registro(4, 7, Some(10), "pago", "parcial", 10000, 200);
    p.monto_saldo_favor = Some(50);
    let rs = vec![d1, d2, d3, p];
    assert_eq!(recalcular_totales(&rs), (10000, 10050));
    assert_eq!(recalcular_monto_total(&rs), 10000);
}

#[test]
fn exceso_de_pago_va_a_la_deuda_como_saldo() {
    let mut d1 = registro(1, 7, Some(10), "deuda", "pagado", 10000, 6000);
    d1.monto_saldo_favor = Some(100);
    let p1 = registro(2, 7, Some(10), "pago", "pagado", 10000, 4000);
    let rs = vec![d1, p1];
    let ajuste = calcular_exceso_de_pago(&rs, 10, 8000).unwrap();
    assert_eq!(ajuste.exceso, 2000);
    assert_eq!(ajuste.deuda, Some((1, 2100)));
    assert!(calcular_exceso_de_pago(&rs, 10, 9999).is_none());
}

#[test]
fn estado_global_de_un_file() {
    assert_eq!(estado_global(1000, 1000, true, false), EstadoGlobal::Verificado);
    assert_eq!(estado_global(1000, 999, false, true), EstadoGlobal::PendienteVerificacion);
    assert_eq!(estado_global(1000, 999, false, false), EstadoGlobal::Pagado);
    assert_eq!(estado_global(1000, 500, false, false), EstadoGlobal::Parcial);
    assert_eq!(estado_global(1000, 0, false, false), EstadoGlobal::Pendiente);
}

#[test]
fn tablero_resume_cada_file() {
    let d1 = registro(1, 7, Some(10), "deuda", "verificado", 1000, 1000);
    let d2 = registro(2, 8, Some(20), "deuda", "pendiente", 2000, 0);
    let d3 = registro(3, 8, Some(21), "deuda", "rechazado", 500, 0);
    let d4 = registro(4, 9, Some(30), "deuda", "cancelado", 700, 0);
    let t = armar_tablero(&vec![d1, d2, d3, d4]);
    assert_eq!(t.resumenes.len(), 2);
    assert_eq!(t.resumenes[0].id_file, 7);
    assert_eq!(t.resumenes[0].estado, EstadoGlobal::Verificado);
    assert_eq!(t.resumenes[1].id_file, 8);
    assert_eq!(t.resumenes[1].monto_total, 2000);
    assert_eq!(t.resumenes[1].estado, EstadoGlobal::Pendiente);
    assert_eq!(t.pendientes, vec![1]);
    assert_eq!(t.ultimos, vec![0]);
    assert_eq!(t.rechazados, vec![2]);
    assert_eq!(t.monto_total, 3000);
    assert_eq!(t.monto_pagado, 1000);
    assert_eq!(t.monto_pendiente, 2000);
}

#[test]
fn pendiente_de_una_deuda_en_el_listado() {
    let d1 = registro(1, 7, Some(10), "deuda", "parcial", 10000, 3000);
    let p1 = registro(2, 7, Some(10), "pago", "parcial", 10000, 2000);
    let p2 = registro(3, 7, Some(11), "pago", "parcial", 10000, 999);
    let del_file = vec![d1.clone(), p1.clone(), p2];
    assert_eq!(pendiente_listado(&d1, &del_file), 5000);
    assert_eq!(pendiente_listado(&p1, &del_file), 0);
    assert_eq!(pendiente_listado(&d1, &vec![]), 7000);
}

#[test]
fn proveedor_segun_el_tipo() {
    assert_eq!(id_de_proveedor("transporte", Some(3), Some(4), Some(5), Some(6)), 3);
    assert_eq!(id_de_proveedor("guia", Some(3), Some(4), Some(5), Some(6)), 5);
    assert_eq!(id_de_proveedor("entrada", None, None, None, None), 0);
    assert_eq!(id_de_proveedor("otro", Some(3), Some(4), Some(5), Some(6)), 0);
}

#[test]
fn marcar_pago_proveedor_usa_el_monto_pagado_pedido() {
    assert_eq!(marcar_pago_proveedor("pendiente", 1000, Some(900), Some(800)).unwrap(), 800);
    assert_eq!(marcar_pago_proveedor("pendiente", 1000, Some(900), None).unwrap(), 900);
    assert_eq!(marcar_pago_proveedor("pendiente", 1000, None, None).unwrap(), 1000);
    let e = marcar_pago_proveedor("pagado", 1000, None, None).unwrap_err();
    assert_eq!(e.mensaje(), "El pago ya fue marcado como pagado");
}

#[test]
fn sumas_y_anulaciones_por_filtro() {
    let d1 = registro(1, 7, Some(10), "deuda", "pagado", 10000, 4000);
    let d2 = registro(2, 7, Some(11), "deuda", "pendiente", 5000, 0);
    let x = registro(3, 7, Some(11), "uso_saldo", "pagado", 5000, 300);
    let rs = vec![d1, d2, x];
    assert_eq!(sumar(&rs, &Filtro::Deudas, Campo::Total), 15000);
    assert_eq!(sumar(&rs, &Filtro::DelTour(11), Campo::Pagado), 300);
    assert_eq!(
        anular_registros(&rs, &Filtro::DeudasYPagos),
        vec![Anulacion { id_pago: 1, saldo_a_favor: Some(4000) }, Anulacion { id_pago: 2, saldo_a_favor: None }]
    );
    assert_eq!(seleccionar_ids(&rs, &Filtro::DelTour(11)), vec![2, 3]);
}
