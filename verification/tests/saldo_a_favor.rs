use turismo_core::fechas::Fecha;
use turismo_core::pagos::{Anulacion, RegistroPago};
use turismo_core::saldo::{
    cancelar_file, clasificar_movimiento, concepto_de_uso, es_registro_de_no_show, estado_terminal_del_file,
    no_show_de_file, planificar_cancelacion_de_tour, resumir_saldo, tours_posteriores, totales_del_file,
    validar_cancelable, validar_uso_de_saldo, validar_ventana, validar_ventana_ahora, DeudaConBoletos, DeudaTransferida,
    EntradaDelTour, ErrorSaldo, ErrorVentana, EstadoTerminal, TipoMovimiento, TourDelFile,
};

fn registro(id: i32, tour: Option<i32>, tipo: &str, estado: &str, total: i64, pagado: i64) -> RegistroPago {
    RegistroPago {
        id,
        id_file: 1,
        id_file_tour: tour,
        tipo_registro: tipo.to_string(),
        estado: estado.to_string(),
        monto_total: total,
        monto_pagado: pagado,
        monto_saldo_favor: None,
        saldo_autorizado: false,
        entradas: false,
        entrada_precio: None,
        cuota: None,
    }
}

fn tour(id: i32, orden: i32, status: &str, precio: Option<i64>, fecha: Option<Fecha>) -> TourDelFile {
    TourDelFile { id, orden, status: status.to_string(), precio_aplicado: precio, fecha_tour: fecha }
}

fn f(a: i32, m: u32, d: u32) -> Fecha {
    Fecha::new(a, m, d).unwrap()
}

#[test]
fn cancelar_tour_traspasa_boletos_y_lo_pagado() {
    let cancelado = tour(10, 1, "confirmado", Some(8000), None);
    let tours = vec![
        tour(10, 1, "confirmado", Some(8000), None),
        tour(12, 3, "confirmado", Some(4000), None),
        tour(11, 2, "confirmado", Some(5000), None),
        tour(13, 4, "cancelado", Some(9000), None),
    ];
    let mut d10 = registro(1, Some(10), "deuda", "pagado", 8000, 6000);
    d10.entrada_precio = Some(2500);
    let d11 = registro(2, Some(11), "deuda", "pendiente", 5000, 1000);
    let p11 = registro(3, Some(11), "pago", "pagado", 5000, 500);
    let d12 = registro(4, Some(12), "deuda", "pendiente", 4000, 0);
    let registros = vec![d10, d11, p11, d12];
    let entradas = vec![
        EntradaDelTour { id: 90, boleto_turistico: true, precio_unitario: Some(1000), cantidad: 2 },
        EntradaDelTour { id: 91, boleto_turistico: false, precio_unitario: Some(700), cantidad: 1 },
    ];
    let plan = planificar_cancelacion_de_tour(&cancelado, &tours, &registros, &entradas, true);
    let b = plan.traspaso_boletos.unwrap();
    assert_eq!(b.destino, 12);
    assert_eq!(b.entradas, vec![90]);
    assert_eq!(b.monto, 2000);
    assert_eq!(b.deuda_destino, Some(DeudaConBoletos { id: 4, monto_total: 6000, entrada_precio: 2000 }));
    assert_eq!(b.otros_registros_destino, Vec::<i32>::new());
    assert_eq!(b.comprobante, Some((1, 4)));
    assert_eq!(b.precio_origen, 6000);
    assert_eq!(b.precio_destino, 6000);
    // Lo pagado (6000) pasa primero al tour de orden 2 (le faltan 3500) y luego al de orden 3.
    assert_eq!(plan.transferencias.len(), 2);
    assert_eq!(plan.transferencias[0].id_file_tour, 11);
    assert_eq!(plan.transferencias[0].monto, 3500);
    assert_eq!(plan.transferencias[0].deuda, Some(DeudaTransferida { id: 2, monto_pagado: 4500, pagada: false }));
    assert_eq!(plan.transferencias[1].id_file_tour, 12);
    assert_eq!(plan.transferencias[1].monto, 2500);
    assert_eq!(plan.transferencias[1].deuda, Some(DeudaTransferida { id: 4, monto_pagado: 2500, pagada: false }));
    assert_eq!(plan.sobrante, 0);
    assert_eq!(plan.precio_final, 6000);
    assert_eq!(plan.cierres.len(), 1);
    assert_eq!(plan.cierres[0].id_pago, 1);
    assert_eq!(plan.cierres[0].monto_total, 6000);
    assert_eq!(plan.cierres[0].monto_pagado, Some(0));
    assert_eq!(plan.cierres[0].entrada_precio, Some(500));
    assert_eq!(plan.cierres[0].saldo_a_favor, None);
}

#[test]
fn lo_pagado_que_sobra_queda_como_saldo_o_como_pagado() {
    let cancelado = tour(10, 1, "confirmado", Some(8000), None);
    let tours = vec![tour(10, 1, "confirmado", Some(8000), None)];
    let registros = vec![registro(1, Some(10), "deuda", "pagado", 8000, 3000)];
    let plan = planificar_cancelacion_de_tour(&cancelado, &tours, &registros, &vec![], true);
    assert!(plan.traspaso_boletos.is_none());
    assert!(plan.transferencias.is_empty());
    assert_eq!(plan.sobrante, 3000);
    assert_eq!(plan.precio_final, 8000);
    assert_eq!(plan.cierres[0].saldo_a_favor, Some(3000));
    assert_eq!(plan.cierres[0].monto_pagado, None);
    let plan = planificar_cancelacion_de_tour(&cancelado, &tours, &registros, &vec![], false);
    assert_eq!(plan.cierres[0].saldo_a_favor, None);
    assert_eq!(plan.cierres[0].monto_pagado, Some(3000));
}

#[test]
fn tours_posteriores_por_orden() {
    let tours = vec![
        tour(1, 5, "confirmado", None, None),
        tour(2, 3, "no_show", None, None),
        tour(3, 2, "confirmado", None, None),
        tour(4, 1, "confirmado", None, None),
        tour(5, 2, "reservado", None, None),
    ];
    assert_eq!(tours_posteriores(&tours, 1), vec![2, 4, 0]);
}

#[test]
fn ventana_de_cancelacion_y_no_show() {
    let tours = vec![
        tour(1, 1, "cancelado", None, Some(f(2024, 5, 1))),
        tour(2, 2, "confirmado", Some(1), Some(f(2024, 5, 10))),
        tour(3, 3, "confirmado", None, Some(f(2024, 5, 12))),
    ];
    let dia = f(2024, 5, 10);
    assert_eq!(validar_ventana(&tours, "cancelacion", f(2024, 5, 9), 80000), Ok(()));
    assert_eq!(validar_ventana(&tours, "cancelacion", dia, 31199), Ok(()));
    assert_eq!(validar_ventana(&tours, "cancelacion", dia, 31200), Err(ErrorVentana::CancelacionTrasCorte(dia)));
    assert_eq!(validar_ventana(&tours, "cancelacion", f(2024, 5, 11), 0), Err(ErrorVentana::CancelacionFechaPasada(dia)));
    assert_eq!(validar_ventana(&tours, "no_show", dia, 31200), Ok(()));
    assert_eq!(validar_ventana(&tours, "no_show", dia, 100), Err(ErrorVentana::NoShowAntesDelCorte(dia)));
    assert_eq!(validar_ventana(&tours, "no_show", f(2024, 5, 9), 50000), Err(ErrorVentana::NoShowAntesDelDia(dia)));
    assert_eq!(validar_ventana(&tours, "otra", dia, 0), Err(ErrorVentana::OperacionInvalida));
    assert_eq!(validar_ventana(&vec![], "cancelacion", dia, 0), Err(ErrorVentana::SinFechaActiva));
    assert_eq!(
        ErrorVentana::CancelacionTrasCorte(dia).mensaje(),
        "No se puede cancelar: ya pasaron las 8:40 AM del día del tour (2024-05-10). Use no-show."
    );
    assert_eq!(
        ErrorVentana::NoShowAntesDelCorte(dia).mensaje(),
        "No se puede registrar no-show antes de las 8:40 AM. Use cancelación. Fecha tour: 2024-05-10"
    );
}

#[test]
fn ventana_con_el_reloj() {
    let tours = vec![tour(2, 2, "confirmado", None, Some(f(2000, 1, 1)))];
    assert_eq!(validar_ventana_ahora(&tours, "cancelacion"), Err(ErrorVentana::CancelacionFechaPasada(f(2000, 1, 1))));
}

#[test]
fn no_se_cancela_dos_veces() {
    assert_eq!(validar_cancelable(7, "cancelado", true), Err(ErrorSaldo::FileYaCancelado(7)));
    assert_eq!(validar_cancelable(7, "no_show", false), Err(ErrorSaldo::TourYaEnNoShow(7)));
    assert_eq!(validar_cancelable(7, "confirmado", true), Ok(()));
    assert_eq!(ErrorSaldo::FileYaCancelado(7).mensaje(), "File 7 ya está cancelado");
    assert_eq!(ErrorSaldo::TourYaEnNoShow(8).mensaje(), "FileTour 8 ya está marcado como no-show");
}

#[test]
fn cancelar_file_genera_saldo() {
    let rs = vec![
        registro(1, Some(10), "deuda", "pagado", 5000, 5000),
        registro(2, Some(11), "deuda", "pendiente", 3000, 0),
        registro(3, Some(10), "pago", "pagado", 5000, 250),
        registro(4, None, "uso_saldo", "pagado", 0, 999),
    ];
    let c = cancelar_file(1, &rs).unwrap();
    assert_eq!(
        c.anulaciones,
        vec![
            Anulacion { id_pago: 1, saldo_a_favor: Some(5000) },
            Anulacion { id_pago: 2, saldo_a_favor: None },
            Anulacion { id_pago: 3, saldo_a_favor: Some(250) },
        ]
    );
    assert_eq!(c.saldo_generado, 5250);
    assert_eq!(cancelar_file(9, &vec![]).unwrap_err(), ErrorSaldo::SinDeudaNiPago(9));
    assert_eq!(ErrorSaldo::SinDeudaNiPago(9).mensaje(), "No se encontró deuda/pago para el file 9");
    assert_eq!(no_show_de_file(1, &rs).unwrap(), vec![1, 2, 3]);
}

#[test]
fn totales_tras_cancelar_un_tour() {
    let rs = vec![
        registro(1, Some(10), "deuda", "cancelado", 5000, 0),
        registro(2, Some(11), "deuda", "pendiente", 3000, 1000),
        registro(3, Some(11), "uso_saldo", "pagado", 0, 200),
        registro(4, Some(12), "pago", "pagado", 0, 700),
    ];
    assert_eq!(totales_del_file(&rs), (8000, 1200));
}

#[test]
fn file_terminado_cuando_todos_sus_tours_lo_estan() {
    let s = |v: &[&str]| v.iter().map(|x| x.to_string()).collect::<Vec<String>>();
    assert_eq!(estado_terminal_del_file(&s(&["cancelado", "cancelado"]), "confirmado"), Some(EstadoTerminal::Cancelado));
    assert_eq!(estado_terminal_del_file(&s(&["cancelado", "no_show"]), "confirmado"), Some(EstadoTerminal::NoShow));
    assert_eq!(estado_terminal_del_file(&s(&["cancelado", "confirmado"]), "confirmado"), None);
    assert_eq!(estado_terminal_del_file(&s(&["cancelado"]), "cancelado"), None);
    assert_eq!(estado_terminal_del_file(&s(&[]), "confirmado"), None);
    assert_eq!(EstadoTerminal::NoShow.como_texto(), "no_show");
}

#[test]
fn resumen_y_uso_del_saldo() {
    let mut c1 = registro(1, Some(10), "cancelacion", "cancelado", 0, 0);
    c1.saldo_autorizado = true;
    c1.monto_saldo_favor = Some(4000);
    let mut c2 = registro(2, Some(11), "cancelacion_tour", "cancelado", 0, 0);
    c2.monto_saldo_favor = Some(999);
    let mut n1 = registro(3, Some(12), "no_show", "no_show", 0, 0);
    n1.saldo_autorizado = true;
    n1.monto_saldo_favor = Some(1000);
    let u1 = registro(4, None, "uso_saldo", "pagado", 0, 1500);
    let r = resumir_saldo(&vec![c1, c2], &vec![n1], &vec![u1]);
    assert_eq!(r.saldo_generado, 5000);
    assert_eq!(r.saldo_usado, 1500);
    assert_eq!(r.saldo_disponible, 3500);
    assert_eq!(r.total_cancelaciones, 2);
    assert_eq!(r.total_no_shows, 1);
    assert_eq!(validar_uso_de_saldo(3500, 3500), Ok(()));
    let e = validar_uso_de_saldo(3500, 3501).unwrap_err();
    assert_eq!(e, ErrorSaldo::SaldoInsuficiente { disponible: 3500, solicitado: 3501 });
    assert_eq!(e.mensaje(), "Saldo insuficiente. Disponible: S/ 35.00, Solicitado: S/ 35.01");
    assert_eq!(concepto_de_uso(None), "Aplicación de saldo a favor");
    assert_eq!(concepto_de_uso(Some("Pago parcial".to_string())), "Pago parcial");
}

#[test]
fn solo_los_no_shows_reciben_saldo_autorizado() {
    assert!(es_registro_de_no_show("no_show"));
    assert!(es_registro_de_no_show("no_show_tour"));
    assert!(!es_registro_de_no_show("cancelacion"));
    assert!(!es_registro_de_no_show("no_sho"));
}

#[test]
fn movimientos_de_saldo() {
    let mut c = registro(1, None, "cancelacion_tour", "cancelado", 0, 0);
    c.monto_saldo_favor = Some(1200);
    let m = clasificar_movimiento(&c, None);
    assert_eq!(m.tipo, TipoMovimiento::Credito);
    assert_eq!(m.concepto, "Cancelación de tour");
    assert_eq!(m.monto, 1200);
    let u = registro(2, None, "uso_saldo", "pagado", 0, 300);
    let m = clasificar_movimiento(&u, None);
    assert_eq!(m.tipo, TipoMovimiento::Debito);
    assert_eq!(m.concepto, "Uso de saldo");
    assert_eq!(m.monto, 300);
    let d = registro(3, None, "deuda", "pagado", 0, 300);
    let m = clasificar_movimiento(&d, Some("x".to_string()));
    assert_eq!(m.tipo, TipoMovimiento::Otro);
    assert_eq!(m.concepto, "deuda");
    assert_eq!(m.monto, 0);
}
