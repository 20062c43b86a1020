use turismo_core::confirmacion::confirmacion_es_planificable;
use turismo_core::fechas::{domingo_representable, es_fecha_valida, suma_de_dias_representable, tiene_dia_anterior};
use turismo_core::confirmacion::{
    buscar_fecha_minima, es_de_hoteles, fecha_de_pago_anticipado, planificar_confirmacion, politica_de_hoteles,
    validar_confirmacion, DeudaNueva, ErrorConfirmacion, PoliticaPago, TourAConfirmar,
};
use turismo_core::creacion::{
    comprobar_hotel_de_cadena, entidad_de_rol, fechas_del_file, ordenes_de_tours, resolver_entidad, EntidadDelFile,
    ErrorCreacion, UserRole,
};
use turismo_core::edicion::LineaEntrada;
use turismo_core::fechas::Fecha;

fn f(a: i32, m: u32, d: u32) -> Fecha {
    Fecha::new(a, m, d).unwrap()
}

#[test]
fn solo_se_confirman_files_reservados_sin_pagos() {
    assert!(validar_confirmacion("reservado", false).is_ok());
    assert!(matches!(
        validar_confirmacion("pendiente", false),
        Err(ErrorConfirmacion::EstadoNoConfirmable { .. })
    ));
    assert!(matches!(validar_confirmacion("reservado", true), Err(ErrorConfirmacion::YaTienePagos)));
    let e = validar_confirmacion("confirmado", false).unwrap_err();
    assert_eq!(
        e.mensaje(),
        "El file no puede ser confirmado. Estado actual: 'confirmado'. Estados válidos para confirmación: reservado"
    );
    assert_eq!(ErrorConfirmacion::YaTienePagos.mensaje(), "Este file ya tiene registros de pago asociados");
}

#[test]
fn politica_de_pago_de_hoteles() {
    assert!(es_de_hoteles(&Some("hoteles".to_string())));
    assert!(!es_de_hoteles(&Some("agencias".to_string())));
    assert!(!es_de_hoteles(&None));
    let p = politica_de_hoteles();
    assert!(!p.pago_anticipado);
    assert_eq!(p.tipo_vencimiento, Some("mensual".to_string()));
}

#[test]
fn pago_anticipado_vence_el_dia_anterior_al_primer_tour() {
    let fechas = vec![Some(f(2024, 3, 10)), None, Some(f(2024, 3, 1))];
    assert_eq!(buscar_fecha_minima(&fechas), Some(f(2024, 3, 1)));
    assert_eq!(fecha_de_pago_anticipado(&fechas, f(2024, 1, 1)), f(2024, 2, 29));
    assert_eq!(fecha_de_pago_anticipado(&vec![None], f(2024, 12, 28)), f(2025, 1, 4));
}

#[test]
fn deudas_de_la_confirmacion() {
    let tours = vec![
        TourAConfirmar {
            id: 10,
            precio_aplicado: Some(12000),
            fecha_tour: Some(f(2024, 3, 13)),
            entradas: vec![
                LineaEntrada { status: "cancelado".to_string(), precio_unitario: Some(500), cantidad: 2 },
                LineaEntrada { status: "asignado".to_string(), precio_unitario: None, cantidad: 1 },
            ],
        },
        TourAConfirmar { id: 11, precio_aplicado: None, fecha_tour: None, entradas: vec![] },
    ];
    let semanal = PoliticaPago { pago_anticipado: false, tipo_vencimiento: Some("semanal".to_string()) };
    let plan = planificar_confirmacion(&tours, &semanal, f(2024, 3, 20)).unwrap();
    assert_eq!(
        plan.deudas,
        vec![
            DeudaNueva {
                id_file_tour: 10,
                monto_total: 12000,
                fecha_vencimiento: f(2024, 3, 17),
                entradas: true,
                entrada_precio: Some(1000),
            },
            DeudaNueva {
                id_file_tour: 11,
                monto_total: 0,
                fecha_vencimiento: f(2024, 3, 24),
                entradas: false,
                entrada_precio: None,
            },
        ]
    );
    assert_eq!(plan.fecha_vencimiento, f(2024, 3, 17));
    let anticipado = PoliticaPago { pago_anticipado: true, tipo_vencimiento: None };
    let plan = planificar_confirmacion(&tours, &anticipado, f(2024, 3, 1)).unwrap();
    assert_eq!(plan.deudas[0].fecha_vencimiento, f(2024, 3, 12));
    assert_eq!(plan.deudas[1].fecha_vencimiento, f(2024, 3, 12));
    assert_eq!(plan.fecha_vencimiento, f(2024, 3, 12));
    assert!(matches!(planificar_confirmacion(&vec![], &anticipado, f(2024, 3, 1)), Err(ErrorConfirmacion::SinTours)));
}

#[test]
fn entidad_del_file_segun_el_rol() {
    assert_eq!(resolver_entidad(UserRole::Agencias, Some(4), Some(9)), Ok(EntidadDelFile::Resuelta(4)));
    assert_eq!(resolver_entidad(UserRole::Hoteles, None, Some(9)), Err(ErrorCreacion::SinEntidadConfigurada));
    assert_eq!(resolver_entidad(UserRole::HotelesGerenteCadena, Some(2), Some(9)), Ok(EntidadDelFile::HotelPorComprobar(9)));
    assert_eq!(resolver_entidad(UserRole::HotelesGerenteCadena, Some(2), None), Err(ErrorCreacion::DebeSeleccionarHotel));
    assert_eq!(resolver_entidad(UserRole::Admin, Some(2), Some(9)), Ok(EntidadDelFile::Resuelta(9)));
    assert_eq!(resolver_entidad(UserRole::SuperAdmin, None, None), Err(ErrorCreacion::DebeSeleccionarEntidad));
    assert_eq!(comprobar_hotel_de_cadena(9, Some(2), Some(2)), Ok(9));
    assert_eq!(comprobar_hotel_de_cadena(9, Some(3), Some(2)), Err(ErrorCreacion::HotelDeOtraCadena));
    assert_eq!(comprobar_hotel_de_cadena(9, None, Some(2)), Err(ErrorCreacion::HotelInvalido));
    assert_eq!(comprobar_hotel_de_cadena(9, Some(0), None), Ok(9));
    assert!(ErrorCreacion::HotelDeOtraCadena.es_prohibido());
    assert_eq!(ErrorCreacion::HotelDeOtraCadena.mensaje(), "El hotel seleccionado no pertenece a tu cadena");
    assert_eq!(ErrorCreacion::SinTours.mensaje(), "Debe especificar al menos un tour para el file");
}

#[test]
fn tipo_de_entidad_y_orden_de_tours() {
    assert_eq!(entidad_de_rol(UserRole::HotelesGerente), "hoteles");
    assert_eq!(entidad_de_rol(UserRole::AgenciasContador), "agencias");
    assert_eq!(ordenes_de_tours(&vec![None, Some(7), None]), vec![1, 7, 3]);
}

#[test]
fn fechas_del_file_con_servicios() {
    assert_eq!(fechas_del_file("2024-01-02", "2024-01-05"), Ok((f(2024, 1, 2), f(2024, 1, 5))));
    assert_eq!(fechas_del_file("02/01/2024", "2024-01-05"), Err(ErrorCreacion::FechaInicioInvalida));
    assert_eq!(fechas_del_file("2024-01-02", "x"), Err(ErrorCreacion::FechaFinInvalida));
    assert_eq!(ErrorCreacion::FechaFinInvalida.mensaje(), "fecha_fin inválida");
}

#[test]
fn confirmacion_planificable_segun_fechas_y_montos() {
    let mensual = PoliticaPago { pago_anticipado: false, tipo_vencimiento: None };
    let semanal = PoliticaPago { pago_anticipado: false, tipo_vencimiento: Some("semanal".to_string()) };
    let anticipado = PoliticaPago { pago_anticipado: true, tipo_vencimiento: None };
    let tour = |fecha: Option<Fecha>, precio: Option<i64>| TourAConfirmar {
        id: 1,
        precio_aplicado: Some(1000),
        fecha_tour: fecha,
        entradas: vec![LineaEntrada { status: "pendiente".to_string(), precio_unitario: precio, cantidad: 1 }],
    };
    let hoy = f(2024, 3, 20);
    assert!(confirmacion_es_planificable(&vec![tour(Some(f(2024, 4, 1)), Some(500))], &mensual, hoy));
    assert!(!confirmacion_es_planificable(&vec![tour(Some(f(2024, 4, 1)), Some(i64::MAX))], &mensual, hoy));
    assert!(!confirmacion_es_planificable(&vec![tour(Some(Fecha { anio: 2024, mes: 2, dia: 30 }), None)], &mensual, hoy));
    assert!(!confirmacion_es_planificable(&vec![tour(None, None)], &mensual, Fecha { anio: 2023, mes: 2, dia: 29 }));
    assert!(!confirmacion_es_planificable(&vec![tour(Some(f(262142, 12, 31)), None)], &semanal, hoy));
    assert!(confirmacion_es_planificable(&vec![tour(Some(f(262142, 12, 31)), None)], &mensual, hoy));
    assert!(!confirmacion_es_planificable(&vec![tour(Some(f(-262143, 1, 1)), None)], &anticipado, hoy));
    assert!(confirmacion_es_planificable(&vec![tour(Some(f(2024, 1, 1)), None)], &anticipado, hoy));
}

#[test]
fn comprobaciones_de_fechas() {
    assert!(es_fecha_valida(f(2024, 2, 29)));
    assert!(!es_fecha_valida(Fecha { anio: 2023, mes: 2, dia: 29 }));
    assert!(tiene_dia_anterior(f(2024, 1, 1)));
    assert!(!tiene_dia_anterior(f(-262143, 1, 1)));
    assert!(suma_de_dias_representable(f(262142, 12, 3), 28));
    assert!(!suma_de_dias_representable(f(262142, 12, 4), 28));
    assert!(domingo_representable(f(2024, 12, 30)));
}
