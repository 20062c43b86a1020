use turismo_core::edicion::{
    actualizar_datos_tour, calcular_precio_tour, datos_de_tour_nuevo, diferenciar_entradas, diferenciar_tours,
    file_reservado, modo_de_retiro, planificar_cambios_de_precio, planificar_reemplazo, planificar_restaurante,
    status_de_servicio_nuevo, sumar_entradas, validar_tours_editables, CamposTourPedido, DatosTour, EntradaActual,
    EntradaPedida, ErrorEdicion, LineaEntrada, PlanReemplazo, RestauranteActual, RestaurantePedido, Retiro, TourAEditar,
};
use turismo_core::fechas::Fecha;
use turismo_core::lectura::Hora;
use turismo_core::pagos::RegistroPago;

fn registro(id: i32, tour: Option<i32>, tipo: &str, total: i64, pagado: i64) -> RegistroPago {
    RegistroPago {
        id,
        id_file: 1,
        id_file_tour: tour,
        tipo_registro: tipo.to_string(),
        estado: "pendiente".to_string(),
        monto_total: total,
        monto_pagado: pagado,
        monto_saldo_favor: None,
        saldo_autorizado: false,
        entradas: false,
        entrada_precio: None,
        cuota: None,
    }
}

#[test]
fn tour_asignado_no_se_edita() {
    let tours = vec![
        TourAEditar { id: 4, status: "confirmado".to_string() },
        TourAEditar { id: 5, status: "en_curso".to_string() },
        TourAEditar { id: 6, status: "asignado".to_string() },
    ];
    match validar_tours_editables(&tours) {
        Err(e) => {
            assert!(matches!(&e, ErrorEdicion::TourNoEditable { id: 5, .. }));
            assert_eq!(e.mensaje(), "Tour 5 no puede ser modificado porque tiene status 'en_curso'");
        },
        Ok(()) => panic!("debía rechazarse"),
    }
    assert!(validar_tours_editables(&vec![TourAEditar { id: 4, status: "reservado".to_string() }]).is_ok());
}

#[test]
fn diferencia_de_tours() {
    let d = diferenciar_tours(&vec![10, 11, 12], &vec![Some(12), None, Some(10), None]);
    assert_eq!(d.cancelar, vec![1]);
    assert_eq!(d.actualizar, vec![(0, 2), (2, 0)]);
    assert_eq!(d.crear, vec![1, 3]);
}

#[test]
fn servicios_segun_el_status_del_file() {
    assert!(file_reservado(Some("reservado")));
    assert!(!file_reservado(Some("confirmado")));
    assert!(file_reservado(None));
    assert_eq!(modo_de_retiro(true), Retiro::Eliminar);
    assert_eq!(modo_de_retiro(false), Retiro::Cancelar);
    assert_eq!(status_de_servicio_nuevo(true), "reservado");
    assert_eq!(status_de_servicio_nuevo(false), "asignado");
    assert_eq!(planificar_reemplazo(true, false, false), PlanReemplazo { retirar: Some(Retiro::Cancelar), agregar: false });
    assert_eq!(planificar_reemplazo(false, true, true), PlanReemplazo { retirar: Some(Retiro::Eliminar), agregar: true });
    assert_eq!(planificar_reemplazo(false, false, true), PlanReemplazo { retirar: None, agregar: false });
}

#[test]
fn restaurante_quitado_baja_la_deuda_en_un_file_confirmado() {
    let rs = vec![registro(1, Some(10), "pago", 9000, 100), registro(2, Some(10), "deuda", 9000, 0)];
    let actual = Some(RestauranteActual { id: 70, id_restaurante: 3, precio: Some(1500), status: "asignado".to_string() });
    let plan = planificar_restaurante(&actual, &None, false, &rs, 10);
    assert_eq!(plan.retirar, Some((70, Retiro::Cancelar)));
    assert!(!plan.agregar);
    assert_eq!(plan.monto_deuda, Some((2, 7500)));
    let plan = planificar_restaurante(&actual, &None, true, &rs, 10);
    assert_eq!(plan.retirar, Some((70, Retiro::Eliminar)));
    assert_eq!(plan.monto_deuda, None);
}

#[test]
fn restaurante_cambiado_ajusta_la_diferencia() {
    let rs = vec![registro(2, Some(10), "deuda", 9000, 0)];
    let actual = Some(RestauranteActual { id: 70, id_restaurante: 3, precio: Some(1500), status: "asignado".to_string() });
    let pedido = Some(RestaurantePedido { id_restaurante: 4, precio: Some(2000) });
    let plan = planificar_restaurante(&actual, &pedido, false, &rs, 10);
    assert_eq!(plan.retirar, Some((70, Retiro::Cancelar)));
    assert!(plan.agregar);
    assert_eq!(plan.monto_deuda, Some((2, 9500)));
    let mismo = Some(RestaurantePedido { id_restaurante: 3, precio: Some(2000) });
    let plan = planificar_restaurante(&actual, &mismo, false, &rs, 10);
    assert_eq!(plan.retirar, None);
    assert!(!plan.agregar);
    let plan = planificar_restaurante(&None, &pedido, true, &rs, 10);
    assert!(plan.agregar);
    assert_eq!(plan.monto_deuda, Some((2, 11000)));
}

#[test]
fn diferencia_de_entradas_por_clave() {
    let actuales = vec![
        EntradaActual { id: 1, id_entrada: 5, id_entrada_precio: Some(50), cantidad: 2, status: "asignado".to_string() },
        EntradaActual { id: 2, id_entrada: 6, id_entrada_precio: None, cantidad: 1, status: "asignado".to_string() },
        EntradaActual { id: 3, id_entrada: 7, id_entrada_precio: Some(70), cantidad: 1, status: "cancelado".to_string() },
    ];
    let pedidas = vec![
        EntradaPedida { id_entrada: 5, id_entrada_precio: Some(50), cantidad: 3 },
        EntradaPedida { id_entrada: 7, id_entrada_precio: Some(70), cantidad: 1 },
        EntradaPedida { id_entrada: 7, id_entrada_precio: Some(70), cantidad: 4 },
    ];
    let d = diferenciar_entradas(&actuales, &pedidas);
    assert_eq!(d.agregar, vec![2]);
    assert_eq!(d.actualizar, vec![0]);
    assert_eq!(d.retirar, vec![1]);
}

#[test]
fn precio_del_tour_con_entradas_y_restaurante() {
    let lineas = vec![
        LineaEntrada { status: "asignado".to_string(), precio_unitario: Some(1000), cantidad: 2 },
        LineaEntrada { status: "cancelado".to_string(), precio_unitario: Some(5000), cantidad: 1 },
        LineaEntrada { status: "asignado".to_string(), precio_unitario: None, cantidad: 9 },
    ];
    assert_eq!(sumar_entradas(&lineas, false), 2000);
    assert_eq!(sumar_entradas(&lineas, true), 7000);
    let rest = Some(RestauranteActual { id: 1, id_restaurante: 2, precio: Some(3000), status: "asignado".to_string() });
    let p = calcular_precio_tour(Some(4000), Some(1), Some(3), &lineas, &rest);
    assert_eq!(p.precio, 17000);
    assert_eq!(p.monto_entradas, 2000);
    let p = calcular_precio_tour(None, Some(1000), None, &vec![], &None);
    assert_eq!(p.precio, 0);
}

#[test]
fn nuevo_precio_en_los_registros_del_tour() {
    let mut d = registro(1, Some(10), "deuda", 5000, 0);
    d.entrada_precio = Some(300);
    let rs = vec![d, registro(2, Some(10), "pago", 5000, 100), registro(3, Some(10), "pago", 17000, 1), registro(4, Some(11), "deuda", 5000, 0)];
    let lineas = vec![LineaEntrada { status: "asignado".to_string(), precio_unitario: Some(1000), cantidad: 2 }];
    let p = calcular_precio_tour(Some(5000), None, Some(3), &lineas, &None);
    assert_eq!(p.precio, 17000);
    let c = planificar_cambios_de_precio(&rs, 10, &p);
    assert_eq!(c.montos, vec![1, 2]);
    assert_eq!(c.entrada_precio, Some((1, Some(2000))));
}

#[test]
fn datos_del_tour_actualizado() {
    let actual = DatosTour {
        orden: 2,
        precio_aplicado: Some(100),
        fecha_tour: Fecha::new(2024, 5, 1),
        turno_tour: Some("mañana".to_string()),
        lugar_recojo: None,
        hora_recojo: Some(Hora { hora: 7, minuto: 0, segundo: 0, nanosegundo: 0 }),
        status: "confirmado".to_string(),
        nro_pasajeros: Some(3),
    };
    let pedido = CamposTourPedido {
        orden: None,
        precio_aplicado: None,
        fecha_tour: Some("2024-06-02".to_string()),
        turno_tour: None,
        lugar_recojo: Some("Hotel".to_string()),
        hora_recojo: Some("".to_string()),
        status: None,
        nro_pasajeros: Some(5),
    };
    let r = actualizar_datos_tour(actual, pedido, 999);
    assert_eq!(r.orden, 2);
    assert_eq!(r.precio_aplicado, Some(999));
    assert_eq!(r.fecha_tour, Fecha::new(2024, 6, 2));
    assert_eq!(r.turno_tour, Some("mañana".to_string()));
    assert_eq!(r.lugar_recojo, Some("Hotel".to_string()));
    assert_eq!(r.hora_recojo, Some(Hora { hora: 7, minuto: 0, segundo: 0, nanosegundo: 0 }));
    assert_eq!(r.status, "confirmado");
    assert_eq!(r.nro_pasajeros, Some(5));
}

#[test]
fn datos_de_un_tour_nuevo() {
    let pedido = CamposTourPedido {
        orden: None,
        precio_aplicado: Some(4500),
        fecha_tour: Some("no es fecha".to_string()),
        turno_tour: None,
        lugar_recojo: None,
        hora_recojo: Some("09:15".to_string()),
        status: None,
        nro_pasajeros: None,
    };
    let r = datos_de_tour_nuevo(pedido);
    assert_eq!(r.orden, 1);
    assert_eq!(r.precio_aplicado, Some(4500));
    assert_eq!(r.fecha_tour, None);
    assert_eq!(r.hora_recojo, Some(Hora { hora: 9, minuto: 15, segundo: 0, nanosegundo: 0 }));
    assert_eq!(r.status, "reservado");
}
