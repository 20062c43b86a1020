use turismo_core::confirmacion::file_confirmado;
use turismo_core::contabilidad::duplicado_pendiente;
use turismo_core::fechas::{hora_de_peru, Fecha};
use turismo_core::proveedores::{alta_de_pago_proveedor, planificar_pago_proveedor, AltaPagoProveedor, PagoProveedor};
use turismo_core::cambios::CamposCambiados;
use turismo_core::creacion::{exigir_tours, ErrorCreacion, UserRole};
use turismo_core::mi_entidad::{busquedas_de_mi_entidad, mensaje_sin_entidad, Busqueda, EntidadPropia};
use turismo_core::notificaciones::{prioridad_de_actualizacion, se_avisa_al_dueno, EntidadActualizada, Prioridad};
use turismo_core::notificaciones::EntidadActualizada::{Agencia, Conductor, File, Guia, Pago, Restaurante, Tour};
use turismo_core::paginacion::{clave_de_listado, desplazamiento_de_pagina};
use turismo_core::pagos::{seleccionar_posiciones, tipos_del_filtro, Filtro, RegistroPago};
use turismo_core::saldo::ResumenSaldo;
use turismo_core::unicidad::{
    documento_a_verificar, email_a_verificar, email_normalizado, nombre_vacio, placa_cambia, ruc_a_verificar, Duplicado,
};
use turismo_core::usuarios::{nombre_para_mostrar, origen_de_persona, OrigenPersona};

fn registro(id: i32, tipo: &str) -> RegistroPago {
    RegistroPago {
        id,
        id_file: 1,
        id_file_tour: None,
        tipo_registro: tipo.to_string(),
        estado: "pendiente".to_string(),
        monto_total: 0,
        monto_pagado: 0,
        monto_saldo_favor: None,
        saldo_autorizado: false,
        entradas: false,
        entrada_precio: None,
        cuota: None,
    }
}

fn campos(nombres: &[&str]) -> CamposCambiados {
    let mut c = CamposCambiados::new();
    for n in nombres {
        c.anotar_si(n, true);
    }
    c
}

#[test]
fn agencia_propia_por_entidad_y_luego_por_encargado() {
    assert_eq!(
        busquedas_de_mi_entidad(EntidadPropia::Agencia, UserRole::Agencias, Some(4), Some(9)),
        vec![Busqueda::PorId(4), Busqueda::PorEncargado(9)]
    );
    assert_eq!(
        busquedas_de_mi_entidad(EntidadPropia::Agencia, UserRole::AgenciasContador, Some(4), None),
        vec![Busqueda::PorId(4)]
    );
    assert_eq!(
        busquedas_de_mi_entidad(EntidadPropia::Agencia, UserRole::Admin, Some(4), Some(9)),
        vec![Busqueda::PorEncargado(9)]
    );
    assert!(busquedas_de_mi_entidad(EntidadPropia::Agencia, UserRole::AgenciasGerente, Some(4), None).is_empty());
}

#[test]
fn hotel_propio_solo_por_entidad() {
    assert_eq!(
        busquedas_de_mi_entidad(EntidadPropia::Hotel, UserRole::Hoteles, Some(2), Some(9)),
        vec![Busqueda::PorId(2)]
    );
    assert!(busquedas_de_mi_entidad(EntidadPropia::Hotel, UserRole::HotelesGerente, Some(2), Some(9)).is_empty());
    assert_eq!(
        busquedas_de_mi_entidad(EntidadPropia::CadenaHotelera, UserRole::HotelesGerenteCadena, Some(3), Some(9)),
        vec![Busqueda::PorId(3), Busqueda::PorEncargado(9)]
    );
}

#[test]
fn mensajes_sin_entidad_propia() {
    assert_eq!(mensaje_sin_entidad(EntidadPropia::Agencia), "No tienes una agencia asociada");
    assert_eq!(mensaje_sin_entidad(EntidadPropia::Hotel), "No tienes un hotel asociado");
    assert_eq!(mensaje_sin_entidad(EntidadPropia::CadenaHotelera), "No tienes una cadena hotelera asociada");
}

#[test]
fn ruc_se_comprueba_solo_si_cambia() {
    assert_eq!(ruc_a_verificar(Some("20123"), "20123"), None);
    assert_eq!(ruc_a_verificar(Some("20999"), "20123"), Some("20999".to_string()));
    assert_eq!(ruc_a_verificar(None, "20123"), None);
}

#[test]
fn documento_se_comprueba_si_cambia_el_tipo_o_el_numero() {
    assert_eq!(documento_a_verificar(None, None, "DNI", "123"), None);
    assert_eq!(documento_a_verificar(Some("DNI"), Some("123"), "DNI", "123"), None);
    assert_eq!(
        documento_a_verificar(Some("CE"), None, "DNI", "123"),
        Some(("CE".to_string(), "123".to_string()))
    );
    assert_eq!(
        documento_a_verificar(None, Some("456"), "DNI", "123"),
        Some(("DNI".to_string(), "456".to_string()))
    );
}

#[test]
fn mensajes_de_duplicados() {
    assert_eq!(Duplicado::RucDeAgencia("20123".to_string()).mensaje(), "Ya existe una agencia con RUC 20123");
    assert_eq!(
        Duplicado::DocumentoDePersona("DNI".to_string(), "123".to_string()).mensaje(),
        "Ya existe una persona con DNI 123"
    );
    assert_eq!(
        Duplicado::TarifaDeTour(-7, "hoteles".to_string()).mensaje(),
        "Ya existe una tarifa para tour -7 con tipo_entidad 'hoteles'"
    );
}

#[test]
fn listas_de_saldo_por_tipo_de_registro() {
    let rs = vec![
        registro(1, "cancelacion"),
        registro(2, "deuda"),
        registro(3, "no_show_tour"),
        registro(4, "uso_saldo"),
        registro(5, "cancelacion_tour"),
        registro(6, "no_show"),
    ];
    assert_eq!(seleccionar_posiciones(&rs, &Filtro::Cancelaciones, None), vec![0, 4]);
    assert_eq!(seleccionar_posiciones(&rs, &Filtro::NoShows, None), vec![2, 5]);
    assert_eq!(seleccionar_posiciones(&rs, &Filtro::MovimientosDeSaldo, None), vec![0, 2, 3, 4, 5]);
    assert_eq!(seleccionar_posiciones(&rs, &Filtro::MovimientosDeSaldo, Some(2)), vec![0, 2]);
    assert_eq!(seleccionar_posiciones(&rs, &Filtro::Cancelaciones, Some(10)), vec![0, 4]);
    assert!(seleccionar_posiciones(&rs, &Filtro::MovimientosDeSaldo, Some(0)).is_empty());
}

#[test]
fn saldos_listados_solo_con_cancelaciones_o_no_shows() {
    let mut r = ResumenSaldo {
        saldo_generado: 0,
        saldo_usado: 0,
        saldo_disponible: 0,
        total_cancelaciones: 0,
        total_no_shows: 0,
    };
    assert!(!r.tiene_movimientos());
    r.total_no_shows = 1;
    assert!(r.tiene_movimientos());
    r.total_no_shows = 0;
    r.total_cancelaciones = 2;
    assert!(r.tiene_movimientos());
}

#[test]
fn file_nuevo_sin_tours() {
    assert_eq!(exigir_tours(0), Err(ErrorCreacion::SinTours));
    assert_eq!(exigir_tours(3), Ok(()));
}

#[test]
fn paginas_y_claves_de_listado() {
    assert_eq!(desplazamiento_de_pagina(1, 20), 0);
    assert_eq!(desplazamiento_de_pagina(3, 20), 40);
    assert_eq!(desplazamiento_de_pagina(0, 10), -10);
    assert_eq!(clave_de_listado(2, 25), "list:2:25");
    assert_eq!(clave_de_listado(-1, 0), "list:-1:0");
}

#[test]
fn nombre_para_mostrar_de_un_usuario() {
    assert_eq!(nombre_para_mostrar(Some(("Ana", "Pérez Soto")), "ana"), "Ana Pérez Soto");
    assert_eq!(nombre_para_mostrar(None, "ana"), "ana");
}

#[test]
fn campos_anotados_como_lista() {
    assert_eq!(campos(&[]).como_lista(), "sin cambios específicos");
    assert_eq!(campos(&["nombre"]).como_lista(), "nombre");
    assert_eq!(campos(&["nombre", "ruc", "correo"]).como_lista(), "nombre, ruc, correo");
    assert!(campos(&["nombre", "ruc"]).incluye("ruc"));
    assert!(!campos(&["nombre", "ruc"]).incluye("ru"));
}

#[test]
fn prioridad_del_aviso_de_actualizacion() {
    assert_eq!(prioridad_de_actualizacion(Conductor, &campos(&["tiene_soat"])), Some(Prioridad::Normal));
    assert_eq!(prioridad_de_actualizacion(Conductor, &campos(&["telefono"])), Some(Prioridad::Baja));
    assert_eq!(prioridad_de_actualizacion(Guia, &campos(&["especialidades"])), Some(Prioridad::Normal));
    assert_eq!(prioridad_de_actualizacion(Restaurante, &campos(&["capacidad"])), Some(Prioridad::Normal));
    assert_eq!(prioridad_de_actualizacion(Restaurante, &campos(&[])), Some(Prioridad::Baja));
    assert_eq!(prioridad_de_actualizacion(File, &campos(&[])), None);
    assert_eq!(prioridad_de_actualizacion(File, &campos(&["notas", "status"])), Some(Prioridad::Alta));
    assert_eq!(prioridad_de_actualizacion(File, &campos(&["notas"])), Some(Prioridad::Normal));
    assert_eq!(prioridad_de_actualizacion(Pago, &campos(&["monto"])), Some(Prioridad::Alta));
    assert_eq!(prioridad_de_actualizacion(Pago, &campos(&[])), None);
    assert_eq!(prioridad_de_actualizacion(Tour, &campos(&[])), None);
    assert_eq!(prioridad_de_actualizacion(Tour, &campos(&["nombre"])), Some(Prioridad::Baja));
    assert_eq!(prioridad_de_actualizacion(Agencia, &campos(&[])), Some(Prioridad::Baja));
    assert!(se_avisa_al_dueno(3, 4));
    assert!(!se_avisa_al_dueno(3, 3));
}

#[test]
fn tipos_que_se_piden_al_repositorio() {
    assert_eq!(tipos_del_filtro(&Filtro::Cancelaciones), Some(vec!["cancelacion", "cancelacion_tour"]));
    assert_eq!(tipos_del_filtro(&Filtro::NoShows), Some(vec!["no_show", "no_show_tour"]));
    assert_eq!(
        tipos_del_filtro(&Filtro::MovimientosDeSaldo),
        Some(vec!["cancelacion", "cancelacion_tour", "no_show", "no_show_tour", "uso_saldo"])
    );
    assert_eq!(tipos_del_filtro(&Filtro::UsosDeSaldo), Some(vec!["uso_saldo"]));
    assert_eq!(tipos_del_filtro(&Filtro::Todos), None);
    let rs = vec![registro(1, "uso_saldo"), registro(2, "pago")];
    assert_eq!(seleccionar_posiciones(&rs, &Filtro::UsosDeSaldo, None), vec![0]);
}

#[test]
fn emails_en_minusculas() {
    assert_eq!(email_normalizado("Ana.Perez@Agencia.PE"), "ana.perez@agencia.pe");
    assert_eq!(email_a_verificar(Some("ANA@x.pe"), "ana@x.pe"), None);
    assert_eq!(email_a_verificar(Some("Luis@x.pe"), "ana@x.pe"), Some("luis@x.pe".to_string()));
    assert_eq!(email_a_verificar(None, "ana@x.pe"), None);
}

#[test]
fn placas_en_mayusculas() {
    assert!(!placa_cambia(Some("abc-123"), "ABC-123"));
    assert!(placa_cambia(Some("abc-124"), "ABC-123"));
    assert!(!placa_cambia(None, "ABC-123"));
}

#[test]
fn nombres_vacios() {
    assert!(nombre_vacio(""));
    assert!(nombre_vacio("   "));
    assert!(!nombre_vacio(" El Tambo "));
}

#[test]
fn mensajes_de_cuentas_y_vehiculos_repetidos() {
    assert_eq!(Duplicado::EmailDeUsuario("a@b.pe".to_string()).mensaje(), "Email a@b.pe ya registrado");
    assert_eq!(Duplicado::NombreDeUsuario("ana".to_string()).mensaje(), "Username ana ya existe");
    assert_eq!(Duplicado::DocumentoRegistrado("123".to_string()).mensaje(), "Documento 123 ya registrado");
    assert_eq!(Duplicado::PlacaDeVehiculo("ABC-123".to_string()).mensaje(), "Placa ABC-123 ya existe");
}

#[test]
fn persona_de_una_cuenta_nueva() {
    assert_eq!(origen_de_persona(Some(5), true), OrigenPersona::Existente(5));
    assert_eq!(origen_de_persona(None, true), OrigenPersona::Nueva);
    assert_eq!(origen_de_persona(None, false), OrigenPersona::Ninguna);
}

fn fecha(anio: i32, mes: u32, dia: u32) -> Fecha {
    Fecha { anio, mes, dia }
}

#[test]
fn hora_de_peru_cinco_horas_antes() {
    assert_eq!(hora_de_peru(fecha(2024, 3, 10), 18000), (fecha(2024, 3, 10), 0));
    assert_eq!(hora_de_peru(fecha(2024, 3, 10), 50000), (fecha(2024, 3, 10), 32000));
    assert_eq!(hora_de_peru(fecha(2024, 3, 10), 3600), (fecha(2024, 3, 9), 72000));
    assert_eq!(hora_de_peru(fecha(2024, 3, 1), 0), (fecha(2024, 2, 29), 68400));
    assert_eq!(hora_de_peru(fecha(2025, 1, 1), 17999), (fecha(2024, 12, 31), 86399));
}

fn pago_prov(id: i32, tipo: &str, tour: i32, estado: &str, total: i64, pagado: i64) -> PagoProveedor {
    PagoProveedor {
        id,
        tipo_proveedor: tipo.to_string(),
        id_tour: Some(tour),
        fecha_tour: Some(fecha(2024, 5, 4)),
        estado: estado.to_string(),
        monto_total: total,
        monto_pagado: pagado,
    }
}

#[test]
fn alta_de_pagos_a_proveedor() {
    assert!(matches!(alta_de_pago_proveedor(Some(8), Some(100)), AltaPagoProveedor::Existente(8)));
    match alta_de_pago_proveedor(None, None) {
        AltaPagoProveedor::Nuevo { estado, monto_total } => {
            assert_eq!(estado, "pendiente");
            assert_eq!(monto_total, 0);
        }
        _ => panic!("debía ser nuevo"),
    }
    match alta_de_pago_proveedor(None, Some(2500)) {
        AltaPagoProveedor::Nuevo { monto_total, .. } => assert_eq!(monto_total, 2500),
        _ => panic!("debía ser nuevo"),
    }
}

#[test]
fn pago_a_proveedor_reparte_lo_pagado_de_mas() {
    let marcado = pago_prov(1, "guia", 7, "pendiente", 10000, 10000);
    let mut otro_dia = pago_prov(5, "guia", 7, "pendiente", 5000, 0);
    otro_dia.fecha_tour = Some(fecha(2024, 5, 5));
    let otros = vec![
        pago_prov(2, "guia", 7, "pendiente", 4000, 1000),  // le faltan 3000
        pago_prov(3, "transporte", 7, "pendiente", 9000, 0), // otro tipo
        pago_prov(4, "guia", 7, "pagado", 9000, 0),        // ya pagado
        otro_dia,                                          // otra fecha
        pago_prov(6, "guia", 7, "parcial", 8000, 6000),    // le faltan 2000
        pago_prov(1, "guia", 7, "pendiente", 9000, 0),     // el mismo
    ];
    let plan = planificar_pago_proveedor(&marcado, None, Some(14000), &otros).ok().unwrap();
    assert_eq!(plan.monto_pagado, 14000);
    assert_eq!(plan.excedente, 4000);
    let abonos: Vec<(i32, i64, i64)> = plan.abonos.iter().map(|a| (a.id, a.abono, a.nuevo_monto_pagado)).collect();
    assert_eq!(abonos, vec![(2, 3000, 4000), (6, 1000, 7000)]);
    assert_eq!(plan.sobrante, 0);

    let plan = planificar_pago_proveedor(&marcado, None, Some(20000), &otros).ok().unwrap();
    assert_eq!(plan.excedente, 10000);
    assert_eq!(plan.sobrante, 5000);

    let plan = planificar_pago_proveedor(&marcado, Some(9000), None, &otros).ok().unwrap();
    assert_eq!(plan.monto_pagado, 9000);
    assert_eq!(plan.excedente, 0);
    assert!(plan.abonos.is_empty());

    let pagado = pago_prov(1, "guia", 7, "pagado", 10000, 10000);
    assert!(planificar_pago_proveedor(&pagado, None, None, &otros).is_err());
}

#[test]
fn confirmacion_y_rechazo_de_pagos() {
    let c = file_confirmado(Some(50000), 30000);
    assert_eq!(c.status, "confirmado");
    assert_eq!(c.monto_total, 50000);
    assert_eq!(file_confirmado(None, 30000).monto_total, 30000);

    let mut r = registro(9, "pago");
    r.id_file_tour = Some(4);
    r.estado = "pendiente_verificacion".to_string();
    r.monto_total = 12000;
    r.monto_pagado = 5000;
    r.entradas = true;
    r.entrada_precio = Some(3000);
    r.cuota = Some(2);
    r.monto_saldo_favor = Some(10);
    let d = duplicado_pendiente(&r);
    assert_eq!(d.id, 0);
    assert_eq!(d.id_file, 1);
    assert_eq!(d.id_file_tour, Some(4));
    assert_eq!(d.tipo_registro, "pago");
    assert_eq!(d.estado, "pendiente");
    assert_eq!(d.monto_total, 12000);
    assert_eq!(d.monto_pagado, 0);
    assert_eq!(d.monto_saldo_favor, None);
    assert!(d.entradas);
    assert_eq!(d.entrada_precio, Some(3000));
    assert_eq!(d.cuota, Some(0));
}
