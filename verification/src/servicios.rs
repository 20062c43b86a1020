//! Los servicios con sus dependencias: el repositorio (y la caché) con que
//! trabaja cada uno, y la clave de caché de los precios de una entrada.

use vstd::prelude::*;
use crate::texto::{texto, unir, i64_a_texto, texto_entero};

verus! {

/// Servicio de precios de entradas, con su repositorio y su caché.
pub struct EntradaPrecioService<R, C> {
    pub entrada_precio_repository: R,
    pub cache: C,
}

impl<R, C> EntradaPrecioService<R, C> {
    /// Crea el servicio con su repositorio y su caché.
    pub fn new(entrada_precio_repository: R, cache: C) -> (r: Self)
        ensures
            r.entrada_precio_repository == entrada_precio_repository,
            r.cache == cache,
    {
        EntradaPrecioService { entrada_precio_repository, cache }
    }

    /// Clave de caché de los precios de una entrada: "entrada:" y su id.
    pub fn precios_cache_key(&self, id_entrada: i32) -> (r: String)
        ensures
            r@ == "entrada:"@ + texto_entero(id_entrada as int),
    {
        proof {
            reveal_strlit("entrada:");
        }
        unir(texto("entrada:"), i64_a_texto(id_entrada as i64).as_str())
    }
}

/// Repositorio de los files propios de guías, conductores y restaurantes
/// sobre una conexión a la base de datos.
pub struct PostgresMyFilesRepository<P> {
    pub pool: P,
}

impl<P> PostgresMyFilesRepository<P> {
    /// Crea el repositorio sobre la conexión.
    pub fn new(pool: P) -> (r: Self)
        ensures
            r.pool == pool,
    {
        PostgresMyFilesRepository { pool }
    }
}

/// Servicio de los files propios de guías, conductores y restaurantes.
pub struct MyFilesService<R> {
    pub repository: R,
}

impl<R> MyFilesService<R> {
    /// Crea el servicio con su repositorio.
    pub fn new(repository: R) -> (r: Self)
        ensures
            r.repository == repository,
    {
        MyFilesService { repository }
    }
}

/// Servicio de notificaciones.
pub struct NotificationService<R> {
    pub repository: R,
}

impl<R> NotificationService<R> {
    /// Crea el servicio con su repositorio.
    pub fn new(repository: R) -> (r: Self)
        ensures
            r.repository == repository,
    {
        NotificationService { repository }
    }
}

/// Servicio de tarifas de tours.
pub struct TarifaService<R> {
    pub tarifa_repository: R,
}

impl<R> TarifaService<R> {
    /// Crea el servicio con su repositorio.
    pub fn new(tarifa_repository: R) -> (r: Self)
        ensures
            r.tarifa_repository == tarifa_repository,
    {
        TarifaService { tarifa_repository }
    }
}

} // verus!
